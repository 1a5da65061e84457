use ytdl_gate::handlers::{attachment_header_value, filename_stem};
use ytdl_gate::text::{eq_ignore_ascii_case, is_blank, str_eq, trim_ws};
use ytdl_gate::util::{sanitize_filename_component, video_id_from_url};

#[test]
fn sanitize_keeps_safe_characters_only() {
    assert_eq!(sanitize_filename_component("abc-DEF_123.mp4"), "abc-DEF_123.mp4");
    assert_eq!(sanitize_filename_component("a/b\\c:d*e"), "abcde");
    assert_eq!(sanitize_filename_component("../../etc/passwd"), "....etcpasswd");
    assert_eq!(sanitize_filename_component(""), "");
    assert_eq!(sanitize_filename_component("???"), "");
}

#[test]
fn video_id_from_watch_url() {
    let id = video_id_from_url("https://www.youtube.com/watch?v=abc123&t=5s");
    assert_eq!(id.as_deref(), Some("abc123"));
}

#[test]
fn video_id_from_short_url() {
    let id = video_id_from_url("https://youtu.be/XyZ_9-q?t=1");
    assert_eq!(id.as_deref(), Some("XyZ_9-q"));
}

#[test]
fn video_id_prefers_the_watch_parameter() {
    let id = video_id_from_url("https://youtu.be/short?v=fromquery");
    // The `v=` rule runs first; its candidate here is non-empty, so it wins.
    assert_eq!(id.as_deref(), Some("fromquery"));
}

#[test]
fn video_id_falls_back_when_the_first_rule_is_empty() {
    // `v=` occurs but yields an empty candidate; the short-url rule applies.
    let id = video_id_from_url("https://youtu.be/abc?v=");
    assert_eq!(id.as_deref(), Some("abc"));
}

#[test]
fn video_id_none_when_nothing_matches() {
    assert_eq!(video_id_from_url("https://example.com/media/1"), None);
    assert_eq!(video_id_from_url(""), None);
}

#[test]
fn filename_stem_uses_the_fallback() {
    assert_eq!(filename_stem("https://example.com", "video"), "video");
    assert_eq!(filename_stem("https://www.youtube.com/watch?v=ok1", "video"), "ok1");
    assert_eq!(filename_stem("https://example.com", "thumbnail"), "thumbnail");
}

#[test]
fn attachment_header_shape() {
    assert_eq!(attachment_header_value("abc", "mp4"), "attachment; filename=\"abc.mp4\"");
    assert_eq!(attachment_header_value("t", "jpg"), "attachment; filename=\"t.jpg\"");
}

#[test]
fn string_equality_helpers() {
    assert!(str_eq("best", "best"));
    assert!(!str_eq("best", "Best"));
    assert!(!str_eq("best", "bes"));
    assert!(eq_ignore_ascii_case("Browser", "browser"));
    assert!(eq_ignore_ascii_case("FILE", "file"));
    assert!(!eq_ignore_ascii_case("files", "file"));
}

#[test]
fn sanitize_drops_non_ascii() {
    assert_eq!(sanitize_filename_component("caf\u{e9}"), "caf");
}

#[test]
fn video_id_is_sanitized() {
    let id = video_id_from_url("https://www.youtube.com/watch?v=a/b:c&x=1");
    assert_eq!(id.as_deref(), Some("abc"));
}

#[test]
fn blank_and_trim() {
    assert!(is_blank(""));
    assert!(is_blank("  \t\r\n"));
    assert!(!is_blank(" x "));
    assert_eq!(trim_ws("  hello \n"), "hello");
    assert_eq!(trim_ws(""), "");
    assert_eq!(trim_ws(" \t "), "");
    assert_eq!(trim_ws("no-trim"), "no-trim");
}
