use ytdl_gate::command::{
    build_ytdlp_base_command, build_ytdlp_command, find_ffmpeg, info_command, refresh_command,
    thumbnail_command, MuxerProbe,
};
use ytdl_gate::config::{AppConfig, ConfigError, RawConfig};
use ytdl_gate::errors::ServiceError;
use ytdl_gate::handlers::{
    validate_info_request, validate_stream_request, validate_thumbnail_request, InfoRequest,
    StreamRequest, ThumbnailRequest,
};
use ytdl_gate::media::{content_type_for_ext, select_thumbnail, FoundFile};

fn empty_raw() -> RawConfig {
    RawConfig {
        listen_addr: None,
        max_concurrent_downloads: None,
        cookies_source: None,
        cookies_file: None,
        cookies_browser: None,
        cookies_refresh_max_age_secs: None,
        ytdlp_bin: None,
        ytdlp_path: None,
        ffmpeg_bin: None,
        ytdlp_proxy: None,
        inherit_proxy_env: None,
    }
}

fn no_probe() -> MuxerProbe {
    MuxerProbe { homebrew_exists: false, usr_local_exists: false, usr_bin_exists: false }
}

fn default_config() -> AppConfig {
    AppConfig::resolve(empty_raw(), None).unwrap()
}

#[test]
fn config_defaults() {
    let cfg = default_config();
    assert_eq!(cfg.listen_addr, "0.0.0.0:8080");
    assert_eq!(cfg.max_concurrent_downloads, 5);
    assert_eq!(cfg.cookies_source, "browser");
    assert_eq!(cfg.cookies_file, "cookies.txt");
    assert_eq!(cfg.cookies_browser, "edge");
    assert_eq!(cfg.cookies_refresh_max_age_secs, 1800);
    assert_eq!(cfg.ytdlp_bin, "yt-dlp");
    assert_eq!(cfg.ytdlp_path, "/opt/homebrew/bin:/usr/local/bin:/usr/bin:/bin:/usr/sbin:/sbin");
    assert_eq!(cfg.ffmpeg_bin, None);
    assert_eq!(cfg.ytdlp_proxy, None);
    assert!(!cfg.inherit_proxy_env);
}

#[test]
fn config_env_path_stands_in_for_unset_search_path() {
    let cfg = AppConfig::resolve(empty_raw(), Some("/usr/bin:/bin".to_string())).unwrap();
    assert_eq!(cfg.ytdlp_path, "/usr/bin:/bin");
    let mut raw = empty_raw();
    raw.ytdlp_path = Some("/custom".to_string());
    let cfg = AppConfig::resolve(raw, Some("/usr/bin:/bin".to_string())).unwrap();
    assert_eq!(cfg.ytdlp_path, "/custom");
}

#[test]
fn config_cookie_source_is_canonicalized_and_validated() {
    let mut raw = empty_raw();
    raw.cookies_source = Some("FILE".to_string());
    let cfg = AppConfig::resolve(raw, None).unwrap();
    assert_eq!(cfg.cookies_source, "file");
    let mut raw = empty_raw();
    raw.cookies_source = Some("Browser".to_string());
    let cfg = AppConfig::resolve(raw, None).unwrap();
    assert_eq!(cfg.cookies_source, "browser");
    let mut raw = empty_raw();
    raw.cookies_source = Some("keychain".to_string());
    let r = AppConfig::resolve(raw, None);
    assert!(matches!(r, Err(ConfigError::InvalidCookiesSource)));
}

#[test]
fn config_blank_optionals_count_as_unset() {
    let mut raw = empty_raw();
    raw.ffmpeg_bin = Some("   ".to_string());
    raw.ytdlp_proxy = Some(" socks5://127.0.0.1:7890 ".to_string());
    let cfg = AppConfig::resolve(raw, None).unwrap();
    assert_eq!(cfg.ffmpeg_bin, None);
    assert_eq!(cfg.ytdlp_proxy.as_deref(), Some("socks5://127.0.0.1:7890"));
}

#[test]
fn base_command_shape() {
    let cfg = default_config();
    let c = build_ytdlp_base_command(&cfg);
    assert_eq!(c.program, "yt-dlp");
    assert_eq!(c.path_env, cfg.ytdlp_path);
    assert!(c.clear_proxy_env);
    assert_eq!(
        c.args,
        vec![
            "--cookies",
            "cookies.txt",
            "--js-runtimes",
            "node",
            "--no-playlist",
            "--no-cache-dir",
            "--no-part",
        ]
    );
}

#[test]
fn base_command_with_proxy_and_inherited_env() {
    let mut raw = empty_raw();
    raw.ytdlp_proxy = Some("socks5://127.0.0.1:7890".to_string());
    raw.inherit_proxy_env = Some(true);
    let cfg = AppConfig::resolve(raw, None).unwrap();
    let c = build_ytdlp_base_command(&cfg);
    assert!(!c.clear_proxy_env);
    assert_eq!(&c.args[..2], &["--proxy", "socks5://127.0.0.1:7890"]);
    assert_eq!(c.args[2], "--cookies");
}

#[test]
fn progressive_command_arguments() {
    let cfg = default_config();
    let c = build_ytdlp_command(&cfg, "progressive", "https://u", "/tmp/x/video.mp4", &no_probe())
        .unwrap();
    let tail: Vec<&str> = c.args.iter().map(|s| s.as_str()).skip(7).collect();
    assert_eq!(tail, vec!["-o", "/tmp/x/video.mp4", "-f", "best[ext=mp4]/best", "https://u"]);
}

#[test]
fn best_mode_without_muxer_fails_fast() {
    let cfg = default_config();
    let r = build_ytdlp_command(&cfg, "best", "https://u", "/tmp/x/video.mp4", &no_probe());
    assert_eq!(
        r.err().as_deref(),
        Some("ffmpeg is required for mode=best. Install ffmpeg or set ffmpeg_bin in config.toml")
    );
}

#[test]
fn best_mode_with_found_muxer() {
    let cfg = default_config();
    let probe =
        MuxerProbe { homebrew_exists: false, usr_local_exists: true, usr_bin_exists: true };
    let c = build_ytdlp_command(&cfg, "best", "https://u", "/tmp/x/video.mp4", &probe).unwrap();
    let tail: Vec<&str> = c.args.iter().map(|s| s.as_str()).skip(7).collect();
    assert_eq!(
        tail,
        vec![
            "-o",
            "/tmp/x/video.mp4",
            "--ffmpeg-location",
            "/usr/local/bin/ffmpeg",
            "-f",
            "bestvideo[ext=mp4]+bestaudio[ext=m4a]/best[ext=mp4]/best",
            "--merge-output-format",
            "mp4",
            "https://u",
        ]
    );
}

#[test]
fn muxer_discovery_order() {
    let cfg = default_config();
    let all = MuxerProbe { homebrew_exists: true, usr_local_exists: true, usr_bin_exists: true };
    assert_eq!(find_ffmpeg(&cfg, &all).as_deref(), Some("/opt/homebrew/bin/ffmpeg"));
    assert_eq!(find_ffmpeg(&cfg, &no_probe()), None);
    let mut raw = empty_raw();
    raw.ffmpeg_bin = Some("/custom/ffmpeg".to_string());
    let cfg = AppConfig::resolve(raw, None).unwrap();
    assert_eq!(find_ffmpeg(&cfg, &no_probe()).as_deref(), Some("/custom/ffmpeg"));
}

#[test]
fn refresh_command_arguments() {
    let cfg = default_config();
    let c = refresh_command(&cfg);
    assert_eq!(c.program, "yt-dlp");
    assert!(c.clear_proxy_env);
    assert_eq!(
        c.args,
        vec![
            "--cookies-from-browser",
            "edge",
            "--cookies",
            "cookies.txt",
            "--skip-download",
            "--quiet",
            "--no-warnings",
            "https://www.youtube.com/watch?v=dQw4w9WgXcQ",
        ]
    );
}

#[test]
fn thumbnail_command_arguments() {
    let cfg = default_config();
    let c = thumbnail_command(&cfg, "https://u", "/tmp/t/thumbnail.%(ext)s", &no_probe());
    let tail: Vec<&str> = c.args.iter().map(|s| s.as_str()).skip(7).collect();
    assert_eq!(
        tail,
        vec!["--skip-download", "--write-thumbnail", "-o", "/tmp/t/thumbnail.%(ext)s", "https://u"]
    );
    let probe = MuxerProbe { homebrew_exists: true, usr_local_exists: false, usr_bin_exists: false };
    let c = thumbnail_command(&cfg, "https://u", "/tmp/t/thumbnail.%(ext)s", &probe);
    let tail: Vec<&str> = c.args.iter().map(|s| s.as_str()).skip(7).collect();
    assert_eq!(
        tail,
        vec![
            "--skip-download",
            "--write-thumbnail",
            "-o",
            "/tmp/t/thumbnail.%(ext)s",
            "--ffmpeg-location",
            "/opt/homebrew/bin/ffmpeg",
            "--convert-thumbnails",
            "jpg",
            "https://u",
        ]
    );
}

#[test]
fn info_command_arguments() {
    let cfg = default_config();
    let c = info_command(&cfg, "https://u");
    let tail: Vec<&str> = c.args.iter().map(|s| s.as_str()).skip(7).collect();
    assert_eq!(tail, vec!["--no-playlist", "-J", "https://u"]);
}

#[test]
fn stream_request_validation() {
    let r = validate_stream_request(&StreamRequest { url: "  ".to_string(), mode: None });
    assert_eq!(r, Err(ServiceError::MissingUrl));
    let r = validate_stream_request(&StreamRequest { url: "https://u".to_string(), mode: None });
    assert_eq!(r.as_deref(), Ok("progressive"));
    let r = validate_stream_request(&StreamRequest {
        url: "https://u".to_string(),
        mode: Some("best".to_string()),
    });
    assert_eq!(r.as_deref(), Ok("best"));
    let r = validate_stream_request(&StreamRequest {
        url: "https://u".to_string(),
        mode: Some("dvd".to_string()),
    });
    assert_eq!(r, Err(ServiceError::InvalidMode));
    // Mode matching is exact, unlike the cookie source.
    let r = validate_stream_request(&StreamRequest {
        url: "https://u".to_string(),
        mode: Some("Best".to_string()),
    });
    assert_eq!(r, Err(ServiceError::InvalidMode));
}

#[test]
fn thumbnail_and_info_validation() {
    let r = validate_thumbnail_request(&ThumbnailRequest { url: "".to_string() });
    assert_eq!(r, Err(ServiceError::MissingUrl));
    let r = validate_thumbnail_request(&ThumbnailRequest { url: "https://u".to_string() });
    assert_eq!(r, Ok(()));
    let r = validate_info_request(&InfoRequest { url: "".to_string(), include_formats: Some(true) });
    assert_eq!(r, Err(ServiceError::MissingUrl));
    let r = validate_info_request(&InfoRequest { url: "https://u".to_string(), include_formats: None });
    assert_eq!(r, Ok(false));
    let r = validate_info_request(&InfoRequest {
        url: "https://u".to_string(),
        include_formats: Some(true),
    });
    assert_eq!(r, Ok(true));
}

fn file(path: &str, ext: &str) -> FoundFile {
    FoundFile { path: path.to_string(), ext: ext.to_string() }
}

#[test]
fn thumbnail_selection_prefers_jpg_then_png_then_webp() {
    let files = vec![file("/t/a.webp", "webp"), file("/t/b.png", "png"), file("/t/c.jpg", "jpg")];
    assert_eq!(select_thumbnail(&files), Some(2));
    let files = vec![file("/t/a.webp", "webp"), file("/t/b.png", "png")];
    assert_eq!(select_thumbnail(&files), Some(1));
    let files = vec![file("/t/a.webp", "webp"), file("/t/x.txt", "txt")];
    assert_eq!(select_thumbnail(&files), Some(0));
    let files = vec![file("/t/x.txt", "txt")];
    assert_eq!(select_thumbnail(&files), None);
    assert_eq!(select_thumbnail(&Vec::new()), None);
}

#[test]
fn thumbnail_selection_takes_the_last_match_case_insensitively() {
    let files = vec![file("/t/a.JPG", "JPG"), file("/t/b.jpeg", "jpeg"), file("/t/c.png", "png")];
    assert_eq!(select_thumbnail(&files), Some(1));
}

#[test]
fn content_types() {
    assert_eq!(content_type_for_ext("jpg"), "image/jpeg");
    assert_eq!(content_type_for_ext("JPEG"), "image/jpeg");
    assert_eq!(content_type_for_ext("png"), "image/png");
    assert_eq!(content_type_for_ext("WEBP"), "image/webp");
    assert_eq!(content_type_for_ext("gif"), "application/octet-stream");
}
