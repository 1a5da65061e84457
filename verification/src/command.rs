//! Construction of downloader invocations: environment policy, the shared
//! base argument list, the per-mode format selectors, the credential-refresh
//! invocation, and the muxer discovery that `best` mode depends on.

use vstd::prelude::*;

use crate::config::AppConfig;

verus! {

/// One subprocess invocation, ready to be spawned: the program, the search
/// path handed to it, whether ambient proxy variables are stripped from its
/// environment, and the argument list in order.
pub struct CommandSpec {
    pub program: String,
    pub path_env: String,
    /// True unless the configuration opts in to inheriting ambient proxy
    /// environment variables.
    pub clear_proxy_env: bool,
    pub args: Vec<String>,
}

/// The explicit proxy arguments, when a proxy is configured.
pub open spec fn proxy_args(proxy: Option<String>) -> Seq<Seq<char>> {
    match proxy {
        Option::Some(p) => seq!["--proxy"@, p@],
        Option::None => Seq::empty(),
    }
}

/// Arguments every downloader invocation starts with: the optional explicit
/// proxy, the credential file, and the concurrency-safety flags (no playlist
/// expansion, no on-disk cache, no partial-file markers).
pub open spec fn base_args(cfg: AppConfig) -> Seq<Seq<char>> {
    proxy_args(cfg.ytdlp_proxy) + seq![
        "--cookies"@,
        cfg.cookies_file@,
        "--js-runtimes"@,
        "node"@,
        "--no-playlist"@,
        "--no-cache-dir"@,
        "--no-part"@,
    ]
}

/// The command is the shared base invocation for this configuration, up to
/// its trailing arguments.
pub open spec fn has_base_shape(c: CommandSpec, cfg: AppConfig) -> bool {
    &&& c.program@ == cfg.ytdlp_bin@
    &&& c.path_env@ == cfg.ytdlp_path@
    &&& c.clear_proxy_env == !cfg.inherit_proxy_env
}

/// Build the shared base invocation: program, search path, proxy policy and
/// the flags common to every mode.
pub fn build_ytdlp_base_command(cfg: &AppConfig) -> (c: CommandSpec)
    ensures
        has_base_shape(c, *cfg),
        c.args.deep_view() == base_args(*cfg),
{
    let mut args: Vec<String> = Vec::new();
    if let Option::Some(p) = &cfg.ytdlp_proxy {
        args.push("--proxy".to_owned());
        args.push(p.clone());
    }
    args.push("--cookies".to_owned());
    args.push(cfg.cookies_file.clone());
    args.push("--js-runtimes".to_owned());
    args.push("node".to_owned());
    args.push("--no-playlist".to_owned());
    args.push("--no-cache-dir".to_owned());
    args.push("--no-part".to_owned());
    proof {
        assert(args.deep_view() =~= base_args(*cfg));
    }
    CommandSpec {
        program: cfg.ytdlp_bin.clone(),
        path_env: cfg.ytdlp_path.clone(),
        clear_proxy_env: !cfg.inherit_proxy_env,
        args,
    }
}

/// What the filesystem probe of the fixed muxer search locations reported.
#[derive(Clone, Copy, Debug, PartialEq, Eq, Structural)]
pub struct MuxerProbe {
    pub homebrew_exists: bool,
    pub usr_local_exists: bool,
    pub usr_bin_exists: bool,
}

/// The muxer chosen for this configuration: the explicitly configured binary
/// if any, else the first of the fixed search locations that exists.
pub open spec fn spec_find_ffmpeg(explicit: Option<String>, probe: MuxerProbe) -> Option<
    Seq<char>,
> {
    match explicit {
        Option::Some(p) => Option::Some(p@),
        Option::None => if probe.homebrew_exists {
            Option::Some("/opt/homebrew/bin/ffmpeg"@)
        } else if probe.usr_local_exists {
            Option::Some("/usr/local/bin/ffmpeg"@)
        } else if probe.usr_bin_exists {
            Option::Some("/usr/bin/ffmpeg"@)
        } else {
            Option::None
        },
    }
}

/// Locate the external muxing tool: the configured path wins; otherwise the
/// fixed search locations are taken in order, by the caller's probe of them.
pub fn find_ffmpeg(cfg: &AppConfig, probe: &MuxerProbe) -> (r: Option<String>)
    ensures
        match r {
            Option::Some(s) => spec_find_ffmpeg(cfg.ffmpeg_bin, *probe) == Option::Some(s@),
            Option::None => spec_find_ffmpeg(cfg.ffmpeg_bin, *probe) is None,
        },
{
    if let Option::Some(p) = &cfg.ffmpeg_bin {
        return Option::Some(p.clone());
    }
    if probe.homebrew_exists {
        return Option::Some("/opt/homebrew/bin/ffmpeg".to_owned());
    }
    if probe.usr_local_exists {
        return Option::Some("/usr/local/bin/ffmpeg".to_owned());
    }
    if probe.usr_bin_exists {
        return Option::Some("/usr/bin/ffmpeg".to_owned());
    }
    Option::None
}

/// Trailing arguments of a progressive-mode download: a single pre-combined
/// stream, no merge step.
pub open spec fn progressive_tail(url: Seq<char>, out: Seq<char>) -> Seq<Seq<char>> {
    seq!["-o"@, out, "-f"@, "best[ext=mp4]/best"@, url]
}

/// Trailing arguments of a best-mode download: separate best video and audio
/// streams, merged by the external muxer.
pub open spec fn best_tail(url: Seq<char>, out: Seq<char>, ffmpeg: Seq<char>) -> Seq<Seq<char>> {
    seq![
        "-o"@,
        out,
        "--ffmpeg-location"@,
        ffmpeg,
        "-f"@,
        "bestvideo[ext=mp4]+bestaudio[ext=m4a]/best[ext=mp4]/best"@,
        "--merge-output-format"@,
        "mp4"@,
        url,
    ]
}

/// Build the full download invocation for the given mode. In `best` mode
/// the external muxer is required: when neither the configuration nor the
/// search locations provide one, this fails fast, before anything is
/// spawned.
pub fn build_ytdlp_command(
    cfg: &AppConfig,
    mode: &str,
    url: &str,
    out_path: &str,
    probe: &MuxerProbe,
) -> (r: Result<CommandSpec, String>)
    ensures
        r is Err <==> (mode@ == "best"@ && spec_find_ffmpeg(cfg.ffmpeg_bin, *probe) is None),
        r matches Err(m) ==> m@
            == "ffmpeg is required for mode=best. Install ffmpeg or set ffmpeg_bin in config.toml"@,
        r matches Ok(c) ==> {
            &&& has_base_shape(c, *cfg)
            &&& mode@ == "best"@ ==> (spec_find_ffmpeg(cfg.ffmpeg_bin, *probe) matches Some(ff)
                && c.args.deep_view() == base_args(*cfg) + best_tail(url@, out_path@, ff))
            &&& mode@ != "best"@ ==> c.args.deep_view() == base_args(*cfg) + progressive_tail(
                url@,
                out_path@,
            )
        },
{
    let mut c = build_ytdlp_base_command(cfg);
    let ghost base = c.args.deep_view();
    c.args.push("-o".to_owned());
    c.args.push(out_path.to_owned());
    if crate::text::str_eq(mode, "best") {
        let ffmpeg = match find_ffmpeg(cfg, probe) {
            Option::Some(f) => f,
            Option::None => {
                return Err(
                    "ffmpeg is required for mode=best. Install ffmpeg or set ffmpeg_bin in config.toml".to_owned(),
                );
            },
        };
        c.args.push("--ffmpeg-location".to_owned());
        c.args.push(ffmpeg);
        c.args.push("-f".to_owned());
        c.args.push("bestvideo[ext=mp4]+bestaudio[ext=m4a]/best[ext=mp4]/best".to_owned());
        c.args.push("--merge-output-format".to_owned());
        c.args.push("mp4".to_owned());
        c.args.push(url.to_owned());
        proof {
            let ff = spec_find_ffmpeg(cfg.ffmpeg_bin, *probe);
            assert(c.args.deep_view() =~= base + best_tail(url@, out_path@, ff->0));
        }
        Ok(c)
    } else {
        c.args.push("-f".to_owned());
        c.args.push("best[ext=mp4]/best".to_owned());
        c.args.push(url.to_owned());
        proof {
            assert(c.args.deep_view() =~= base + progressive_tail(url@, out_path@));
        }
        Ok(c)
    }
}

/// A best-mode request with no muxer configured and none of the search
/// locations present is refused while the job still has no subprocess (the
/// command cannot even be built), and the refusal is a client error, not an
/// upstream one.
pub proof fn lemma_best_without_muxer_rejected(explicit: Option<String>, probe: MuxerProbe)
    requires
        explicit is None,
        !probe.homebrew_exists,
        !probe.usr_local_exists,
        !probe.usr_bin_exists,
    ensures
        spec_find_ffmpeg(explicit, probe) is None,
        crate::errors::spec_status_code(crate::errors::ServiceError::DependencyMissing) == 400,
{
}

/// The fixed probe target hit when exporting credentials: the download
/// itself is skipped, the run exists only to rewrite the credential file.
pub open spec fn refresh_probe_url() -> Seq<char> {
    "https://www.youtube.com/watch?v=dQw4w9WgXcQ"@
}

/// Trailing arguments of a credential refresh: export cookies from the
/// configured browser into the credential file, skipping the download.
pub open spec fn refresh_tail(cfg: AppConfig) -> Seq<Seq<char>> {
    seq![
        "--cookies-from-browser"@,
        cfg.cookies_browser@,
        "--cookies"@,
        cfg.cookies_file@,
        "--skip-download"@,
        "--quiet"@,
        "--no-warnings"@,
        refresh_probe_url(),
    ]
}

/// Build the credential-refresh invocation: export from the configured
/// browser into the credential file against the fixed probe target.
pub fn refresh_command(cfg: &AppConfig) -> (c: CommandSpec)
    ensures
        has_base_shape(c, *cfg),
        c.args.deep_view() == proxy_args(cfg.ytdlp_proxy) + refresh_tail(*cfg),
{
    let mut args: Vec<String> = Vec::new();
    if let Option::Some(p) = &cfg.ytdlp_proxy {
        args.push("--proxy".to_owned());
        args.push(p.clone());
    }
    args.push("--cookies-from-browser".to_owned());
    args.push(cfg.cookies_browser.clone());
    args.push("--cookies".to_owned());
    args.push(cfg.cookies_file.clone());
    args.push("--skip-download".to_owned());
    args.push("--quiet".to_owned());
    args.push("--no-warnings".to_owned());
    args.push("https://www.youtube.com/watch?v=dQw4w9WgXcQ".to_owned());
    proof {
        assert(args.deep_view() =~= proxy_args(cfg.ytdlp_proxy) + refresh_tail(*cfg));
    }
    CommandSpec {
        program: cfg.ytdlp_bin.clone(),
        path_env: cfg.ytdlp_path.clone(),
        clear_proxy_env: !cfg.inherit_proxy_env,
        args,
    }
}

/// Trailing arguments of a thumbnail fetch: write only the thumbnail; when
/// a muxer is at hand, convert it to jpg for consistent output.
pub open spec fn thumbnail_tail(
    url: Seq<char>,
    out_template: Seq<char>,
    ffmpeg: Option<Seq<char>>,
) -> Seq<Seq<char>> {
    seq!["--skip-download"@, "--write-thumbnail"@, "-o"@, out_template] + (match ffmpeg {
        Option::Some(f) => seq!["--ffmpeg-location"@, f, "--convert-thumbnails"@, "jpg"@],
        Option::None => Seq::empty(),
    }) + seq![url]
}

/// Build the thumbnail invocation. The muxer is optional here: without one
/// the thumbnail is returned in whatever format the source offers.
pub fn thumbnail_command(cfg: &AppConfig, url: &str, out_template: &str, probe: &MuxerProbe) -> (c:
    CommandSpec)
    ensures
        has_base_shape(c, *cfg),
        c.args.deep_view() == base_args(*cfg) + thumbnail_tail(
            url@,
            out_template@,
            spec_find_ffmpeg(cfg.ffmpeg_bin, *probe),
        ),
{
    let mut c = build_ytdlp_base_command(cfg);
    let ghost base = c.args.deep_view();
    c.args.push("--skip-download".to_owned());
    c.args.push("--write-thumbnail".to_owned());
    c.args.push("-o".to_owned());
    c.args.push(out_template.to_owned());
    if let Option::Some(f) = find_ffmpeg(cfg, probe) {
        c.args.push("--ffmpeg-location".to_owned());
        c.args.push(f);
        c.args.push("--convert-thumbnails".to_owned());
        c.args.push("jpg".to_owned());
    }
    c.args.push(url.to_owned());
    proof {
        assert(c.args.deep_view() =~= base + thumbnail_tail(
            url@,
            out_template@,
            spec_find_ffmpeg(cfg.ffmpeg_bin, *probe),
        ));
    }
    c
}

/// Trailing arguments of a metadata fetch: dump the single video's metadata
/// as JSON on standard output.
pub open spec fn info_tail(url: Seq<char>) -> Seq<Seq<char>> {
    seq!["--no-playlist"@, "-J"@, url]
}

/// Build the metadata invocation.
pub fn info_command(cfg: &AppConfig, url: &str) -> (c: CommandSpec)
    ensures
        has_base_shape(c, *cfg),
        c.args.deep_view() == base_args(*cfg) + info_tail(url@),
{
    let mut c = build_ytdlp_base_command(cfg);
    let ghost base = c.args.deep_view();
    c.args.push("--no-playlist".to_owned());
    c.args.push("-J".to_owned());
    c.args.push(url.to_owned());
    proof {
        assert(c.args.deep_view() =~= base + info_tail(url@));
    }
    c
}

} // verus!
