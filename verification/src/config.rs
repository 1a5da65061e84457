//! Service configuration: raw optional values as read from the
//! configuration file, and their resolution into a validated configuration
//! with every default applied.

use vstd::prelude::*;

use crate::text::{eq_ignore_ascii_case, eq_ignore_ascii_case_spec, trim_ws, trimmed};

verus! {

/// Search path handed to the downloader when neither the configuration file
/// nor the service environment provides one.
pub open spec fn fallback_tool_path() -> Seq<char> {
    "/opt/homebrew/bin:/usr/local/bin:/usr/bin:/bin:/usr/sbin:/sbin"@
}

/// The configuration file's contents: every field optional, resolved into an
/// [`AppConfig`] by [`AppConfig::resolve`].
pub struct RawConfig {
    pub listen_addr: Option<String>,
    pub max_concurrent_downloads: Option<usize>,
    pub cookies_source: Option<String>,
    pub cookies_file: Option<String>,
    pub cookies_browser: Option<String>,
    pub cookies_refresh_max_age_secs: Option<u64>,
    pub ytdlp_bin: Option<String>,
    pub ytdlp_path: Option<String>,
    pub ffmpeg_bin: Option<String>,
    pub ytdlp_proxy: Option<String>,
    pub inherit_proxy_env: Option<bool>,
}

/// The validated service configuration.
#[derive(Debug, Clone)]
pub struct AppConfig {
    pub listen_addr: String,
    pub max_concurrent_downloads: usize,
    /// Canonically `browser` or `file`.
    pub cookies_source: String,
    pub cookies_file: String,
    pub cookies_browser: String,
    pub cookies_refresh_max_age_secs: u64,
    pub ytdlp_bin: String,
    pub ytdlp_path: String,
    pub ffmpeg_bin: Option<String>,
    /// Explicit downloader proxy; overrides ambient proxy variables.
    pub ytdlp_proxy: Option<String>,
    /// Opt-in: let the downloader inherit ambient proxy environment variables.
    pub inherit_proxy_env: bool,
}

#[derive(Clone, Copy, Debug, PartialEq, Eq, Structural)]
pub enum ConfigError {
    /// The cookie source is neither `browser` nor `file` (case-insensitively).
    InvalidCookiesSource,
}

/// The raw cookie source names the browser mode: absent, or equal to
/// `browser` up to ASCII case.
pub open spec fn names_browser_mode(source: Option<String>) -> bool {
    match source {
        Option::None => true,
        Option::Some(s) => eq_ignore_ascii_case_spec(s@, "browser"@),
    }
}

/// The raw cookie source names the file mode.
pub open spec fn names_file_mode(source: Option<String>) -> bool {
    match source {
        Option::None => false,
        Option::Some(s) => eq_ignore_ascii_case_spec(s@, "file"@),
    }
}

/// An optional raw value, trimmed, with a blank result treated as unset.
pub open spec fn normalized_optional(v: Option<String>) -> Option<Seq<char>> {
    match v {
        Option::None => Option::None,
        Option::Some(s) => if trimmed(s@).len() == 0 {
            Option::None
        } else {
            Option::Some(trimmed(s@))
        },
    }
}

/// Trim an optional configuration value; a blank value counts as unset.
fn normalize_optional(v: Option<String>) -> (r: Option<String>)
    ensures
        match r {
            Option::Some(s) => normalized_optional(v) == Option::Some(s@),
            Option::None => normalized_optional(v) is None,
        },
{
    match v {
        Option::None => Option::None,
        Option::Some(s) => {
            let t = trim_ws(s.as_str());
            if t.is_empty() {
                Option::None
            } else {
                Option::Some(t.to_owned())
            }
        },
    }
}

impl AppConfig {
    /// Resolve raw file contents into a configuration: apply every default,
    /// canonicalize the cookie source, and reject an unknown one. The
    /// service environment's search path, when one is set, stands in for an
    /// unset `ytdlp_path`.
    pub fn resolve(raw: RawConfig, env_path: Option<String>) -> (r: Result<AppConfig, ConfigError>)
        ensures
            r is Ok <==> names_browser_mode(raw.cookies_source) || names_file_mode(
                raw.cookies_source,
            ),
            r is Err ==> r == Result::<AppConfig, ConfigError>::Err(
                ConfigError::InvalidCookiesSource,
            ),
            r matches Ok(cfg) ==> {
                &&& cfg.listen_addr@ == (match raw.listen_addr {
                    Option::Some(s) => s@,
                    Option::None => "0.0.0.0:8080"@,
                })
                &&& cfg.max_concurrent_downloads == (match raw.max_concurrent_downloads {
                    Option::Some(n) => n,
                    Option::None => 5usize,
                })
                &&& cfg.cookies_source@ == (if names_browser_mode(raw.cookies_source) {
                    "browser"@
                } else {
                    "file"@
                })
                &&& cfg.cookies_file@ == (match raw.cookies_file {
                    Option::Some(s) => s@,
                    Option::None => "cookies.txt"@,
                })
                &&& cfg.cookies_browser@ == (match raw.cookies_browser {
                    Option::Some(s) => s@,
                    Option::None => "edge"@,
                })
                &&& cfg.cookies_refresh_max_age_secs == (match raw.cookies_refresh_max_age_secs {
                    Option::Some(n) => n,
                    Option::None => 1800u64,
                })
                &&& cfg.ytdlp_bin@ == (match raw.ytdlp_bin {
                    Option::Some(s) => s@,
                    Option::None => "yt-dlp"@,
                })
                &&& cfg.ytdlp_path@ == (match raw.ytdlp_path {
                    Option::Some(s) => s@,
                    Option::None => match env_path {
                        Option::Some(p) => p@,
                        Option::None => fallback_tool_path(),
                    },
                })
                &&& (match cfg.ffmpeg_bin {
                    Option::Some(s) => normalized_optional(raw.ffmpeg_bin) == Option::Some(s@),
                    Option::None => normalized_optional(raw.ffmpeg_bin) is None,
                })
                &&& (match cfg.ytdlp_proxy {
                    Option::Some(s) => normalized_optional(raw.ytdlp_proxy) == Option::Some(s@),
                    Option::None => normalized_optional(raw.ytdlp_proxy) is None,
                })
                &&& cfg.inherit_proxy_env == (match raw.inherit_proxy_env {
                    Option::Some(b) => b,
                    Option::None => false,
                })
            },
    {
        let browser_mode = match &raw.cookies_source {
            Option::None => true,
            Option::Some(s) => eq_ignore_ascii_case(s.as_str(), "browser"),
        };
        let file_mode = match &raw.cookies_source {
            Option::None => false,
            Option::Some(s) => eq_ignore_ascii_case(s.as_str(), "file"),
        };
        if !browser_mode && !file_mode {
            return Err(ConfigError::InvalidCookiesSource);
        }
        let cookies_source = if browser_mode {
            "browser".to_owned()
        } else {
            "file".to_owned()
        };
        let listen_addr = match raw.listen_addr {
            Option::Some(s) => s,
            Option::None => "0.0.0.0:8080".to_owned(),
        };
        let max_concurrent_downloads = match raw.max_concurrent_downloads {
            Option::Some(n) => n,
            Option::None => 5,
        };
        let cookies_file = match raw.cookies_file {
            Option::Some(s) => s,
            Option::None => "cookies.txt".to_owned(),
        };
        let cookies_browser = match raw.cookies_browser {
            Option::Some(s) => s,
            Option::None => "edge".to_owned(),
        };
        let cookies_refresh_max_age_secs = match raw.cookies_refresh_max_age_secs {
            Option::Some(n) => n,
            Option::None => 1800,
        };
        let ytdlp_bin = match raw.ytdlp_bin {
            Option::Some(s) => s,
            Option::None => "yt-dlp".to_owned(),
        };
        let ytdlp_path = match raw.ytdlp_path {
            Option::Some(s) => s,
            Option::None => match env_path {
                Option::Some(p) => p,
                Option::None => "/opt/homebrew/bin:/usr/local/bin:/usr/bin:/bin:/usr/sbin:/sbin".to_owned(),
            },
        };
        let ffmpeg_bin = normalize_optional(raw.ffmpeg_bin);
        let ytdlp_proxy = normalize_optional(raw.ytdlp_proxy);
        let inherit_proxy_env = match raw.inherit_proxy_env {
            Option::Some(b) => b,
            Option::None => false,
        };
        Ok(
            AppConfig {
                listen_addr,
                max_concurrent_downloads,
                cookies_source,
                cookies_file,
                cookies_browser,
                cookies_refresh_max_age_secs,
                ytdlp_bin,
                ytdlp_path,
                ffmpeg_bin,
                ytdlp_proxy,
                inherit_proxy_env,
            },
        )
    }
}

} // verus!
