//! Request validation and response-header helpers: the first and last steps
//! of each endpoint. The I/O between them is sequenced by the job lifecycle.

use vstd::prelude::*;
use vstd::string::StringExecFns;

use crate::errors::ServiceError;
use crate::text::{is_blank, is_blank_spec, str_eq};
use crate::util::{video_id_from_url, video_id_none, video_id_ok};

verus! {

/// Body of a download request.
pub struct StreamRequest {
    pub url: String,
    /// `progressive` (default): best single-file stream; `best`: best video
    /// and audio merged by the external muxer.
    pub mode: Option<String>,
}

/// Body of a thumbnail request.
pub struct ThumbnailRequest {
    pub url: String,
}

/// Body of a metadata request.
pub struct InfoRequest {
    pub url: String,
    /// When false (the default), the usually huge format lists are stripped
    /// from the response.
    pub include_formats: Option<bool>,
}

/// The mode a download request asked for, after defaulting.
pub open spec fn requested_mode(mode: Option<String>) -> Seq<char> {
    match mode {
        Option::Some(m) => m@,
        Option::None => "progressive"@,
    }
}

/// A mode is valid exactly when it is `progressive` or `best`.
pub open spec fn valid_mode(m: Seq<char>) -> bool {
    m == "progressive"@ || m == "best"@
}

/// Validate a download request: the URL must not be blank and the mode,
/// after defaulting to `progressive`, must be a known one. Returns the
/// effective mode.
pub fn validate_stream_request(req: &StreamRequest) -> (r: Result<String, ServiceError>)
    ensures
        is_blank_spec(req.url@) ==> r == Result::<String, ServiceError>::Err(
            ServiceError::MissingUrl,
        ),
        !is_blank_spec(req.url@) && !valid_mode(requested_mode(req.mode)) ==> r == Result::<
            String,
            ServiceError,
        >::Err(ServiceError::InvalidMode),
        !is_blank_spec(req.url@) && valid_mode(requested_mode(req.mode)) ==> (r matches Ok(m)
            && m@ == requested_mode(req.mode)),
{
    if is_blank(req.url.as_str()) {
        return Err(ServiceError::MissingUrl);
    }
    let mode = match &req.mode {
        Option::Some(m) => m.clone(),
        Option::None => "progressive".to_owned(),
    };
    if !str_eq(mode.as_str(), "progressive") && !str_eq(mode.as_str(), "best") {
        return Err(ServiceError::InvalidMode);
    }
    Ok(mode)
}

/// Validate a thumbnail request: the URL must not be blank.
pub fn validate_thumbnail_request(req: &ThumbnailRequest) -> (r: Result<(), ServiceError>)
    ensures
        r is Ok <==> !is_blank_spec(req.url@),
        r is Err ==> r == Result::<(), ServiceError>::Err(ServiceError::MissingUrl),
{
    if is_blank(req.url.as_str()) {
        Err(ServiceError::MissingUrl)
    } else {
        Ok(())
    }
}

/// Validate a metadata request: the URL must not be blank. Returns whether
/// format lists are to be kept in the response (default: no).
pub fn validate_info_request(req: &InfoRequest) -> (r: Result<bool, ServiceError>)
    ensures
        is_blank_spec(req.url@) ==> r == Result::<bool, ServiceError>::Err(
            ServiceError::MissingUrl,
        ),
        !is_blank_spec(req.url@) ==> r == Result::<bool, ServiceError>::Ok(
            match req.include_formats {
                Option::Some(b) => b,
                Option::None => false,
            },
        ),
{
    if is_blank(req.url.as_str()) {
        return Err(ServiceError::MissingUrl);
    }
    match req.include_formats {
        Option::Some(b) => Ok(b),
        Option::None => Ok(false),
    }
}

/// The filename stem of a response: the extracted video id, or the given
/// fallback when no id can be extracted.
pub fn filename_stem(url: &str, fallback: &str) -> (r: String)
    ensures
        video_id_none(url@) ==> r@ == fallback@,
        !video_id_none(url@) ==> video_id_ok(url@, r@),
{
    match video_id_from_url(url) {
        Option::Some(id) => id,
        Option::None => fallback.to_owned(),
    }
}

/// The `Content-Disposition` value under which a file called
/// `stem.ext` is attached.
pub fn attachment_header_value(stem: &str, ext: &str) -> (r: String)
    ensures
        r@ == "attachment; filename=\""@ + stem@ + "."@ + ext@ + "\""@,
{
    let mut r = "attachment; filename=\"".to_owned();
    r.append(stem);
    r.append(".");
    r.append(ext);
    r.append("\"");
    r
}

} // verus!
