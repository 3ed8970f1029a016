use vstd::prelude::*;
use vstd::string::*;
use crate::errors::GripError;
use crate::package::Release;
use crate::text::u32_dec;
use crate::text::dec_spec;

verus! {

/// Whether an HTTP status code reports success.
pub open spec fn status_success(status: u16) -> bool {
    200 <= status < 300
}

/// The releases endpoint queried for a repository, in `owner/repo` form.
pub fn releases_url(repo: &str) -> (url: String)
    ensures
        url@ == "https://api.github.com/repos/"@ + repo@ + "/releases"@,
{
    "https://api.github.com/repos/".to_owned().concat(repo).concat("/releases")
}

/// The fixed client identifier sent with every release-service request.
pub fn user_agent() -> (ua: &'static str)
    ensures
        ua@ == "grip"@,
{
    "grip"
}

/// What the caller observed of one release-list request: a transport-level
/// failure, a non-success response with its body text, a decoded body, or
/// a success whose body would not decode.
pub enum ReleaseResponse {
    Transport(String),
    Http { status: u16, body: String },
    Parsed(Vec<Release>),
    Unparsable(String),
}

/// Normalizes one release-list response. Transport failures become
/// `RequestError`; a 404 and every other non-success status become
/// `RegistryError`, a 404 naming the missing repository and the rest
/// carrying the numeric status with the body text verbatim; a decoded
/// body is returned as the release list, an empty list being valid; a
/// success body that would not decode is a `RegistryError` as well.
pub fn classify_releases(repo: &str, resp: ReleaseResponse) -> (r: Result<Vec<Release>, GripError>)
    requires
        resp matches ReleaseResponse::Http { status, .. } ==> !status_success(status),
    ensures
        match resp {
            ReleaseResponse::Transport(m) => r matches Err(e) && (
            e matches GripError::RequestError(t) && t@ == m@),
            ReleaseResponse::Http { status, body } => r matches Err(e) && (
            e matches GripError::RegistryError(t) && if status == 404 {
                t@ == "Repository '"@ + repo@ + "' not found on GitHub"@
            } else {
                t@ == "GitHub API error ("@ + dec_spec(status as nat) + "): "@ + body@
            }),
            ReleaseResponse::Parsed(rels) => r matches Ok(out) && out@ == rels@,
            ReleaseResponse::Unparsable(m) => r matches Err(e) && (
            e matches GripError::RegistryError(t) && t@ == "Failed to parse GitHub releases: "@
                + m@),
        },
{
    match resp {
        ReleaseResponse::Transport(m) => Err(GripError::RequestError(m)),
        ReleaseResponse::Http { status, body } => {
            if status == 404 {
                let msg = "Repository '".to_owned().concat(repo).concat("' not found on GitHub");
                Err(GripError::RegistryError(msg))
            } else {
                let code = u32_dec(status as u32);
                let msg = "GitHub API error (".to_owned().concat(code.as_str()).concat(
                    "): ",
                ).concat(body.as_str());
                Err(GripError::RegistryError(msg))
            }
        },
        ReleaseResponse::Parsed(rels) => Ok(rels),
        ReleaseResponse::Unparsable(m) => {
            let msg = "Failed to parse GitHub releases: ".to_owned().concat(m.as_str());
            Err(GripError::RegistryError(msg))
        },
    }
}

} // verus!
