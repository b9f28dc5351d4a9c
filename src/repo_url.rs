//! Repository addresses: validation, the address handed to the fetch tool,
//! and the title shown in the video.

use vstd::prelude::*;
use crate::error::GourceError;

verus! {

/// What `Url::parse` makes of `s`: its host, its path segments (`None` for
/// an address that cannot be a base) and its serialization; `None` where
/// parsing fails.
pub uninterp spec fn url_parse(s: Seq<char>) -> Option<
    (Option<Seq<char>>, Option<Seq<Seq<char>>>, Seq<char>),
>;

/// The serialization of `s` parsed as a URL with `user` and `password` set
/// as its credentials; `None` where parsing or setting them fails.
pub uninterp spec fn url_with_login(s: Seq<char>, user: Seq<char>, password: Seq<char>) -> Option<
    Seq<char>,
>;

/// The parts of a parsed address that the service reads.
pub struct UrlParts {
    pub host: Option<String>,
    pub path_segments: Option<Vec<String>>,
    pub serialization: String,
}

impl UrlParts {
    pub open spec fn parts(&self) -> (Option<Seq<char>>, Option<Seq<Seq<char>>>, Seq<char>) {
        (self.host.deep_view(), self.path_segments.deep_view(), self.serialization@)
    }
}

#[verifier::external_type_specification]
#[verifier::external_body]
pub struct ExUrlParseError(url::ParseError);

/// Relies on `url::Url::parse`, read through `host_str`, `path_segments`
/// and `as_str`.
#[verifier::external_body]
fn parse_url(s: &str) -> (r: Result<UrlParts, url::ParseError>)
    ensures
        r is Ok <==> url_parse(s@) is Some,
        r is Ok ==> r->Ok_0.parts() == url_parse(s@)->Some_0,
{
    let url = url::Url::parse(s)?;
    Ok(UrlParts {
        host: url.host_str().map(|h| h.to_string()),
        path_segments: url.path_segments().map(|c| c.map(|p| p.to_string()).collect()),
        serialization: url.as_str().to_string(),
    })
}

/// Relies on `url::Url::parse`, `Url::set_username`, `Url::set_password`
/// and `Url::as_str`.
#[verifier::external_body]
fn login_url(s: &str, user: &str, password: &str) -> (r: Option<String>)
    ensures
        r is Some <==> url_with_login(s@, user@, password@) is Some,
        r is Some ==> r->Some_0@ == url_with_login(s@, user@, password@)->Some_0,
{
    let mut url = url::Url::parse(s).ok()?;
    url.set_username(user).ok()?;
    url.set_password(Some(password)).ok()?;
    Some(url.as_str().to_string())
}

/// The only hosting service whose repositories are accepted.
pub open spec fn expected_host() -> Seq<char> {
    "github.com"@
}

/// User name that goes with an access token in the fetch address.
pub open spec fn token_user() -> Seq<char> {
    "oauth2"@
}

/// Suffix of every video title.
pub open spec fn title_suffix() -> Seq<char> {
    " ⋅ gitmotion.app"@
}

/// Title for an address without two path segments.
pub open spec fn generic_title() -> Seq<char> {
    "Repository Visualization ⋅ gitmotion.app"@
}

/// Whether `s` may be processed: it must parse, and its host must be the
/// expected one.
pub open spec fn repo_url_check(s: Seq<char>) -> Result<(), GourceError> {
    match url_parse(s) {
        None => Err(GourceError::InvalidUrl),
        Some(p) => if p.0 == Some(expected_host()) {
            Ok(())
        } else {
            Err(GourceError::UnsupportedRepository)
        },
    }
}

/// The address the fetch tool is given: the parsed address, with the
/// token as password when there is one.
pub open spec fn fetch_address(s: Seq<char>, token: Option<Seq<char>>) -> Option<Seq<char>> {
    match token {
        None => match url_parse(s) {
            Some(p) => Some(p.2),
            None => None,
        },
        Some(t) => url_with_login(s, token_user(), t),
    }
}

/// The video title for address `s`: its last two path segments joined by
/// `/`, then the suffix; the generic title where there are not two.
pub open spec fn repo_title(s: Seq<char>) -> Seq<char> {
    match url_parse(s) {
        Some(p) => match p.1 {
            Some(segs) => if segs.len() >= 2 {
                segs[segs.len() - 2] + "/"@ + segs[segs.len() - 1] + title_suffix()
            } else {
                generic_title()
            },
            None => generic_title(),
        },
        None => generic_title(),
    }
}

/// Checks that `repo_url` is a well-formed address on the expected host.
pub fn validate_repo_url(repo_url: &str) -> (r: Result<(), GourceError>)
    ensures
        r == repo_url_check(repo_url@),
{
    match parse_url(repo_url) {
        Err(_) => Err(GourceError::InvalidUrl),
        Ok(parts) => {
            let expected = String::from_str("github.com");
            proof { reveal_strlit("github.com"); }
            match parts.host {
                Some(h) => if h == expected {
                    Ok(())
                } else {
                    Err(GourceError::UnsupportedRepository)
                },
                None => Err(GourceError::UnsupportedRepository),
            }
        },
    }
}

/// The address to fetch `repo_url` from, carrying `token` when given.
pub fn clone_url(repo_url: &str, token: Option<&str>) -> (r: Result<String, GourceError>)
    ensures
        match fetch_address(repo_url@, token.deep_view()) {
            Some(a) => r is Ok && r->Ok_0@ == a,
            None => r == Err::<String, GourceError>(GourceError::InvalidUrl),
        },
{
    match token {
        None => match parse_url(repo_url) {
            Ok(parts) => Ok(parts.serialization),
            Err(_) => Err(GourceError::InvalidUrl),
        },
        Some(t) => match login_url(repo_url, "oauth2", t) {
            Some(a) => Ok(a),
            None => Err(GourceError::InvalidUrl),
        },
    }
}

/// The title shown in the video for `repo_url`.
pub fn generate_repo_title(repo_url: &str) -> (r: String)
    ensures
        r@ == repo_title(repo_url@),
{
    let generic = String::from_str("Repository Visualization ⋅ gitmotion.app");
    match parse_url(repo_url) {
        Err(_) => generic,
        Ok(parts) => match parts.path_segments {
            None => generic,
            Some(segs) => {
                let n = segs.len();
                if n < 2 {
                    generic
                } else {
                    let owner = segs[n - 2].clone();
                    let title = owner.concat("/").concat(segs[n - 1].as_str()).concat(
                        " ⋅ gitmotion.app",
                    );
                    title
                }
            },
        },
    }
}

} // verus!
