//! The download endpoint's decisions: which file a token gives access to,
//! under which name the browser is to save it, and which reply a refused
//! request gets. The bytes themselves are served by the caller.

use crate::clock::{current_time, Timestamp};
use crate::paths::{contains, is_within, occurs_in, within_root};
use crate::token::{
    minted_token, opened, redeem_at, redeemed, DownloadLinkStructure, LinkView, TokenError,
};
use vstd::prelude::*;
use vstd::string::StringExecFns;
use vstd::utf8::encode_utf8;

verus! {

/// The status of a reply to a token that is no token.
pub const BAD_REQUEST: u16 = 400;

/// The status of a reply to a token that has expired.
pub const UNAUTHORIZED: u16 = 401;

/// The status of a reply to a link that leads out of the download root.
pub const NOT_FOUND: u16 = 404;

/// The status of a reply to a request that failed while it was served.
pub const INTERNAL_SERVER_ERROR: u16 = 500;

/// A refusal: the status code and the plain-text body of the reply.
#[derive(Debug)]
pub struct HttpError {
    pub status: u16,
    pub body: String,
}

/// The mathematical content of an [`HttpError`].
pub ghost struct HttpErrorView {
    pub status: u16,
    pub body: Seq<char>,
}

impl View for HttpError {
    type V = HttpErrorView;

    open spec fn view(&self) -> HttpErrorView {
        HttpErrorView { status: self.status, body: self.body@ }
    }
}

/// What to serve for a request that was granted.
#[derive(Debug)]
pub struct ServePlan {
    /// The file whose bytes are the reply.
    pub path: String,
    /// The value of the `content-disposition` header, where the file has a
    /// name to save it under.
    pub content_disposition: Option<String>,
}

/// The mathematical content of a [`ServePlan`].
pub ghost struct ServePlanView {
    pub path: Seq<char>,
    pub content_disposition: Option<Seq<char>>,
}

impl View for ServePlan {
    type V = ServePlanView;

    open spec fn view(&self) -> ServePlanView {
        ServePlanView {
            path: self.path@,
            content_disposition: match self.content_disposition {
                Some(header) => Some(header@),
                None => None,
            },
        }
    }
}

/// The last step of a path as `std::path::Path::file_name` gives it, by
/// the path rules of the platform the server is built for; `None` where
/// the path ends in `..` or has no step at all.
pub uninterp spec fn base_name(path: Seq<char>) -> Option<Seq<char>>;

/// The header value that makes a browser save a file under `name`.
pub open spec fn disposition(name: Seq<char>) -> Seq<char> {
    "filename=\""@ + name + "\""@
}

/// The reply to a token that is refused: a fixed text for each ground,
/// the same whatever the token held.
pub open spec fn refusal(error: TokenError) -> HttpErrorView {
    match error {
        TokenError::Malformed => HttpErrorView {
            status: BAD_REQUEST,
            body: "invalid download link"@,
        },
        TokenError::Expired => HttpErrorView {
            status: UNAUTHORIZED,
            body: "Expired download link"@,
        },
    }
}

/// The reply to a link that leads out of the download root: a fixed text,
/// the same whatever the link says.
pub open spec fn out_of_root() -> HttpErrorView {
    HttpErrorView { status: NOT_FOUND, body: "file not found"@ }
}

/// What is done for a link that was redeemed: its file is served where it
/// lies within `root`, and refused otherwise.
pub open spec fn planned(root: Seq<char>, link: LinkView) -> Result<
    ServePlanView,
    HttpErrorView,
> {
    if is_within(encode_utf8(root), encode_utf8(link.file)) {
        Ok(
            ServePlanView {
                path: link.file,
                content_disposition: match base_name(link.file) {
                    Some(name) => Some(disposition(name)),
                    None => None,
                },
            },
        )
    } else {
        Err(out_of_root())
    }
}

/// What is done for a request that presents `token` at `now`.
pub open spec fn served(
    secret: Seq<char>,
    root: Seq<char>,
    token: Seq<char>,
    now: Timestamp,
) -> Result<ServePlanView, HttpErrorView> {
    match redeemed(secret, token, now) {
        Ok(link) => planned(root, link),
        Err(error) => Err(refusal(error)),
    }
}

/// Whether `r` is `expected`, each side taken by its content.
pub open spec fn plan_is(r: Result<ServePlan, HttpError>, expected: Result<
    ServePlanView,
    HttpErrorView,
>) -> bool {
    match r {
        Ok(plan) => expected == Ok::<ServePlanView, HttpErrorView>(plan@),
        Err(error) => expected == Err::<ServePlanView, HttpErrorView>(error@),
    }
}

/// The body of the reply to a request that failed while it was served,
/// given the failure's own words and the file that was being served.
///
/// The words are passed on after a fixed opening. Where that text would
/// hold the file's path, the opening alone is the body; where even the
/// opening holds it, the body is empty.
pub open spec fn failure_body(diagnostic: Seq<char>, path: Seq<char>) -> Seq<char> {
    let full = "Something went wrong: "@ + diagnostic;
    let plain = "Something went wrong"@;
    if encode_utf8(path).len() == 0 || !occurs_in(encode_utf8(path), encode_utf8(full)) {
        full
    } else if !occurs_in(encode_utf8(path), encode_utf8(plain)) {
        plain
    } else {
        Seq::empty()
    }
}

/// Takes the last step of a path with `std::path::Path::file_name`. The
/// result is named, not described.
#[verifier::external_body]
fn file_name_of(path: &str) -> (r: Option<String>)
    ensures
        match r {
            Some(name) => base_name(path@) == Some(name@),
            None => base_name(path@) is None,
        },
{
    match std::path::Path::new(path).file_name() {
        Some(name) => Some(name.to_string_lossy().into_owned()),
        None => None,
    }
}

impl HttpError {
    /// The reply to a token that is refused: `400` for one that is no
    /// token, `401` for one that has expired.
    pub fn from_token_error(error: TokenError) -> (reply: HttpError)
        ensures
            reply@ == refusal(error),
    {
        match error {
            TokenError::Malformed => HttpError {
                status: BAD_REQUEST,
                body: "invalid download link".to_owned(),
            },
            TokenError::Expired => HttpError {
                status: UNAUTHORIZED,
                body: "Expired download link".to_owned(),
            },
        }
    }

    /// The reply to a link that leads out of the download root.
    pub fn not_found() -> (reply: HttpError)
        ensures
            reply@ == out_of_root(),
    {
        HttpError { status: NOT_FOUND, body: "file not found".to_owned() }
    }

    /// The reply to a request that failed while `path` was being served:
    /// `500`, with the failure's own words where they do not give the path
    /// away.
    pub fn io_failure(diagnostic: &str, path: &str) -> (reply: HttpError)
        ensures
            reply@.status == INTERNAL_SERVER_ERROR,
            reply@.body == failure_body(diagnostic@, path@),
            encode_utf8(path@).len() > 0 ==> !occurs_in(
                encode_utf8(path@),
                encode_utf8(reply@.body),
            ),
    {
        let mut full = "Something went wrong: ".to_owned();
        full.append(diagnostic);
        let plain = "Something went wrong";
        let needle = path.as_bytes();
        let body = if needle.len() == 0 || !contains(full.as_str().as_bytes(), needle) {
            full
        } else if !contains(plain.as_bytes(), needle) {
            plain.to_owned()
        } else {
            String::new()
        };
        HttpError { status: INTERNAL_SERVER_ERROR, body }
    }
}

/// Plans the reply for a link that was redeemed: its file where that lies
/// within `root`, with the header that names it, or the refusal.
pub fn plan_for(root: &str, link: DownloadLinkStructure) -> (r: Result<ServePlan, HttpError>)
    ensures
        plan_is(r, planned(root@, link@)),
{
    if !within_root(root.as_bytes(), link.file.as_str().as_bytes()) {
        return Err(HttpError::not_found());
    }
    let content_disposition = match file_name_of(link.file.as_str()) {
        Some(name) => {
            let mut header = "filename=\"".to_owned();
            header.append(name.as_str());
            header.append("\"");
            Some(header)
        },
        None => None,
    };
    Ok(ServePlan { path: link.file, content_disposition })
}

/// Decides the reply to a request that presents `token` at `now`.
///
/// A token that is no token is answered with `400`, an expired one with
/// `401`, one whose file lies outside `root` with `404`. Otherwise the
/// file is to be served, under its own name.
///
/// A token minted under the same secret opens to the link it was minted
/// for, so it is refused only where that link has expired or its file lies
/// outside `root`.
pub fn serve_file_at(secret: &str, root: &str, token: &str, now: Timestamp) -> (r: Result<
    ServePlan,
    HttpError,
>)
    ensures
        plan_is(r, served(secret@, root@, token@, now)),
        forall|link: LinkView| #[trigger]
            minted_token(secret@, link) == Some(token@) ==> opened(secret@, token@) == Some(
                link,
            ),
{
    match redeem_at(secret, token, now) {
        Ok(link) => plan_for(root, link),
        Err(error) => Err(HttpError::from_token_error(error)),
    }
}

/// Decides the reply to a request that presents `token` now. The clock is
/// read once; [`serve_file_at`] says what is decided for each reading.
///
/// Whatever the clock says: a token that does not open gets `400`, and one
/// that opens is refused only as expired, if it has an expiry, or for a
/// file outside `root`.
pub fn serve_file(secret: &str, root: &str, token: &str) -> (r: Result<ServePlan, HttpError>)
    ensures
        exists|now: Timestamp|
            now.is_clock_reading() && #[trigger] plan_is(
                r,
                served(secret@, root@, token@, now),
            ),
        match opened(secret@, token@) {
            None => plan_is(r, Err(refusal(TokenError::Malformed))),
            Some(link) => plan_is(r, planned(root@, link)) || (link.expiry is Some && plan_is(
                r,
                Err(refusal(TokenError::Expired)),
            )),
        },
        forall|link: LinkView| #[trigger]
            minted_token(secret@, link) == Some(token@) ==> opened(secret@, token@) == Some(
                link,
            ),
{
    let now = current_time();
    serve_file_at(secret, root, token, now)
}

} // verus!
