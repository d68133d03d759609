//! The two routes: the index, which answers liveness checks, and the badge,
//! which records a view and draws its identifier.

use vstd::prelude::*;

use crate::badge::{badge_markup, badge_text};
use crate::store::{Record, RequestInfo, StoreError};

verus! {

/// The path of the index.
pub const INDEX_PATH: &'static str = "/";

/// The path of the badge.
pub const BADGE_PATH: &'static str = "/profile.svg";

/// The user agent that is recorded for a request without a `User-Agent`
/// header.
pub const MISSING_USER_AGENT: &'static str = "-";

/// A response: the status code, the headers in the order in which they are
/// set, and the body.
#[derive(Debug, PartialEq, Eq)]
pub struct Response {
    pub status: u16,
    pub headers: Vec<(String, String)>,
    pub body: String,
}

/// What a `Response` stands for.
pub struct Reply {
    pub status: int,
    pub headers: Seq<(Seq<char>, Seq<char>)>,
    pub body: Seq<char>,
}

impl View for Response {
    type V = Reply;

    open spec fn view(&self) -> Reply {
        Reply {
            status: self.status as int,
            headers: self.headers.deep_view(),
            body: self.body@,
        }
    }
}

/// The answer of the index: 200, plain text, `OK`.
pub open spec fn index_reply() -> Reply {
    Reply { status: 200, headers: seq![("Content-Type"@, "text/plain"@)], body: "OK"@ }
}

/// The answer that carries the badge for the view with the identifier `id`:
/// 200, an SVG image that no cache may keep, so that each display of the badge
/// is a new request.
pub open spec fn badge_reply(id: int) -> Reply {
    Reply {
        status: 200,
        headers: seq![
            ("Cache-Control"@, "max-age=0, no-cache, no-store, must-revalidate"@),
            ("Content-Type"@, "image/svg+xml"@),
        ],
        body: badge_markup(id),
    }
}

/// The answer after a failure of the store: 500, with the description of the
/// failure as the body.
pub open spec fn failure_reply(description: Seq<char>) -> Reply {
    Reply { status: 500, headers: Seq::empty(), body: description }
}

/// The answer of the badge route, given how recording the view went.
pub open spec fn profile_reply(stored: Result<Record, Seq<char>>) -> Reply {
    match stored {
        Ok(record) => badge_reply(record.id),
        Err(description) => failure_reply(description),
    }
}

/// What is recorded for a request from `remote` with the given `User-Agent`
/// header: the header's value, or `-` if there is none. The identifier and the
/// timestamps are left to the store.
pub open spec fn requested(remote: Seq<char>, user_agent: Option<Seq<char>>) -> Record {
    Record {
        id: 0,
        ip_address: remote,
        user_agent: match user_agent {
            Some(value) => value,
            None => MISSING_USER_AGENT@,
        },
        created_at: None,
        updated_at: None,
    }
}

/// The views of a stored result's two sides.
pub open spec fn stored_view(stored: Result<RequestInfo, StoreError>) -> Result<
    Record,
    Seq<char>,
> {
    match stored {
        Ok(record) => Ok(record@),
        Err(error) => Err(error@),
    }
}

/// A header with the given name and value.
fn header(name: &str, value: &str) -> (pair: (String, String))
    ensures
        pair.deep_view() == (name@, value@),
{
    (String::from_str(name), String::from_str(value))
}

/// Answers `GET /`. Nothing is read and nothing is recorded.
pub fn index() -> (response: Response)
    ensures
        response@ == index_reply(),
{
    let mut headers: Vec<(String, String)> = Vec::new();
    headers.push(header("Content-Type", "text/plain"));
    let response = Response { status: 200, headers, body: String::from_str("OK") };
    assert(response.headers.deep_view() =~= index_reply().headers);
    response
}

/// The request to record for `GET /profile.svg`, from the address of the
/// client and the `User-Agent` header, if the request has one.
pub fn view_request(remote: &str, user_agent: Option<&str>) -> (request: RequestInfo)
    ensures
        request@ == requested(
            remote@,
            match user_agent {
                Some(value) => Some(value@),
                None => None,
            },
        ),
{
    let user_agent = match user_agent {
        Some(value) => value,
        None => MISSING_USER_AGENT,
    };
    RequestInfo {
        id: 0,
        ip_address: String::from_str(remote),
        user_agent: String::from_str(user_agent),
        created_at: None,
        updated_at: None,
    }
}

/// Answers `GET /profile.svg` once the view is recorded or has failed to be:
/// the badge with the identifier of the new record, or the failure.
pub fn profile(stored: Result<RequestInfo, StoreError>) -> (response: Response)
    ensures
        response@ == profile_reply(stored_view(stored)),
{
    match stored {
        Ok(info) => {
            let mut headers: Vec<(String, String)> = Vec::new();
            headers.push(header("Cache-Control", "max-age=0, no-cache, no-store, must-revalidate"));
            headers.push(header("Content-Type", "image/svg+xml"));
            let body = badge_text(info.id);
            let response = Response { status: 200, headers, body };
            assert(response.headers.deep_view() =~= badge_reply(info.id as int).headers);
            response
        },
        Err(err) => {
            let response = Response { status: 500, headers: Vec::new(), body: err.to_string() };
            assert(response.headers.deep_view() =~= failure_reply(err@).headers);
            response
        },
    }
}

} // verus!
