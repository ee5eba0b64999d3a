//! The HTTP-facing service: routing of `GET /catches` and `GET /catch/{id}`,
//! and the reply for each repository outcome.
use vstd::prelude::*;
use vstd::string::*;
use crate::catch::{Catch, catch_json, catches_json, catch_to_json, catches_to_json};
use crate::repository::{InMemoryRepository, RepositoryError, lookup};
use crate::text::{parse_id, parse_id_text, same_text, contains_char};

verus! {

pub const STATUS_OK: u16 = 200;
pub const STATUS_BAD_REQUEST: u16 = 400;
pub const STATUS_NOT_FOUND: u16 = 404;
pub const STATUS_METHOD_NOT_ALLOWED: u16 = 405;
pub const STATUS_INTERNAL_ERROR: u16 = 500;
pub const STATUS_UNAVAILABLE: u16 = 503;

/// An HTTP reply: a status code and a JSON body.
#[derive(Debug, PartialEq, Eq)]
pub struct Response {
    pub status: u16,
    pub body: String,
}

impl View for Response {
    type V = (u16, Seq<char>);

    open spec fn view(&self) -> (u16, Seq<char>) {
        (self.status, self.body@)
    }
}

/// What a request asks for.
#[derive(Clone, Copy, Debug, PartialEq, Eq, Structural)]
pub enum Route {
    /// `GET /catches`
    ListCatches,
    /// `GET /catch/{id}` with a well-formed id
    CatchDetail(u64),
    /// `GET /catch/{id}` with an id that is not a non-negative 64-bit integer
    InvalidId,
    /// a known path with a method other than `GET`
    MethodNotAllowed,
    /// any other path
    NotFound,
}

pub open spec fn list_path() -> Seq<char> {
    "/catches"@
}

pub open spec fn detail_prefix() -> Seq<char> {
    "/catch/"@
}

/// Whether `path` is the detail prefix followed by one path segment.
pub open spec fn is_detail_path(path: Seq<char>) -> bool {
    &&& path.len() >= detail_prefix().len()
    &&& path.subrange(0, detail_prefix().len() as int) == detail_prefix()
    &&& !path.subrange(detail_prefix().len() as int, path.len() as int).contains('/')
}

pub open spec fn id_segment(path: Seq<char>) -> Seq<char> {
    path.subrange(detail_prefix().len() as int, path.len() as int)
}

/// The route of a request line.
pub open spec fn route_of(method: Seq<char>, path: Seq<char>) -> Route {
    if path == list_path() {
        if method == "GET"@ {
            Route::ListCatches
        } else {
            Route::MethodNotAllowed
        }
    } else if is_detail_path(path) {
        if method != "GET"@ {
            Route::MethodNotAllowed
        } else {
            match parse_id(id_segment(path)) {
                Some(id) => Route::CatchDetail(id),
                None => Route::InvalidId,
            }
        }
    } else {
        Route::NotFound
    }
}

pub open spec fn invalid_id_body() -> Seq<char> {
    "{\"error\":\"malformed id\",\"field\":\"id\"}"@
}

pub open spec fn catch_missing_body() -> Seq<char> {
    "{\"error\":\"catch not found\"}"@
}

pub open spec fn no_route_body() -> Seq<char> {
    "{\"error\":\"no such resource\"}"@
}

pub open spec fn method_body() -> Seq<char> {
    "{\"error\":\"method not allowed\"}"@
}

pub open spec fn unexpected_body() -> Seq<char> {
    "{\"error\":\"unexpected repository response\"}"@
}

pub open spec fn unavailable_body() -> Seq<char> {
    "{\"error\":\"repository unavailable\"}"@
}

/// The reply to a listing, given what the repository answered.
pub open spec fn listing_reply(outcome: Result<Seq<Catch>, RepositoryError>) -> (u16, Seq<char>) {
    match outcome {
        Ok(cs) => (STATUS_OK, catches_json(cs)),
        Err(_) => (STATUS_UNAVAILABLE, unavailable_body()),
    }
}

/// The reply to a detail request for `id`, given what the repository answered.
/// A record under another id is a broken repository, not a success.
pub open spec fn detail_reply(id: u64, outcome: Result<Option<Catch>, RepositoryError>) -> (u16, Seq<char>) {
    match outcome {
        Ok(Some(c)) => if c.id == id {
            (STATUS_OK, catch_json(c))
        } else {
            (STATUS_INTERNAL_ERROR, unexpected_body())
        },
        Ok(None) => (STATUS_NOT_FOUND, catch_missing_body()),
        Err(_) => (STATUS_UNAVAILABLE, unavailable_body()),
    }
}

/// The reply to a request that never reaches the repository.
pub open spec fn rejection_reply(route: Route) -> (u16, Seq<char>) {
    match route {
        Route::InvalidId => (STATUS_BAD_REQUEST, invalid_id_body()),
        Route::MethodNotAllowed => (STATUS_METHOD_NOT_ALLOWED, method_body()),
        _ => (STATUS_NOT_FOUND, no_route_body()),
    }
}

pub open spec fn needs_repository(route: Route) -> bool {
    route is ListCatches || route is CatchDetail
}

/// The reply to a request against a collection of catches.
pub open spec fn served(cs: Seq<Catch>, method: Seq<char>, path: Seq<char>) -> (u16, Seq<char>) {
    match route_of(method, path) {
        Route::ListCatches => listing_reply(Ok(cs)),
        Route::CatchDetail(id) => detail_reply(id, Ok(lookup(cs, id))),
        r => rejection_reply(r),
    }
}

/// Routes a request by its method and path (without query string).
pub fn route(method: &str, path: &str) -> (r: Route)
    ensures
        r == route_of(method@, path@),
{
    let is_get = same_text(method, "GET");
    if same_text(path, "/catches") {
        return if is_get {
            Route::ListCatches
        } else {
            Route::MethodNotAllowed
        };
    }
    let prefix = "/catch/";
    let plen = prefix.unicode_len();
    let n = path.unicode_len();
    if n < plen || !same_text(path.substring_char(0, plen), prefix) {
        return Route::NotFound;
    }
    let segment = path.substring_char(plen, n);
    if contains_char(segment, '/') {
        return Route::NotFound;
    }
    if !is_get {
        return Route::MethodNotAllowed;
    }
    match parse_id_text(segment) {
        Some(id) => Route::CatchDetail(id),
        None => Route::InvalidId,
    }
}

/// The reply to `GET /catches`: the listing in the repository's order, or
/// 503 with an error body (never a partial list) when the repository failed.
pub fn get_catches(outcome: Result<Vec<Catch>, RepositoryError>) -> (r: Response)
    ensures
        r@ == listing_reply(
            match outcome {
                Ok(v) => Ok(v@),
                Err(e) => Err(e),
            },
        ),
{
    match outcome {
        Ok(v) => Response { status: STATUS_OK, body: catches_to_json(&v) },
        Err(_) => Response {
            status: STATUS_UNAVAILABLE,
            body: String::from_str("{\"error\":\"repository unavailable\"}"),
        },
    }
}

/// The reply to `GET /catch/{id}`: the record, 404 when there is none, 503
/// when the repository failed, 500 when it answered with another record.
pub fn get_catch_details(id: u64, outcome: Result<Option<Catch>, RepositoryError>) -> (r: Response)
    ensures
        r@ == detail_reply(id, outcome),
{
    match outcome {
        Ok(Some(c)) => if c.id == id {
            Response { status: STATUS_OK, body: catch_to_json(&c) }
        } else {
            Response {
                status: STATUS_INTERNAL_ERROR,
                body: String::from_str("{\"error\":\"unexpected repository response\"}"),
            }
        },
        Ok(None) => Response {
            status: STATUS_NOT_FOUND,
            body: String::from_str("{\"error\":\"catch not found\"}"),
        },
        Err(_) => Response {
            status: STATUS_UNAVAILABLE,
            body: String::from_str("{\"error\":\"repository unavailable\"}"),
        },
    }
}

/// The reply to a request that needs no repository call.
pub fn reject(route: Route) -> (r: Response)
    requires
        !needs_repository(route),
    ensures
        r@ == rejection_reply(route),
{
    match route {
        Route::InvalidId => Response {
            status: STATUS_BAD_REQUEST,
            body: String::from_str("{\"error\":\"malformed id\",\"field\":\"id\"}"),
        },
        Route::MethodNotAllowed => Response {
            status: STATUS_METHOD_NOT_ALLOWED,
            body: String::from_str("{\"error\":\"method not allowed\"}"),
        },
        _ => Response {
            status: STATUS_NOT_FOUND,
            body: String::from_str("{\"error\":\"no such resource\"}"),
        },
    }
}

/// Answers a request from an in-memory repository.
pub fn serve(repo: &InMemoryRepository, method: &str, path: &str) -> (r: Response)
    requires
        repo.well_formed(),
    ensures
        r@ == served(repo@, method@, path@),
{
    match route(method, path) {
        Route::ListCatches => get_catches(Ok(repo.list())),
        Route::CatchDetail(id) => get_catch_details(id, Ok(repo.get_by_id(id))),
        other => reject(other),
    }
}

} // verus!
