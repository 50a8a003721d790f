use vstd::prelude::*;

verus! {

/// One rendition of a media item: its quality label and where to fetch it.
#[derive(Debug)]
pub struct DownloadLink {
    pub quality: String,
    pub url: String,
}

/// The envelope of every successful answer of the service.
#[derive(Debug)]
pub struct ApiResponse<T> {
    pub success: bool,
    pub data: T,
}

/// A link as a pair of plain strings: (quality, url).
pub open spec fn link_view(l: DownloadLink) -> (Seq<char>, Seq<char>) {
    (l.quality@, l.url@)
}

/// A list of links as plain (quality, url) pairs.
pub open spec fn links_view(v: Seq<DownloadLink>) -> Seq<(Seq<char>, Seq<char>)> {
    v.map_values(|l: DownloadLink| link_view(l))
}

/// Why a request to the service fails: the HTTP status it is answered with.
#[derive(Debug, Clone, Copy, PartialEq, Eq, Structural)]
pub enum ApiError {
    /// 400: the request's parameters are missing or malformed.
    BadRequest,
    /// 404: the catalogue has no such item.
    NotFound,
    /// 500: the catalogue could not be reached or answered unexpectedly.
    InternalServerError,
}

impl ApiError {
    /// The HTTP status code of the error.
    pub fn status_code(&self) -> (r: u16)
        ensures
            r == match *self {
                ApiError::BadRequest => 400u16,
                ApiError::NotFound => 404u16,
                ApiError::InternalServerError => 500u16,
            },
    {
        match self {
            ApiError::BadRequest => 400,
            ApiError::NotFound => 404,
            ApiError::InternalServerError => 500,
        }
    }
}

/// How a request names the item it wants: by its address or by its id.
#[derive(Debug)]
pub enum Lookup {
    Link(String),
    Id(String),
}

/// A call to the catalogue: the call's name, its own parameters, and the client
/// context it is made in (the default context when absent).
#[derive(Debug)]
pub struct FetchRequest {
    pub call: String,
    pub params: Vec<(String, String)>,
    pub context: Option<String>,
}

/// Parameters as plain (name, value) pairs.
pub open spec fn pairs_view(v: Seq<(String, String)>) -> Seq<(Seq<char>, Seq<char>)> {
    v.map_values(|p: (String, String)| (p.0@, p.1@))
}

/// The context of a request as plain text.
pub open spec fn context_view(c: Option<String>) -> Option<Seq<char>> {
    match c {
        Some(s) => Some(s@),
        None => None,
    }
}

/// `r` calls `call` with `params` in `context`.
pub open spec fn request_is(
    r: FetchRequest,
    call: Seq<char>,
    params: Seq<(Seq<char>, Seq<char>)>,
    context: Option<Seq<char>>,
) -> bool {
    &&& r.call@ == call
    &&& pairs_view(r.params@) == params
    &&& context_view(r.context) == context
}

/// A (name, value) parameter.
pub fn param(name: &str, value: String) -> (r: (String, String))
    ensures
        r.0@ == name@,
        r.1@ == value@,
{
    (String::from_str(name), value)
}

/// The call for a catalogue item named by the `token` of its address.
pub fn token_request(token: String, kind: &str, extra: Vec<(String, String)>) -> (r: FetchRequest)
    ensures
        request_is(
            r,
            "webapi.get"@,
            seq![("token"@, token@), ("type"@, kind@)] + pairs_view(extra@),
            None,
        ),
{
    let ghost t = token@;
    let mut params: Vec<(String, String)> = Vec::new();
    params.push(param("token", token));
    params.push(param("type", String::from_str(kind)));
    let ghost head = params@;
    assert(pairs_view(head) =~= seq![("token"@, t), ("type"@, kind@)]);
    let mut extra = extra;
    let ghost tail = extra@;
    params.append(&mut extra);
    let r = FetchRequest { call: String::from_str("webapi.get"), params, context: None };
    assert(pairs_view(r.params@) =~= pairs_view(head)
        + pairs_view(tail));
    r
}

/// How a request names its item: by address when it gives one, else by id; a request
/// that gives neither is a bad request.
pub fn choose_lookup(id: Option<String>, link: Option<String>) -> (r: Result<Lookup, ApiError>)
    ensures
        match (link, id) {
            (Some(l), _) => r == Ok::<Lookup, ApiError>(Lookup::Link(l)),
            (None, Some(i)) => r == Ok::<Lookup, ApiError>(Lookup::Id(i)),
            (None, None) => r == Err::<Lookup, ApiError>(ApiError::BadRequest),
        },
{
    match link {
        Some(l) => Ok(Lookup::Link(l)),
        None => match id {
            Some(i) => Ok(Lookup::Id(i)),
            None => Err(ApiError::BadRequest),
        },
    }
}

/// The message that answers a failed item lookup: the link was malformed, the item is
/// not found (`not_found`), or the service failed.
pub fn lookup_error_message(e: ApiError, not_found: &'static str) -> (r: &'static str)
    ensures
        r@ == match e {
            ApiError::BadRequest => "Invalid link formatting"@,
            ApiError::NotFound => not_found@,
            ApiError::InternalServerError => "Internal server error"@,
        },
{
    match e {
        ApiError::BadRequest => "Invalid link formatting",
        ApiError::NotFound => not_found,
        ApiError::InternalServerError => "Internal server error",
    }
}

/// The HTTP status code of `e`.
pub open spec fn status_of(e: ApiError) -> u16 {
    match e {
        ApiError::BadRequest => 400u16,
        ApiError::NotFound => 404u16,
        ApiError::InternalServerError => 500u16,
    }
}

/// The message of a failed lookup of an item: the link was malformed, the item is not
/// found (`not_found`), or the service failed.
pub open spec fn lookup_message(e: ApiError, not_found: Seq<char>) -> Seq<char> {
    match e {
        ApiError::BadRequest => "Invalid link formatting"@,
        ApiError::NotFound => not_found,
        ApiError::InternalServerError => "Internal server error"@,
    }
}

/// How the service answers a failed request: the HTTP status and the message it carries
/// (as `{"success": false, "message": <message>}`).
#[derive(Debug, Clone, Copy)]
pub struct Failure {
    pub status: u16,
    pub message: &'static str,
}

/// `f` answers with `status` and `message`.
pub open spec fn failure_is(f: Failure, status: u16, message: Seq<char>) -> bool {
    f.status == status && f.message@ == message
}

/// The answer to a failure `e` that carries the message `message`.
pub fn failure_with(e: ApiError, message: &'static str) -> (r: Failure)
    ensures
        failure_is(r, status_of(e), message@),
{
    Failure { status: e.status_code(), message }
}

/// The answer to a failed lookup `e` of an item whose not-found message is `not_found`.
pub fn lookup_failure(e: ApiError, not_found: &'static str) -> (r: Failure)
    ensures
        failure_is(r, status_of(e), lookup_message(e, not_found@)),
{
    failure_with(e, lookup_error_message(e, not_found))
}

/// The 400 answer to a request that names its item neither by id nor by address.
pub fn missing_parameters(message: &'static str) -> (r: Failure)
    ensures
        failure_is(r, 400u16, message@),
{
    Failure { status: 400, message }
}

/// A page number as given, 0 when absent.
pub fn page_or_default(page: Option<i32>) -> (r: i32)
    ensures
        r == match page {
            Some(p) => p,
            None => 0i32,
        },
{
    match page {
        Some(p) => p,
        None => 0,
    }
}

/// A count limit as given, 10 when absent.
pub fn limit_or_default(limit: Option<usize>) -> (r: usize)
    ensures
        r == match limit {
            Some(l) => l,
            None => 10usize,
        },
{
    match limit {
        Some(l) => l,
        None => 10,
    }
}

} // verus!
