//! The request that each operation sends.

use vstd::prelude::*;
use vstd::string::*;

use reqwest::header::HeaderMap;

use crate::error::Error;
use crate::headers::{build_headers, header_fields, is_token, request_fields, text_of};
use crate::payload::{all_read, is_first_failure, CreateGistPayload, FileRead};

verus! {

/// A moment from which on collections are wanted: the seconds since the
/// start of 1970 in UTC, and how many seconds the speaker's clock is ahead
/// of UTC.
#[derive(Debug, Clone, Copy, PartialEq, Eq, Structural)]
pub struct Since {
    pub seconds: i64,
    pub offset: i32,
}

/// How a request asks: for a resource, or to create one.
#[derive(Debug, Clone, Copy, PartialEq, Eq, Structural)]
pub enum Method {
    Get,
    Post,
}

/// A request, ready to be sent: the method, the address, the header fields,
/// and for a creation what is to be created.
#[derive(Debug)]
pub struct Request {
    pub method: Method,
    pub url: String,
    pub headers: HeaderMap,
    pub payload: Option<CreateGistPayload>,
}

/// The address at which collections are created.
pub open spec fn create_url() -> Seq<char> {
    "https://api.github.com/gists"@
}

/// The address of the listing of all public collections.
pub open spec fn public_listing_url() -> Seq<char> {
    "https://api.github.com/gists/public"@
}

/// What stands before the user's name in the address of a user's listing.
pub open spec fn user_listing_prefix() -> Seq<char> {
    "https://api.github.com/users/"@
}

/// The address of the listing of one user's collections.
pub open spec fn user_listing_url(user: Seq<char>) -> Seq<char> {
    user_listing_prefix() + user + "/gists"@
}

/// The address of a listing: that of the user where one is named, else the
/// public one.
pub open spec fn listing_url(by_user: Option<Seq<char>>) -> Seq<char> {
    match by_user {
        Some(user) => user_listing_url(user),
        None => public_listing_url(),
    }
}

/// The address of the collection with this identifier.
pub open spec fn gist_url(id: Seq<char>) -> Seq<char> {
    "https://api.github.com/gists/"@ + id
}

/// The address of a user's listing holds the user's name, right behind the
/// prefix, and is never the address of the public listing.
pub proof fn lemma_user_listing_names_user(user: Seq<char>)
    ensures
        user_listing_url(user).subrange(
            user_listing_prefix().len() as int,
            (user_listing_prefix().len() + user.len()) as int,
        ) == user,
        user_listing_url(user) != public_listing_url(),
{
    reveal_strlit("https://api.github.com/users/");
    reveal_strlit("https://api.github.com/gists/public");
    reveal_strlit("/gists");
    let url = user_listing_url(user);
    let start = user_listing_prefix().len() as int;
    assert(url.subrange(start, start + user.len()) =~= user);
    assert(url[23] == 'u');
    assert(public_listing_url()[23] == 'g');
}

/// The address of a listing.
pub fn list_endpoint(by_user: &Option<String>) -> (url: String)
    ensures
        url@ == listing_url(text_of(*by_user)),
{
    match by_user {
        Some(user) => {
            let mut url = String::from_str("https://api.github.com/users/");
            url.append(user.as_str());
            url.append("/gists");
            url
        },
        None => String::from_str("https://api.github.com/gists/public"),
    }
}

/// The address of one collection.
pub fn get_endpoint(id: &str) -> (url: String)
    ensures
        url@ == gist_url(id@),
{
    let mut url = String::from_str("https://api.github.com/gists/");
    url.append(id);
    url
}

/// The request that creates a collection: a POST to the address for
/// creation, with the credential, carrying the payload.
pub fn create_request(payload: CreateGistPayload, token: String) -> (request: Request)
    requires
        is_token(token@),
    ensures
        request.method == Method::Post,
        request.url@ == create_url(),
        header_fields(request.headers) == request_fields(Some(token@)),
        request.payload == Some(payload),
{
    Request {
        method: Method::Post,
        url: String::from_str("https://api.github.com/gists"),
        headers: build_headers(Some(token)),
        payload: Some(payload),
    }
}

/// Whether a request is the one that creates a collection from files that
/// were all read: a POST to the address for creation, with the credential,
/// that carries each path with its content, the description and whether the
/// collection is public.
pub open spec fn is_creation(
    request: Request,
    files: Seq<FileRead>,
    is_public: bool,
    description: Option<String>,
    token: Seq<char>,
) -> bool {
    &&& request.method == Method::Post
    &&& request.url@ == create_url()
    &&& header_fields(request.headers) == request_fields(Some(token))
    &&& request.payload matches Some(payload)
    &&& payload.holds_reads(files, is_public, description)
}

/// The creation of a collection from local files as they were read, up to
/// the request. If every file was read, the result is the request that
/// creates the collection. If a file could not be read there is no request,
/// so nothing is sent: the result is the file error of the first file that
/// failed. The token only matters where there is a request.
pub fn create(
    files: Vec<FileRead>,
    is_public: bool,
    description: Option<String>,
    token: String,
) -> (r: Result<Request, Error>)
    requires
        all_read(files@) ==> is_token(token@),
    ensures
        r is Ok <==> all_read(files@),
        r matches Ok(request) ==> is_creation(request, files@, is_public, description, token@),
        forall|i: int|
            is_first_failure(files@, i) ==> r == Err::<Request, Error>(
                Error::FileIOError(files@[i].outcome->Err_0),
            ),
{
    match CreateGistPayload::from_reads(files, is_public, description) {
        Ok(payload) => Ok(create_request(payload, token)),
        Err(error) => Err(error),
    }
}

/// The request that lists collections: a GET to the listing of the user
/// where one is named, else to the public listing, with the credential where
/// there is a token. `since` is taken and not sent: the listing is not
/// narrowed by time.
pub fn list(
    by_user: Option<String>,
    since: Option<Since>,
    token: Option<String>,
) -> (request: Request)
    requires
        token matches Some(t) ==> is_token(t@),
    ensures
        request.method == Method::Get,
        request.url@ == listing_url(text_of(by_user)),
        header_fields(request.headers) == request_fields(text_of(token)),
        request.payload is None,
{
    Request {
        method: Method::Get,
        url: list_endpoint(&by_user),
        headers: build_headers(token),
        payload: None,
    }
}

/// The request that fetches one collection: a GET to the address of the
/// collection, with the credential where there is a token.
pub fn get(id: String, token: Option<String>) -> (request: Request)
    requires
        token matches Some(t) ==> is_token(t@),
    ensures
        request.method == Method::Get,
        request.url@ == gist_url(id@),
        header_fields(request.headers) == request_fields(text_of(token)),
        request.payload is None,
{
    Request {
        method: Method::Get,
        url: get_endpoint(id.as_str()),
        headers: build_headers(token),
        payload: None,
    }
}

} // verus!
