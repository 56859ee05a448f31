//! What the transport decides before a request reaches the store: which way
//! the request goes, by its method and path, and whether its body is text.

use vstd::prelude::*;
use vstd::string::StringSliceAdditionalSpecFns;
use vstd::utf8::{decode_utf8, valid_utf8};

verus! {

/// The method of a request, as far as routing tells methods apart.
#[derive(Debug, Clone, Copy, PartialEq, Eq)]
pub enum Method {
    Get,
    Post,
    Other,
}

/// What is to be done with a request.
#[derive(Debug, Clone, Copy, PartialEq, Eq)]
pub enum Route {
    /// Send the file below the site directory that the path names.
    Asset,
    /// Send the site's front page.
    FrontPage,
    /// Read the body as a client's request and answer it.
    GameCall,
    /// Nothing is to be had at this path.
    NotFound,
    /// Neither the method nor the path is one that the service knows.
    Unsupported,
}

/// Whether `text` begins with `prefix`.
pub open spec fn begins_with(text: Seq<char>, prefix: Seq<char>) -> bool {
    prefix.len() <= text.len() && text.subrange(0, prefix.len() as int) == prefix
}

/// The route of a request: a GET goes to the assets if its path begins with
/// `/static`, to the front page if its path is `/`, and nowhere otherwise; a
/// POST to `/game_call` is a game call; nothing else is known.
pub open spec fn route_of(method: Method, path: Seq<char>) -> Route {
    match method {
        Method::Get => if begins_with(path, "/static"@) {
            Route::Asset
        } else if path == "/"@ {
            Route::FrontPage
        } else {
            Route::NotFound
        },
        Method::Post => if path == "/game_call"@ {
            Route::GameCall
        } else {
            Route::Unsupported
        },
        Method::Other => Route::Unsupported,
    }
}

/// Tells whether the first `n` characters of `text` are those of `prefix`,
/// which has `n` characters; `len` is the number of characters of `text`.
fn has_prefix(text: &str, len: usize, prefix: &str, n: usize) -> (yes: bool)
    requires
        len == text@.len(),
        n == prefix@.len(),
    ensures
        yes == begins_with(text@, prefix@),
{
    if len < n {
        return false;
    }
    let mut i: usize = 0;
    while i < n
        invariant
            i <= n <= len,
            len == text@.len(),
            n == prefix@.len(),
            text@.subrange(0, i as int) == prefix@.subrange(0, i as int),
        decreases n - i,
    {
        if text.get_char(i) != prefix.get_char(i) {
            assert(text@.subrange(0, n as int)[i as int] != prefix@[i as int]);
            return false;
        }
        assert(text@.subrange(0, i + 1) == text@.subrange(0, i as int).push(text@[i as int]));
        assert(prefix@.subrange(0, i + 1) == prefix@.subrange(0, i as int).push(
            prefix@[i as int],
        ));
        i = i + 1;
    }
    assert(prefix@.subrange(0, n as int) == prefix@);
    true
}

/// Decides what is to be done with a request from its method and path.
pub fn route(method: Method, path: &str) -> (way: Route)
    ensures
        way == route_of(method, path@),
{
    let len = path.unicode_len();
    match method {
        Method::Get => {
            if has_prefix(path, len, "/static", "/static".unicode_len()) {
                Route::Asset
            } else if len == "/".unicode_len() && has_prefix(path, len, "/", len) {
                assert(path@.subrange(0, len as int) == path@);
                Route::FrontPage
            } else {
                assert(path@.subrange(0, path@.len() as int) == path@);
                Route::NotFound
            }
        },
        Method::Post => {
            let n = "/game_call".unicode_len();
            if len == n && has_prefix(path, len, "/game_call", n) {
                assert(path@.subrange(0, len as int) == path@);
                Route::GameCall
            } else {
                assert(path@.subrange(0, path@.len() as int) == path@);
                Route::Unsupported
            }
        },
        Method::Other => Route::Unsupported,
    }
}

/// What is wrong with a request that cannot be read.
#[derive(Debug, Clone, Copy, PartialEq, Eq)]
pub enum ClientError {
    /// The body is not text.
    Stoopid,
}

/// The error of `core::str::from_utf8`; nothing is read from it.
#[verifier::external_type_specification]
#[verifier::external_body]
pub struct ExUtf8Error(core::str::Utf8Error);

/// `core::str::from_utf8` of the standard library succeeds exactly on the
/// byte slices that are valid UTF-8, and the string slice it then gives has
/// the given bytes as its encoding.
pub assume_specification[ core::str::from_utf8 ](v: &[u8]) -> (res: Result<
    &str,
    core::str::Utf8Error,
>)
    ensures
        res is Ok <==> valid_utf8(v@),
        res matches Ok(s) ==> s.spec_bytes() == v@,
;

/// Reads the body of a request as text. A body that is valid UTF-8 is the
/// text that it encodes; any other body is the client's mistake.
pub fn body_text(body: &[u8]) -> (text: Result<&str, ClientError>)
    ensures
        text is Ok <==> valid_utf8(body@),
        text matches Ok(t) ==> t@ == decode_utf8(body@),
        text matches Err(e) ==> e == ClientError::Stoopid,
{
    match core::str::from_utf8(body) {
        Ok(t) => {
            proof {
                vstd::utf8::encode_utf8_decode_utf8(t@);
            }
            Ok(t)
        },
        Err(_) => Err(ClientError::Stoopid),
    }
}

} // verus!
