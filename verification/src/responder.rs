//! What the static-file responder decides: which page a request gets, and
//! the bytes of the response.

use vstd::prelude::*;
use vstd::string::StringSliceAdditionalSpecFns;

verus! {

/// The request line that asks for the greeting.
pub open spec fn root_request_line() -> Seq<u8> {
    "GET / HTTP/1.1\r\n".spec_bytes()
}

/// The request line that asks for the greeting after a pause.
pub open spec fn sleep_request_line() -> Seq<u8> {
    "GET /sleep HTTP/1.1\r\n".spec_bytes()
}

/// What stands between the status line and the body's length.
pub open spec fn length_header() -> Seq<u8> {
    "\r\nContent-Length: ".spec_bytes()
}

/// What ends the head of a response: an empty line.
pub open spec fn head_end() -> Seq<u8> {
    "\r\n\r\n".spec_bytes()
}

/// Whether `data` begins with `prefix`.
pub open spec fn has_prefix(data: Seq<u8>, prefix: Seq<u8>) -> bool {
    prefix.len() <= data.len() && data.subrange(0, prefix.len() as int) == prefix
}

/// The decimal digits of `n` in ASCII, without leading zeros.
pub open spec fn decimal(n: nat) -> Seq<u8>
    decreases n,
{
    if n < 10 {
        seq![(48 + n) as u8]
    } else {
        decimal(n / 10).push((48 + n % 10) as u8)
    }
}

/// The response with the status line `status_line` and the body `content`:
/// the status line, the body's length in a `Content-Length` header, an empty
/// line, and the body.
pub open spec fn response_bytes(status_line: Seq<u8>, content: Seq<u8>) -> Seq<u8> {
    status_line + length_header() + decimal(content.len()) + head_end() + content
}

/// What a request is answered with.
#[derive(Clone, Copy, Debug, PartialEq, Eq, Structural)]
pub enum Route {
    /// The greeting page, at once.
    Root,
    /// The greeting page, after a pause.
    Sleep,
    /// The page for everything else.
    NotFound,
}

/// The route of a request that begins with the bytes `request`.
pub open spec fn route_of(request: Seq<u8>) -> Route {
    if has_prefix(request, root_request_line()) {
        Route::Root
    } else if has_prefix(request, sleep_request_line()) {
        Route::Sleep
    } else {
        Route::NotFound
    }
}

impl Route {
    /// The status line of the response, without its line end.
    pub fn status_line(&self) -> (line: &'static str)
        ensures
            *self != Route::NotFound ==> line@ == "HTTP/1.1 200 OK"@,
            *self == Route::NotFound ==> line@ == "HTTP/1.1 404 NOT FOUND"@,
    {
        match self {
            Route::Root => "HTTP/1.1 200 OK",
            Route::Sleep => "HTTP/1.1 200 OK",
            Route::NotFound => "HTTP/1.1 404 NOT FOUND",
        }
    }

    /// The name of the file that holds the response's body.
    pub fn file_name(&self) -> (name: &'static str)
        ensures
            *self != Route::NotFound ==> name@ == "hello.html"@,
            *self == Route::NotFound ==> name@ == "404.html"@,
    {
        match self {
            Route::Root => "hello.html",
            Route::Sleep => "hello.html",
            Route::NotFound => "404.html",
        }
    }

    /// The seconds to pause before the response is made.
    pub fn delay_seconds(&self) -> (seconds: u64)
        ensures
            *self == Route::Sleep ==> seconds == 5,
            *self != Route::Sleep ==> seconds == 0,
    {
        match self {
            Route::Sleep => 5,
            _ => 0,
        }
    }
}

/// Whether `data` begins with `prefix`.
pub fn starts_with(data: &[u8], prefix: &[u8]) -> (found: bool)
    ensures
        found == has_prefix(data@, prefix@),
{
    if prefix.len() > data.len() {
        return false;
    }
    let mut i: usize = 0;
    while i < prefix.len()
        invariant
            i <= prefix@.len() <= data@.len(),
            data@.subrange(0, i as int) == prefix@.subrange(0, i as int),
        decreases prefix@.len() - i,
    {
        if data[i] != prefix[i] {
            proof {
                assert(data@.subrange(0, prefix@.len() as int)[i as int] != prefix@[i as int]);
            }
            return false;
        }
        proof {
            assert(data@.subrange(0, i + 1) =~= data@.subrange(0, i as int).push(data@[i as int]));
            assert(prefix@.subrange(0, i + 1) =~= prefix@.subrange(0, i as int).push(
                prefix@[i as int],
            ));
        }
        i = i + 1;
    }
    proof {
        assert(prefix@.subrange(0, i as int) =~= prefix@);
    }
    true
}

/// Decides what the request that begins with `request` is answered with:
/// the greeting for a `GET` of `/`, the greeting after a pause for a `GET`
/// of `/sleep`, and the not-found page for anything else.
pub fn route(request: &[u8]) -> (route: Route)
    ensures
        route == route_of(request@),
{
    if starts_with(request, "GET / HTTP/1.1\r\n".as_bytes()) {
        Route::Root
    } else if starts_with(request, "GET /sleep HTTP/1.1\r\n".as_bytes()) {
        Route::Sleep
    } else {
        Route::NotFound
    }
}

/// Puts `bytes` behind what `out` holds.
pub fn append(out: &mut Vec<u8>, bytes: &[u8])
    ensures
        final(out)@ == old(out)@ + bytes@,
{
    let ghost before = out@;
    let mut i: usize = 0;
    while i < bytes.len()
        invariant
            i <= bytes@.len(),
            out@ == before + bytes@.subrange(0, i as int),
        decreases bytes@.len() - i,
    {
        out.push(bytes[i]);
        proof {
            assert(out@ =~= before + bytes@.subrange(0, i + 1));
        }
        i = i + 1;
    }
    proof {
        assert(bytes@.subrange(0, i as int) =~= bytes@);
    }
}

/// Puts the decimal digits of `n` behind what `out` holds.
pub fn append_decimal(out: &mut Vec<u8>, n: usize)
    ensures
        final(out)@ == old(out)@ + decimal(n as nat),
    decreases n,
{
    let ghost before = out@;
    if n >= 10 {
        append_decimal(out, n / 10);
    }
    let digit: u8 = 48 + (n % 10) as u8;
    out.push(digit);
    proof {
        assert(out@ =~= before + decimal(n as nat));
    }
}

/// The bytes of the response with the status line `status_line` and the
/// body `content`. The length it states is the body's length in bytes.
pub fn respond(status_line: &str, content: &str) -> (response: Vec<u8>)
    ensures
        response@ == response_bytes(status_line.spec_bytes(), content.spec_bytes()),
{
    let body = content.as_bytes();
    let mut response: Vec<u8> = Vec::new();
    append(&mut response, status_line.as_bytes());
    append(&mut response, "\r\nContent-Length: ".as_bytes());
    append_decimal(&mut response, body.len());
    append(&mut response, "\r\n\r\n".as_bytes());
    append(&mut response, body);
    proof {
        assert(response@ =~= response_bytes(status_line.spec_bytes(), content.spec_bytes()));
    }
    response
}

} // verus!
