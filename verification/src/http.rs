//! Response shaping for the jobs this server hands to the pool.
//!
//! Each accepted connection becomes one job that reads a request line,
//! routes it, and writes back an HTTP/1.0-style response: status line, a
//! `Content-Length` header computed from the body's byte length, a blank
//! line, then the body. The routing decision and the exact shape of the
//! response are pinned down here; reading from and writing to the
//! connection is the surrounding program's concern.

use vstd::prelude::*;

verus! {

use vstd::string::StrSliceExecFns;
use vstd::string::StringExecFns;

/// Where this application's routing policy sends a request line.
#[derive(Clone, Copy, Debug, PartialEq, Eq, Structural)]
pub enum Route {
    /// The root page.
    Root,
    /// The root page again, after a deliberate delay simulating slow work.
    Sleep,
    /// Anything else.
    NotFound,
}

/// The routing policy itself, at the specification level.
pub open spec fn route_of(line: Seq<char>) -> Route {
    if line == "GET / HTTP/1.1"@ {
        Route::Root
    } else if line == "GET /sleep HTTP/1.1"@ {
        Route::Sleep
    } else {
        Route::NotFound
    }
}

/// Character-by-character string equality.
fn str_eq(a: &str, b: &str) -> (r: bool)
    ensures
        r == (a@ == b@),
{
    let n = a.unicode_len();
    if n != b.unicode_len() {
        assert(a@.len() != b@.len());
        return false;
    }
    let mut i: usize = 0;
    while i < n
        invariant
            i <= n,
            n == a@.len(),
            n == b@.len(),
            forall|k: int| 0 <= k < i ==> a@[k] == b@[k],
        decreases n - i,
    {
        if a.get_char(i) != b.get_char(i) {
            return false;
        }
        i += 1;
    }
    assert(a@ =~= b@);
    true
}

/// Route a request line.
pub fn route(request_line: &str) -> (r: Route)
    ensures
        r == route_of(request_line@),
{
    if str_eq(request_line, "GET / HTTP/1.1") {
        Route::Root
    } else if str_eq(request_line, "GET /sleep HTTP/1.1") {
        Route::Sleep
    } else {
        Route::NotFound
    }
}

/// The status line a route answers with: 200 for the pages the policy
/// knows, 404 for the rest.
pub fn status_line(r: Route) -> (s: &'static str)
    ensures
        r is NotFound ==> s@ == "HTTP/1.1 404 NOT FOUND"@,
        !(r is NotFound) ==> s@ == "HTTP/1.1 200 OK"@,
{
    match r {
        Route::NotFound => "HTTP/1.1 404 NOT FOUND",
        _ => "HTTP/1.1 200 OK",
    }
}

/// The file whose contents become the response body.
pub fn filename(r: Route) -> (s: &'static str)
    ensures
        r is NotFound ==> s@ == "404.html"@,
        !(r is NotFound) ==> s@ == "index.html"@,
{
    match r {
        Route::NotFound => "404.html",
        _ => "index.html",
    }
}

/// How long the job should simulate slow work before answering: five
/// seconds on the sleep page, none elsewhere. The waiting itself is the
/// job body's doing.
pub fn delay_seconds(r: Route) -> (d: u64)
    ensures
        r is Sleep ==> d == 5,
        !(r is Sleep) ==> d == 0,
{
    match r {
        Route::Sleep => 5,
        _ => 0,
    }
}

/// One decimal digit as a character.
pub open spec fn digit_char(d: nat) -> char {
    if d == 0 {
        '0'
    } else if d == 1 {
        '1'
    } else if d == 2 {
        '2'
    } else if d == 3 {
        '3'
    } else if d == 4 {
        '4'
    } else if d == 5 {
        '5'
    } else if d == 6 {
        '6'
    } else if d == 7 {
        '7'
    } else if d == 8 {
        '8'
    } else {
        '9'
    }
}

/// The decimal rendering of `n`, most significant digit first, with no
/// leading zero except for `n == 0` itself.
pub open spec fn decimal(n: nat) -> Seq<char>
    decreases n,
{
    if n < 10 {
        seq![digit_char(n)]
    } else {
        decimal(n / 10).push(digit_char(n % 10))
    }
}

/// One digit as a string.
fn digit_str(d: usize) -> (s: &'static str)
    requires
        d < 10,
    ensures
        s@ == seq![digit_char(d as nat)],
{
    proof {
        reveal_strlit("0");
        reveal_strlit("1");
        reveal_strlit("2");
        reveal_strlit("3");
        reveal_strlit("4");
        reveal_strlit("5");
        reveal_strlit("6");
        reveal_strlit("7");
        reveal_strlit("8");
        reveal_strlit("9");
    }
    match d {
        0 => "0",
        1 => "1",
        2 => "2",
        3 => "3",
        4 => "4",
        5 => "5",
        6 => "6",
        7 => "7",
        8 => "8",
        _ => "9",
    }
}

/// Render `n` in decimal.
pub fn decimal_string(n: usize) -> (s: String)
    ensures
        s@ == decimal(n as nat),
    decreases n,
{
    if n < 10 {
        String::from_str(digit_str(n))
    } else {
        let mut s = decimal_string(n / 10);
        s.append(digit_str(n % 10));
        proof {
            assert(s@ =~= decimal(n as nat));
        }
        s
    }
}

/// The exact shape of every response this server's jobs write: the status
/// line, a `Content-Length` header carrying the body's byte length, a
/// blank line, then the body.
pub open spec fn response_chars(status: Seq<char>, body: Seq<char>, body_bytes: nat) -> Seq<char> {
    status + "\r\nContent-Length: "@ + decimal(body_bytes) + "\r\n\r\n"@ + body
}

/// Build the full response for a status line and a body.
pub fn format_response(status: &str, body: &str) -> (r: String)
    ensures
        r@ == response_chars(status@, body@, body.len() as nat),
{
    let mut r = String::from_str(status);
    r.append("\r\nContent-Length: ");
    let digits = decimal_string(body.len());
    r.append(digits.as_str());
    r.append("\r\n\r\n");
    r.append(body);
    proof {
        assert(r@ =~= response_chars(status@, body@, body.len() as nat));
    }
    r
}

} // verus!
