//! The reference target: what a conforming origin serves.
//!
//! Every origin under test answers a request with status 200, a short fixed
//! plain-text body and a handful of headers. [`HelloApp`] builds exactly that
//! answer; putting it on a connection is the caller's business.

use std::sync::Arc;
use vstd::prelude::*;
use vstd::string::*;

verus! {

/// The date of the instant `epoch_sec` seconds after the Unix epoch, in the
/// form HTTP uses (`Sun, 06 Nov 1994 08:49:37 GMT`), or `None` where the
/// calendar in use cannot represent the instant.
pub uninterp spec fn http_date(epoch_sec: int) -> Option<Seq<char>>;

/// The text of an optional string.
pub open spec fn text_of(string: Option<String>) -> Option<Seq<char>> {
    match string {
        Some(s) => Some(s@),
        None => None,
    }
}

/// Calls `chrono::DateTime::from_timestamp` with no nanoseconds and, where
/// that yields a date, `chrono::DateTime::format` with the pattern
/// `%a, %d %b %Y %H:%M:%S GMT`.
///
/// Trusted: the result is a function of `epoch_sec` alone. The date is
/// taken in UTC and its names are the English ones whatever the locale, and
/// `from_timestamp` yields `None` exactly where the seconds are out of range.
#[verifier::external_body]
fn to_date_string(epoch_sec: i64) -> (date: Option<String>)
    ensures
        text_of(date) == http_date(epoch_sec as int),
{
    match chrono::DateTime::from_timestamp(epoch_sec, 0) {
        Some(instant) => Some(instant.format("%a, %d %b %Y %H:%M:%S GMT").to_string()),
        None => None,
    }
}

/// The body every origin serves.
pub open spec fn body_text() -> Seq<char> {
    "Hello, world!\n"@
}

/// The decimal digit of `d`.
pub open spec fn digit(d: nat) -> char
    recommends
        d < 10,
{
    if d == 0 {
        '0'
    } else if d == 1 {
        '1'
    } else if d == 2 {
        '2'
    } else if d == 3 {
        '3'
    } else if d == 4 {
        '4'
    } else if d == 5 {
        '5'
    } else if d == 6 {
        '6'
    } else if d == 7 {
        '7'
    } else if d == 8 {
        '8'
    } else {
        '9'
    }
}

/// `n` in decimal, without leading zeros.
pub open spec fn decimal(n: nat) -> Seq<char>
    decreases n,
{
    if n < 10 {
        seq![digit(n)]
    } else {
        decimal(n / 10).push(digit(n % 10))
    }
}

/// The status line and headers of the answer that carries `date`, up to and
/// including the empty line.
pub open spec fn head_text(date: Seq<char>) -> Seq<char> {
    "HTTP/1.1 200 OK\r\ncontent-type: text/plain\r\ncontent-length: "@ + decimal(
        body_text().len(),
    ) + "\r\ndate: "@ + date + "\r\nserver: pingora\r\n\r\n"@
}

/// The whole answer that carries `date`.
pub open spec fn response_text(date: Seq<char>) -> Seq<char> {
    head_text(date) + body_text()
}

/// Returns the one-character string of the decimal digit `d`.
fn digit_str(d: usize) -> (s: &'static str)
    requires
        d < 10,
    ensures
        s@ == seq![digit(d as nat)],
{
    proof {
        reveal_strlit("0");
        reveal_strlit("1");
        reveal_strlit("2");
        reveal_strlit("3");
        reveal_strlit("4");
        reveal_strlit("5");
        reveal_strlit("6");
        reveal_strlit("7");
        reveal_strlit("8");
        reveal_strlit("9");
    }
    let s = match d {
        0 => "0",
        1 => "1",
        2 => "2",
        3 => "3",
        4 => "4",
        5 => "5",
        6 => "6",
        7 => "7",
        8 => "8",
        _ => "9",
    };
    assert(s@ =~= seq![digit(d as nat)]);
    s
}

/// Writes `n` in decimal.
pub fn decimal_string(n: usize) -> (s: String)
    ensures
        s@ == decimal(n as nat),
    decreases n,
{
    if n < 10 {
        String::from_str(digit_str(n))
    } else {
        let mut s = decimal_string(n / 10);
        let last = digit_str(n % 10);
        s.append(last);
        assert(s@ =~= decimal(n as nat));
        s
    }
}

/// The origin that answers every connection with the same greeting.
#[derive(Clone, Copy, Debug, PartialEq, Eq, Structural)]
pub struct HelloApp;

impl HelloApp {
    /// Makes the application, shared between connections.
    pub fn new() -> (app: Arc<HelloApp>)
        ensures
            *app == HelloApp,
    {
        Arc::new(HelloApp {  })
    }

    /// Returns the body of the answer.
    pub fn body(&self) -> (body: &'static str)
        ensures
            body@ == body_text(),
    {
        "Hello, world!\n"
    }

    /// Builds the status line and headers of the answer that carries `date`.
    pub fn head(&self, date: &str) -> (head: String)
        ensures
            head@ == head_text(date@),
    {
        let body = self.body();
        proof {
            reveal_strlit("Hello, world!\n");
            vstd::utf8::is_ascii_chars_encode_utf8(body@);
        }
        let mut head = String::from_str(
            "HTTP/1.1 200 OK\r\ncontent-type: text/plain\r\ncontent-length: ",
        );
        let length = decimal_string(body.len());
        head.append(length.as_str());
        head.append("\r\ndate: ");
        head.append(date);
        head.append("\r\nserver: pingora\r\n\r\n");
        head
    }

    /// Builds the whole answer that carries `date`.
    pub fn response_dated(&self, date: &str) -> (response: String)
        ensures
            response@ == response_text(date@),
    {
        let mut response = self.head(date);
        response.append(self.body());
        response
    }

    /// Builds the answer given at the instant `epoch_sec` seconds after the
    /// Unix epoch, or `None` where that instant has no date.
    pub fn response_at(&self, epoch_sec: i64) -> (response: Option<String>)
        ensures
            text_of(response) == match http_date(epoch_sec as int) {
                Some(date) => Some(response_text(date)),
                None => None,
            },
    {
        match to_date_string(epoch_sec) {
            Some(date) => Some(self.response_dated(date.as_str())),
            None => None,
        }
    }
}

/// The answer opens with the status line of a success and closes with the
/// greeting, whose length the `content-length` header states.
pub proof fn lemma_response_shape(date: Seq<char>)
    ensures
        "HTTP/1.1 200 OK\r\n"@.is_prefix_of(response_text(date)),
        body_text().is_suffix_of(response_text(date)),
        decimal(body_text().len()) == "14"@,
{
    reveal_strlit("HTTP/1.1 200 OK\r\n");
    reveal_strlit("HTTP/1.1 200 OK\r\ncontent-type: text/plain\r\ncontent-length: ");
    reveal_strlit("Hello, world!\n");
    reveal_strlit("14");
    let first = "HTTP/1.1 200 OK\r\ncontent-type: text/plain\r\ncontent-length: "@;
    let status = "HTTP/1.1 200 OK\r\n"@;
    let whole = response_text(date);
    assert(status =~= first.subrange(0, 17));
    assert(status =~= whole.subrange(0, 17));
    assert(body_text() =~= whole.subrange(whole.len() - body_text().len(), whole.len() as int));
    assert(decimal(14) =~= "14"@) by {
        reveal_with_fuel(decimal, 2);
    }
}

/// The bytes that carry `text` where every character of it is ASCII: one
/// byte for each character.
pub open spec fn wire(text: Seq<char>) -> Seq<u8> {
    Seq::new(text.len(), |i: int| text[i] as u8)
}

/// What opens a text opens its bytes, and what closes it closes them.
pub proof fn lemma_wire_keeps_ends(part: Seq<char>, whole: Seq<char>)
    ensures
        part.is_prefix_of(whole) ==> wire(part).is_prefix_of(wire(whole)),
        part.is_suffix_of(whole) ==> wire(part).is_suffix_of(wire(whole)),
{
    if part.is_prefix_of(whole) {
        assert(wire(part) =~= wire(whole).subrange(0, wire(part).len() as int));
    }
    if part.is_suffix_of(whole) {
        let skipped = whole.len() - part.len();
        assert forall|i: int| 0 <= i < part.len() implies part[i] == whole[skipped + i] by {
            assert(part[i] == whole.subrange(skipped, whole.len() as int)[i]);
        }
        assert(wire(part) =~= wire(whole).subrange(
            wire(whole).len() - wire(part).len(),
            wire(whole).len() as int,
        ));
    }
}

/// The answer opens with the status of a success, whatever its reason
/// phrase, and closes with the empty line that ends the headers and the
/// greeting behind it.
pub proof fn lemma_response_ends(date: Seq<char>)
    ensures
        "HTTP/1.1 200"@.is_prefix_of(response_text(date)),
        "\r\n\r\nHello, world!\n"@.is_suffix_of(response_text(date)),
{
    reveal_strlit("HTTP/1.1 200");
    reveal_strlit("HTTP/1.1 200 OK\r\ncontent-type: text/plain\r\ncontent-length: ");
    reveal_strlit("\r\nserver: pingora\r\n\r\n");
    reveal_strlit("Hello, world!\n");
    reveal_strlit("\r\n\r\nHello, world!\n");
    let whole = response_text(date);
    let opening = "HTTP/1.1 200"@;
    let closing = "\r\n\r\nHello, world!\n"@;
    assert(opening =~= whole.subrange(0, 12));
    assert(closing =~= whole.subrange(whole.len() - 18, whole.len() as int));
}

} // verus!
