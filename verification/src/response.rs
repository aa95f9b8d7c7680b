//! Responses and their form on the wire.
//!
//! A response is a status code and a body. On the wire it is a status line, a
//! `Content-Length` header that counts the bytes of the body, a fixed
//! `Content-Type` header, an empty line and the body. No other header is sent.

use vstd::prelude::*;
use vstd::utf8::encode_utf8;

verus! {

/// A response as a handler gives it: a status code and a body.
pub struct Response {
    pub status: u16,
    pub body: String,
}

/// What a `Response` holds, as a mathematical value.
pub struct ResponseView {
    pub status: u16,
    pub body: Seq<char>,
}

impl View for Response {
    type V = ResponseView;

    open spec fn view(&self) -> ResponseView {
        ResponseView { status: self.status, body: self.body@ }
    }
}

/// The response to a request that succeeded: status 200 and the given body.
pub open spec fn ok_with(body: Seq<char>) -> ResponseView {
    ResponseView { status: 200, body }
}

/// The response to a request for a path that no route is bound to.
pub open spec fn not_found() -> ResponseView {
    ResponseView { status: 404, body: "404: Not Found"@ }
}

/// The character that stands for the digit `d`, for `d` below ten.
pub open spec fn digit(d: nat) -> char {
    (0x30 + d) as char
}

/// The decimal numeral of `n`, without leading zeros.
pub open spec fn decimal(n: nat) -> Seq<char>
    decreases n,
{
    if n < 10 {
        seq![digit(n)]
    } else {
        decimal(n / 10).push(digit(n % 10))
    }
}

/// The number that a sequence of decimal digits denotes.
pub open spec fn decimal_value(digits: Seq<char>) -> nat
    decreases digits.len(),
{
    if digits.len() == 0 {
        0
    } else {
        (10 * decimal_value(digits.drop_last()) + (digits.last() as nat - 0x30)) as nat
    }
}

/// The number of bytes that `text` takes on the wire, which is its length in
/// UTF-8.
pub open spec fn byte_len(text: Seq<char>) -> nat {
    encode_utf8(text).len()
}

/// The reason phrase that `http::StatusCode::canonical_reason` gives for the
/// status code `code`, or `None` where it knows none. It is defined for the
/// codes that `http::StatusCode` can hold, 100 to 999.
pub uninterp spec fn canonical_reason(code: u16) -> Option<Seq<char>>;

/// The reason phrase that goes into the status line for `status`: the
/// canonical one, and the empty text for a code that has none.
pub open spec fn reason_of(status: u16) -> Seq<char> {
    if 100 <= status <= 999 {
        match canonical_reason(status) {
            Some(phrase) => phrase,
            None => Seq::empty(),
        }
    } else {
        Seq::empty()
    }
}

/// Everything of a response that goes before its body: the status line with
/// `status` and `reason`, the `Content-Length` header announcing `length`
/// bytes, the `Content-Type` header and the empty line.
pub open spec fn head(status: u16, reason: Seq<char>, length: nat) -> Seq<char> {
    "HTTP/1.1 "@ + decimal(status as nat) + " "@ + reason + "\r\nContent-Length: "@ + decimal(length)
        + "\r\nContent-Type: text/html\r\n\r\n"@
}

/// The text that goes onto the wire for a response with the given status,
/// reason phrase and body. The announced length is that of the body in bytes.
pub open spec fn wire(status: u16, reason: Seq<char>, body: Seq<char>) -> Seq<char> {
    head(status, reason, byte_len(body)) + body
}

/// The text that goes onto the wire for `response`.
pub open spec fn wire_of(response: ResponseView) -> Seq<char> {
    wire(response.status, reason_of(response.status), response.body)
}

/// A decimal numeral denotes the number it was made from, consists of digits
/// only, and has no leading zero unless it is `0` itself.
pub proof fn decimal_denotes(n: nat)
    ensures
        decimal_value(decimal(n)) == n,
        decimal(n).len() >= 1,
        forall|i: int| 0 <= i < decimal(n).len() ==> '0' <= #[trigger] decimal(n)[i] <= '9',
        decimal(n)[0] == '0' ==> n == 0,
    decreases n,
{
    if n < 10 {
        assert(decimal(n).drop_last() =~= Seq::<char>::empty());
        assert(decimal_value(decimal(n).drop_last()) == 0);
    } else {
        decimal_denotes(n / 10);
        assert(decimal(n).drop_last() =~= decimal(n / 10));
        assert(decimal(n).last() == digit(n % 10));
    }
}

/// Text put together from two parts takes as many bytes as the parts do.
pub proof fn byte_len_of_parts(a: Seq<char>, b: Seq<char>)
    ensures
        encode_utf8(a + b) == encode_utf8(a) + encode_utf8(b),
        byte_len(a + b) == byte_len(a) + byte_len(b),
    decreases a.len(),
{
    if a.len() == 0 {
        assert(a + b =~= b);
        assert(encode_utf8(a) =~= Seq::<u8>::empty());
        assert(encode_utf8(a) + encode_utf8(b) =~= encode_utf8(b));
    } else {
        byte_len_of_parts(a.drop_first(), b);
        assert((a + b).drop_first() =~= a.drop_first() + b);
        assert((a + b)[0] == a[0]);
        assert(encode_utf8(a + b) =~= encode_utf8(a) + encode_utf8(b));
    }
}

/// The `Content-Length` of every response is the length of its body in bytes:
/// the header holds the decimal numeral of that number, and after the head
/// exactly that many bytes follow on the wire.
pub proof fn content_length_counts_body(status: u16, reason: Seq<char>, body: Seq<char>)
    ensures
        wire(status, reason, body) == head(status, reason, byte_len(body)) + body,
        decimal_value(decimal(byte_len(body))) == byte_len(body),
        byte_len(wire(status, reason, body)) == byte_len(head(status, reason, byte_len(body)))
            + byte_len(body),
{
    decimal_denotes(byte_len(body));
    byte_len_of_parts(head(status, reason, byte_len(body)), body);
}

/// The numeral of one digit.
fn digit_text(d: usize) -> (text: &'static str)
    requires
        d < 10,
    ensures
        text@ == seq![digit(d as nat)],
{
    proof {
        reveal_strlit("0");
        reveal_strlit("1");
        reveal_strlit("2");
        reveal_strlit("3");
        reveal_strlit("4");
        reveal_strlit("5");
        reveal_strlit("6");
        reveal_strlit("7");
        reveal_strlit("8");
        reveal_strlit("9");
    }
    let text = if d == 0 {
        "0"
    } else if d == 1 {
        "1"
    } else if d == 2 {
        "2"
    } else if d == 3 {
        "3"
    } else if d == 4 {
        "4"
    } else if d == 5 {
        "5"
    } else if d == 6 {
        "6"
    } else if d == 7 {
        "7"
    } else if d == 8 {
        "8"
    } else {
        "9"
    };
    assert(text@ =~= seq![digit(d as nat)]);
    text
}

/// The decimal numeral of `n`.
pub fn to_decimal(n: usize) -> (text: String)
    ensures
        text@ == decimal(n as nat),
    decreases n,
{
    if n < 10 {
        digit_text(n).to_owned()
    } else {
        let mut text = to_decimal(n / 10);
        text.append(digit_text(n % 10));
        assert(text@ =~= decimal(n as nat));
        text
    }
}

/// Asks `http::StatusCode::canonical_reason` for the reason phrase of `code`.
///
/// The code is first made into an `http::StatusCode`, which holds exactly the
/// codes from 100 to 999. The contract gives the answer a name and claims that
/// it depends on the code alone: the phrase is looked up in a fixed table.
#[verifier::external_body]
fn lookup_reason(code: u16) -> (phrase: Option<&'static str>)
    requires
        100 <= code <= 999,
    ensures
        match phrase {
            Some(p) => canonical_reason(code) == Some(p@),
            None => canonical_reason(code) is None,
        },
{
    match http::StatusCode::from_u16(code) {
        Ok(status) => status.canonical_reason(),
        Err(_) => None,
    }
}

/// The reason phrase for the status line of `status`: the canonical phrase of
/// the code, empty where the code has none.
pub fn reason_phrase(status: u16) -> (phrase: &'static str)
    ensures
        phrase@ == reason_of(status),
{
    proof {
        reveal_strlit("");
    }
    assert(""@ =~= Seq::<char>::empty());
    if 100 <= status && status <= 999 {
        match lookup_reason(status) {
            Some(phrase) => phrase,
            None => "",
        }
    } else {
        ""
    }
}

/// Puts a response with the given status, reason phrase and body into its form
/// on the wire.
pub fn format_response(status: u16, reason: &str, body: &str) -> (text: String)
    ensures
        text@ == wire(status, reason@, body@),
{
    let length = body.as_bytes().len();
    let mut text = "HTTP/1.1 ".to_owned();
    text.append(to_decimal(status as usize).as_str());
    text.append(" ");
    text.append(reason);
    text.append("\r\nContent-Length: ");
    text.append(to_decimal(length).as_str());
    text.append("\r\nContent-Type: text/html\r\n\r\n");
    text.append(body);
    text
}

impl Response {
    /// A response with status 200 and the given body.
    pub fn ok(body: String) -> (response: Response)
        ensures
            response@ == ok_with(body@),
    {
        Response { status: 200, body }
    }

    /// The response to a request for a path that no route is bound to: status
    /// 404 and a fixed body.
    pub fn not_found() -> (response: Response)
        ensures
            response@ == not_found(),
    {
        Response { status: 404, body: "404: Not Found".to_owned() }
    }

    /// The response in its form on the wire.
    pub fn to_wire(&self) -> (text: String)
        ensures
            text@ == wire_of(self@),
    {
        format_response(self.status, reason_phrase(self.status), self.body.as_str())
    }
}

} // verus!
