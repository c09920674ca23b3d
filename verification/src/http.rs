//! The line-based status protocol: request-line parsing, JSON string
//! escaping, and response rendering with exact headers and content length.

use vstd::prelude::*;
use vstd::string::StringExecFns;
use vstd::string::StrSliceExecFns;
use vstd::utf8::encode_utf8;
use crate::text::{dec_seq, u64_to_dec};

verus! {

/// The whitespace characters that separate request-line tokens.
pub open spec fn is_space(c: char) -> bool {
    c == ' ' || c == '\t' || c == '\r' || c == '\n'
}

/// The first position at or after `i` that does not hold whitespace.
pub open spec fn skip_spaces(s: Seq<char>, i: int) -> int
    recommends
        0 <= i <= s.len(),
    decreases s.len() - i,
        when 0 <= i <= s.len()
{
    if i < s.len() && is_space(s[i]) {
        skip_spaces(s, i + 1)
    } else {
        i
    }
}

/// The first position at or after `i` that holds whitespace (or the end).
pub open spec fn skip_token(s: Seq<char>, i: int) -> int
    recommends
        0 <= i <= s.len(),
    decreases s.len() - i,
        when 0 <= i <= s.len()
{
    if i < s.len() && !is_space(s[i]) {
        skip_token(s, i + 1)
    } else {
        i
    }
}

/// The second whitespace-separated token of a request line — the path of a
/// `GET <path> HTTP/1.1` request — or `/` when there is none.
pub open spec fn spec_request_path(line: Seq<char>) -> Seq<char> {
    let first_start = skip_spaces(line, 0);
    let first_end = skip_token(line, first_start);
    let second_start = skip_spaces(line, first_end);
    let second_end = skip_token(line, second_start);
    if second_start < line.len() {
        line.subrange(second_start, second_end)
    } else {
        "/"@
    }
}

/// Whether `c` separates request-line tokens.
fn space_char(c: char) -> (r: bool)
    ensures
        r == is_space(c),
{
    c == ' ' || c == '\t' || c == '\r' || c == '\n'
}

/// Advance `i` to the next non-whitespace position.
fn advance_over_spaces(line: &str, len: usize, start: usize) -> (i: usize)
    requires
        len == line@.len(),
        start <= len,
    ensures
        i == skip_spaces(line@, start as int),
        start <= i <= len,
{
    let mut i: usize = start;
    while i < len && space_char(line.get_char(i))
        invariant
            start <= i <= len,
            len == line@.len(),
            skip_spaces(line@, start as int) == skip_spaces(line@, i as int),
        decreases len - i,
    {
        i = i + 1;
    }
    i
}

/// Advance `i` to the next whitespace position (or the end).
fn advance_over_token(line: &str, len: usize, start: usize) -> (i: usize)
    requires
        len == line@.len(),
        start <= len,
    ensures
        i == skip_token(line@, start as int),
        start <= i <= len,
{
    let mut i: usize = start;
    while i < len && !space_char(line.get_char(i))
        invariant
            start <= i <= len,
            len == line@.len(),
            skip_token(line@, start as int) == skip_token(line@, i as int),
        decreases len - i,
    {
        i = i + 1;
    }
    i
}

/// Extract the request path from a request line: its second
/// whitespace-separated token, or `/` when the line has none.
pub fn parse_request_path(line: &str) -> (path: String)
    ensures
        path@ == spec_request_path(line@),
{
    let len = line.unicode_len();
    let first_start = advance_over_spaces(line, len, 0);
    let first_end = advance_over_token(line, len, first_start);
    let second_start = advance_over_spaces(line, len, first_end);
    let second_end = advance_over_token(line, len, second_start);
    if second_start < len {
        line.substring_char(second_start, second_end).to_owned()
    } else {
        "/".to_owned()
    }
}

/// The hexadecimal digit character for a value below sixteen, lower case.
pub open spec fn hex_digit(d: nat) -> char
    recommends
        d < 16,
{
    if d < 10 {
        crate::text::dec_digit(d)
    } else if d == 10 {
        'a'
    } else if d == 11 {
        'b'
    } else if d == 12 {
        'c'
    } else if d == 13 {
        'd'
    } else if d == 14 {
        'e'
    } else {
        'f'
    }
}

/// A one-character string slice for a hexadecimal digit value.
fn hex_digit_str(d: u32) -> (s: &'static str)
    requires
        d < 16,
    ensures
        s@ == seq![hex_digit(d as nat)],
{
    if d < 10 {
        crate::text::dec_digit_str(d as u64)
    } else {
        proof {
            reveal_strlit("a");
            reveal_strlit("b");
            reveal_strlit("c");
            reveal_strlit("d");
            reveal_strlit("e");
            reveal_strlit("f");
        }
        let s: &'static str = if d == 10 {
            "a"
        } else if d == 11 {
            "b"
        } else if d == 12 {
            "c"
        } else if d == 13 {
            "d"
        } else if d == 14 {
            "e"
        } else {
            "f"
        };
        proof {
            assert(s@ =~= seq![hex_digit(d as nat)]);
        }
        s
    }
}

/// How one character appears inside a JSON string: quote and backslash take
/// a backslash escape, the named control characters take their short form,
/// the other control characters take a `\u00XX` form, and everything else
/// stands as itself.
pub open spec fn json_escape_char(c: char) -> Seq<char> {
    if c == '"' {
        seq!['\\', '"']
    } else if c == '\\' {
        seq!['\\', '\\']
    } else if c == '\u{8}' {
        seq!['\\', 'b']
    } else if c == '\u{c}' {
        seq!['\\', 'f']
    } else if c == '\n' {
        seq!['\\', 'n']
    } else if c == '\r' {
        seq!['\\', 'r']
    } else if c == '\t' {
        seq!['\\', 't']
    } else if (c as u32) < 0x20 {
        seq!['\\', 'u', '0', '0', hex_digit((c as u32 / 16) as nat), hex_digit(
            (c as u32 % 16) as nat,
        )]
    } else {
        seq![c]
    }
}

/// A whole character sequence as it appears inside a JSON string.
pub open spec fn json_escape(s: Seq<char>) -> Seq<char>
    decreases s.len(),
{
    if s.len() == 0 {
        Seq::empty()
    } else {
        json_escape_char(s[0]) + json_escape(s.drop_first())
    }
}

/// Escaping distributes over appending one character at the end.
proof fn lemma_json_escape_push(s: Seq<char>, c: char)
    ensures
        json_escape(s.push(c)) == json_escape(s) + json_escape_char(c),
    decreases s.len(),
{
    if s.len() == 0 {
        assert(s.push(c)[0] == c);
        assert(s.push(c).drop_first() =~= Seq::<char>::empty());
        assert(json_escape(s.push(c)) == json_escape_char(c) + json_escape(
            Seq::<char>::empty(),
        ));
        assert(json_escape(s.push(c)) =~= json_escape(s) + json_escape_char(c));
    } else {
        assert(s.push(c)[0] == s[0]);
        assert(s.push(c).drop_first() =~= s.drop_first().push(c));
        assert(json_escape(s.push(c)) == json_escape_char(s[0]) + json_escape(
            s.drop_first().push(c),
        ));
        lemma_json_escape_push(s.drop_first(), c);
        assert(json_escape(s.push(c)) =~= json_escape(s) + json_escape_char(c));
    }
}

/// Escape a string for embedding inside a JSON string literal.
pub fn json_escape_str(s: &str) -> (r: String)
    ensures
        r@ == json_escape(s@),
{
    let len = s.unicode_len();
    let mut out = String::new();
    let mut i: usize = 0;
    while i < len
        invariant
            i <= len,
            len == s@.len(),
            out@ == json_escape(s@.subrange(0, i as int)),
        decreases len - i,
    {
        let ghost out_before = out@;
        let c = s.get_char(i);
        if c == '"' {
            out.append("\\\"");
            proof {
                reveal_strlit("\\\"");
                assert(out@ =~= out_before + json_escape_char(c));
            }
        } else if c == '\\' {
            out.append("\\\\");
            proof {
                reveal_strlit("\\\\");
                assert(out@ =~= out_before + json_escape_char(c));
            }
        } else if c == '\u{8}' {
            out.append("\\b");
            proof {
                reveal_strlit("\\b");
                assert(out@ =~= out_before + json_escape_char(c));
            }
        } else if c == '\u{c}' {
            out.append("\\f");
            proof {
                reveal_strlit("\\f");
                assert(out@ =~= out_before + json_escape_char(c));
            }
        } else if c == '\n' {
            out.append("\\n");
            proof {
                reveal_strlit("\\n");
                assert(out@ =~= out_before + json_escape_char(c));
            }
        } else if c == '\r' {
            out.append("\\r");
            proof {
                reveal_strlit("\\r");
                assert(out@ =~= out_before + json_escape_char(c));
            }
        } else if c == '\t' {
            out.append("\\t");
            proof {
                reveal_strlit("\\t");
                assert(out@ =~= out_before + json_escape_char(c));
            }
        } else if (c as u32) < 0x20 {
            out.append("\\u00");
            out.append(hex_digit_str(c as u32 / 16));
            out.append(hex_digit_str(c as u32 % 16));
            proof {
                reveal_strlit("\\u00");
                assert(out@ =~= out_before + json_escape_char(c));
            }
        } else {
            out.append(s.substring_char(i, i + 1));
            proof {
                assert(s@.subrange(i as int, i as int + 1) =~= seq![s@[i as int]]);
                assert(out@ =~= out_before + json_escape_char(c));
            }
        }
        proof {
            lemma_json_escape_push(s@.subrange(0, i as int), s@[i as int]);
            assert(s@.subrange(0, i as int + 1) =~= s@.subrange(0, i as int).push(s@[i as int]));
            assert(out@ =~= json_escape(s@.subrange(0, i as int + 1)));
        }
        i = i + 1;
    }
    proof {
        assert(s@.subrange(0, len as int) =~= s@);
    }
    out
}

/// The status of a response to the status protocol.
#[derive(Clone, Copy, Debug, PartialEq, Eq, Structural)]
pub enum HttpStatus {
    Success,
    ServiceUnavailable,
    NotFound,
}

/// The status line text of a response status.
pub open spec fn spec_status_text(status: HttpStatus) -> Seq<char> {
    match status {
        HttpStatus::Success => "200 OK"@,
        HttpStatus::ServiceUnavailable => "503 Service Unavailable"@,
        HttpStatus::NotFound => "404 Not Found"@,
    }
}

/// The status line text of a response status.
pub fn status_text(status: HttpStatus) -> (s: &'static str)
    ensures
        s@ == spec_status_text(status),
{
    match status {
        HttpStatus::Success => "200 OK",
        HttpStatus::ServiceUnavailable => "503 Service Unavailable",
        HttpStatus::NotFound => "404 Not Found",
    }
}

/// A full response: status line, the three fixed headers with the exact byte
/// length of the body, a blank line, and the body.
pub open spec fn spec_response(status: HttpStatus, body: Seq<char>) -> Seq<char> {
    "HTTP/1.1 "@ + spec_status_text(status)
        + "\r\nContent-Type: application/json\r\nCache-Control: no-store\r\nContent-Length: "@
        + dec_seq(encode_utf8(body).len()) + "\r\n\r\n"@ + body
}

/// Render a response with the three fixed headers and an exact
/// `Content-Length` computed from the body's byte length.
pub fn render_response(status: HttpStatus, body: &str) -> (resp: String)
    ensures
        resp@ == spec_response(status, body@),
{
    proof {
        reveal_strlit("HTTP/1.1 ");
        reveal_strlit(
            "\r\nContent-Type: application/json\r\nCache-Control: no-store\r\nContent-Length: ",
        );
        reveal_strlit("\r\n\r\n");
    }
    let bytes = body.as_bytes_vec();
    let body_len = bytes.len();
    let mut resp = "HTTP/1.1 ".to_owned();
    resp.append(status_text(status));
    resp.append(
        "\r\nContent-Type: application/json\r\nCache-Control: no-store\r\nContent-Length: ",
    );
    resp.append(u64_to_dec(body_len as u64).as_str());
    resp.append("\r\n\r\n");
    resp.append(body);
    proof {
        assert(resp@ =~= spec_response(status, body@));
    }
    resp
}

} // verus!
