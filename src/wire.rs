//! Response lines of the wire protocol: one compact JSON object per line,
//! `{"status":"ok","value":...}` or `{"status":"error","message":...}`.
use vstd::prelude::*;
use vstd::string::StringExecFns;

use crate::command::Response;

verus! {

/// The lower-case hexadecimal digit of `n`, for `n < 16`.
pub open spec fn hex_digit(n: u32) -> char {
    seq!['0', '1', '2', '3', '4', '5', '6', '7', '8', '9', 'a', 'b', 'c', 'd', 'e', 'f'][n as int]
}

/// How one character stands inside a JSON string literal: the quote, the
/// backslash and the control characters are escaped, short forms where JSON
/// has them and `\u00XX` otherwise; every other character stands for itself.
pub open spec fn json_escaped_char(c: char) -> Seq<char> {
    if c == '"' {
        seq!['\\', '"']
    } else if c == '\\' {
        seq!['\\', '\\']
    } else if c == '\u{8}' {
        seq!['\\', 'b']
    } else if c == '\t' {
        seq!['\\', 't']
    } else if c == '\n' {
        seq!['\\', 'n']
    } else if c == '\u{c}' {
        seq!['\\', 'f']
    } else if c == '\r' {
        seq!['\\', 'r']
    } else if (c as u32) < 0x20 {
        seq!['\\', 'u', '0', '0', hex_digit((c as u32) / 16), hex_digit((c as u32) % 16)]
    } else {
        seq![c]
    }
}

/// The characters of `s`, each escaped.
pub open spec fn json_escaped(s: Seq<char>) -> Seq<char>
    decreases s.len(),
{
    if s.len() == 0 {
        Seq::empty()
    } else {
        json_escaped(s.drop_last()) + json_escaped_char(s.last())
    }
}

/// The JSON string literal, quotes and escapes included, that stands for `s`.
pub open spec fn json_quoted(s: Seq<char>) -> Seq<char> {
    seq!['"'] + json_escaped(s) + seq!['"']
}

/// Relies on serde_json's `Value::String` and its `Display`: the compact JSON
/// string literal for `s`, escaped as `format_escaped_str_contents` and its
/// `ESCAPE` table do.
#[verifier::external_body]
fn quote_json(s: &str) -> (r: String)
    ensures
        r@ == json_quoted(s@),
{
    serde_json::Value::String(s.to_owned()).to_string()
}

/// The line, newline included, that carries `resp`.
pub open spec fn response_line(resp: Response) -> Seq<char> {
    match resp {
        Response::Success { value } => "{\"status\":\"ok\",\"value\":"@ + json_quoted(value@)
            + "}\n"@,
        Response::Error { message } => "{\"status\":\"error\",\"message\":"@ + json_quoted(
            message@,
        ) + "}\n"@,
    }
}

/// No escaped text holds a line break.
proof fn lemma_escaped_has_no_newline(s: Seq<char>)
    ensures
        forall|i: int| 0 <= i < json_escaped(s).len() ==> json_escaped(s)[i] != '\n',
    decreases s.len(),
{
    if s.len() > 0 {
        lemma_escaped_has_no_newline(s.drop_last());
        let c = s.last();
        let e = json_escaped_char(c);
        if (c as u32) < 0x20 && c != '\u{8}' && c != '\t' && c != '\n' && c != '\u{c}' && c
            != '\r' {
            assert((c as u32) / 16 < 16);
            assert(e[4] != '\n');
            assert(e[5] != '\n');
        }
        assert forall|i: int| 0 <= i < e.len() implies e[i] != '\n' by {}
        let whole = json_escaped(s);
        let front = json_escaped(s.drop_last());
        assert forall|i: int| 0 <= i < whole.len() implies whole[i] != '\n' by {
            if i < front.len() {
                assert(whole[i] == front[i]);
            } else {
                assert(whole[i] == e[i - front.len()]);
            }
        }
    }
}

/// A response line ends with its only line break, so that it is exactly
/// one line of the protocol, whatever the value or message it carries.
pub proof fn lemma_response_line_is_one_line(resp: Response)
    ensures
        response_line(resp).len() > 0,
        response_line(resp).last() == '\n',
        forall|i: int| 0 <= i < response_line(resp).len() - 1 ==> response_line(resp)[i] != '\n',
{
    reveal_strlit("{\"status\":\"ok\",\"value\":");
    reveal_strlit("{\"status\":\"error\",\"message\":");
    reveal_strlit("}\n");
    let (head, payload) = match resp {
        Response::Success { value } => ("{\"status\":\"ok\",\"value\":"@, value@),
        Response::Error { message } => ("{\"status\":\"error\",\"message\":"@, message@),
    };
    lemma_escaped_has_no_newline(payload);
    let q = json_quoted(payload);
    let line = response_line(resp);
    assert(line == head + q + "}\n"@);
    assert forall|i: int| 0 <= i < line.len() - 1 implies line[i] != '\n' by {
        if i < head.len() {
            assert(line[i] == head[i]);
        } else if i < head.len() + q.len() {
            assert(line[i] == q[i - head.len()]);
            if i - head.len() > 0 && i - head.len() < q.len() - 1 {
                assert(q[i - head.len()] == json_escaped(payload)[i - head.len() - 1]);
            }
        } else {
            assert(line[i] == "}\n"@[i - head.len() - q.len()]);
        }
    }
}

impl Response {
    /// This response as one line of the wire protocol.
    pub fn to_line(&self) -> (r: String)
        ensures
            r@ == response_line(*self),
    {
        let (mut line, payload) = match self {
            Response::Success { value } => ("{\"status\":\"ok\",\"value\":".to_owned(), value),
            Response::Error { message } => (
                "{\"status\":\"error\",\"message\":".to_owned(),
                message,
            ),
        };
        let quoted = quote_json(payload.as_str());
        line.append(quoted.as_str());
        line.append("}\n");
        line
    }
}

} // verus!
