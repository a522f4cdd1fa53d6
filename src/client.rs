//! The client's command surface: `set <key> <value...>`, `get <key>` and
//! `del <key>`, typed one per line.
use vstd::prelude::*;
use vstd::string::StringExecFns;

use crate::command::Command;

verus! {

/// The words of `s`, in order.
pub uninterp spec fn whitespace_words(s: Seq<char>) -> Seq<Seq<char>>;

/// Relies on `str::split_whitespace`: the words of `s` as split at Unicode
/// white space, which depend on `s` alone.
#[verifier::external_body]
fn split_words(s: &str) -> (r: Vec<String>)
    ensures
        r@.map_values(|w: String| w@) == whitespace_words(s@),
{
    s.split_whitespace().map(String::from).collect()
}

/// The words joined by single spaces.
pub open spec fn joined(ws: Seq<Seq<char>>) -> Seq<char>
    decreases ws.len(),
{
    if ws.len() == 0 {
        Seq::empty()
    } else if ws.len() == 1 {
        ws[0]
    } else {
        joined(ws.drop_last()) + " "@ + ws.last()
    }
}

/// `r` is what the words `ws` ask for: a set whose value is the third word
/// on, joined by single spaces; a get or a delete of one key; nothing for
/// anything else.
pub open spec fn parses(ws: Seq<Seq<char>>, r: Option<Command>) -> bool {
    if ws.len() >= 3 && ws[0] == "set"@ {
        r matches Some(Command::SetValue { key, value }) && key@ == ws[1] && value@ == joined(
            ws.subrange(2, ws.len() as int),
        )
    } else if ws.len() == 2 && ws[0] == "get"@ {
        r matches Some(Command::Get { key }) && key@ == ws[1]
    } else if ws.len() == 2 && ws[0] == "del"@ {
        r matches Some(Command::Del { key }) && key@ == ws[1]
    } else {
        r is None
    }
}

/// The words `words[from..]` joined by single spaces.
fn join_from(words: &Vec<String>, from: usize) -> (r: String)
    requires
        from < words@.len(),
    ensures
        r@ == joined(words@.map_values(|w: String| w@).subrange(from as int, words@.len() as int)),
{
    let ghost ws = words@.map_values(|w: String| w@);
    let n = words.len();
    let mut out = words[from].clone();
    let mut i: usize = from + 1;
    proof {
        assert(ws.subrange(from as int, i as int) =~= seq![ws[from as int]]);
    }
    while i < n
        invariant
            n == words@.len(),
            from < i <= n,
            ws == words@.map_values(|w: String| w@),
            out@ == joined(ws.subrange(from as int, i as int)),
        decreases words@.len() - i,
    {
        out.append(" ");
        out.append(words[i].as_str());
        proof {
            let next = ws.subrange(from as int, i + 1);
            assert(next.drop_last() =~= ws.subrange(from as int, i as int));
            assert(next.last() == ws[i as int]);
        }
        i = i + 1;
    }
    out
}

/// The command that a line split into `words` asks for, if any.
pub fn parse_words(words: &Vec<String>) -> (r: Option<Command>)
    ensures
        parses(words@.map_values(|w: String| w@), r),
{
    let ghost ws = words@.map_values(|w: String| w@);
    if words.len() == 0 {
        return None;
    }
    let set = "set".to_owned();
    let get = "get".to_owned();
    let del = "del".to_owned();
    if words[0] == set && words.len() >= 3 {
        Some(Command::SetValue { key: words[1].clone(), value: join_from(words, 2) })
    } else if words[0] == get && words.len() == 2 {
        Some(Command::Get { key: words[1].clone() })
    } else if words[0] == del && words.len() == 2 {
        Some(Command::Del { key: words[1].clone() })
    } else {
        None
    }
}

/// Whether the words of a line are `exit` or `quit` alone, which end an
/// interactive session without a request.
pub open spec fn is_farewell(ws: Seq<Seq<char>>) -> bool {
    ws.len() == 1 && (ws[0] == "exit"@ || ws[0] == "quit"@)
}

/// Whether the line `input`, white space around it aside, is `exit` or
/// `quit`.
pub fn ends_session(input: &str) -> (r: bool)
    ensures
        r == is_farewell(whitespace_words(input@)),
{
    let words = split_words(input);
    let exit = "exit".to_owned();
    let quit = "quit".to_owned();
    words.len() == 1 && (words[0] == exit || words[0] == quit)
}

/// The command that the line `input` asks for, if any.
pub fn parse_input(input: &str) -> (r: Option<Command>)
    ensures
        parses(whitespace_words(input@), r),
{
    let words = split_words(input);
    parse_words(&words)
}

} // verus!
