//! The uniform result envelope: `{"result": <value>, "tool_name":
//! "<name>"}` on success, `{"error": "<text>", "tool_name": "<name>"}`
//! on failure, built as JSON text with verified string escaping.
//! This envelope, not a raw tool error, is what goes back to the
//! remote endpoint as a `Tool`-role message.

use vstd::prelude::*;

verus! {

use crate::text::string_from_chars;

/// The sixteen hexadecimal digit characters.
pub open spec fn hex_digit(n: int) -> char {
    seq![
        '0',
        '1',
        '2',
        '3',
        '4',
        '5',
        '6',
        '7',
        '8',
        '9',
        'a',
        'b',
        'c',
        'd',
        'e',
        'f',
    ][n]
}

/// How one character is written inside a JSON string literal: quote,
/// backslash and the named control characters get two-character
/// escapes, other control characters a `\u00..` escape, everything
/// else stands as it is.
pub open spec fn escape_char(c: char) -> Seq<char> {
    if c == '"' {
        seq!['\\', '"']
    } else if c == '\\' {
        seq!['\\', '\\']
    } else if c == '\n' {
        seq!['\\', 'n']
    } else if c == '\r' {
        seq!['\\', 'r']
    } else if c == '\t' {
        seq!['\\', 't']
    } else if c == '\u{0008}' {
        seq!['\\', 'b']
    } else if c == '\u{000c}' {
        seq!['\\', 'f']
    } else if (c as int) < 32 {
        seq!['\\', 'u', '0', '0', hex_digit((c as int) / 16), hex_digit((c as int) % 16)]
    } else {
        seq![c]
    }
}

/// A text escaped for inclusion in a JSON string literal.
pub open spec fn json_escaped(s: Seq<char>) -> Seq<char>
    decreases s.len(),
{
    if s.len() == 0 {
        Seq::empty()
    } else {
        escape_char(s[0]) + json_escaped(s.skip(1))
    }
}

/// Escaping one more character appends its escape.
proof fn lemma_json_escaped_snoc(s: Seq<char>, i: int)
    requires
        0 <= i < s.len(),
    ensures
        json_escaped(s.take(i + 1)) == json_escaped(s.take(i)) + escape_char(s[i]),
    decreases i,
{
    if i == 0 {
        assert(s.take(1)[0] == s[0]);
        assert(s.take(1).skip(1) =~= Seq::<char>::empty());
        assert(s.take(0) =~= Seq::<char>::empty());
        assert(json_escaped(Seq::<char>::empty()) =~= Seq::<char>::empty());
        assert(json_escaped(s.take(1)) == escape_char(s[0]) + Seq::<char>::empty());
        assert(escape_char(s[0]) + Seq::<char>::empty() =~= escape_char(s[0]));
        assert(Seq::<char>::empty() + escape_char(s[0]) =~= escape_char(s[0]));
    } else {
        lemma_json_escaped_snoc(s.skip(1), i - 1);
        assert(s.take(i + 1).skip(1) =~= s.skip(1).take(i));
        assert(s.take(i).skip(1) =~= s.skip(1).take(i - 1));
        assert(s.take(i + 1)[0] == s[0] && s.take(i)[0] == s[0]);
        assert(json_escaped(s.take(i + 1)) == escape_char(s[0]) + json_escaped(s.skip(1).take(i)));
        assert(json_escaped(s.take(i)) == escape_char(s[0]) + json_escaped(s.skip(1).take(i - 1)));
        assert(s.skip(1)[i - 1] == s[i]);
        assert(escape_char(s[0]) + (json_escaped(s.skip(1).take(i - 1)) + escape_char(s[i])) =~= (
        escape_char(s[0]) + json_escaped(s.skip(1).take(i - 1))) + escape_char(s[i]));
    }
}

/// Escapes a text for inclusion in a JSON string literal.
pub fn json_escape(s: &str) -> (r: String)
    ensures
        r@ == json_escaped(s@),
{
    let len = s.unicode_len();
    let mut out: Vec<char> = Vec::new();
    let mut i: usize = 0;
    proof {
        assert(s@.take(0) =~= Seq::<char>::empty());
    }
    while i < len
        invariant
            len == s@.len(),
            i <= len,
            out@ == json_escaped(s@.take(i as int)),
        decreases len - i,
    {
        let c = s.get_char(i);
        if c == '"' {
            out.push('\\');
            out.push('"');
        } else if c == '\\' {
            out.push('\\');
            out.push('\\');
        } else if c == '\n' {
            out.push('\\');
            out.push('n');
        } else if c == '\r' {
            out.push('\\');
            out.push('r');
        } else if c == '\t' {
            out.push('\\');
            out.push('t');
        } else if c == '\u{0008}' {
            out.push('\\');
            out.push('b');
        } else if c == '\u{000c}' {
            out.push('\\');
            out.push('f');
        } else if (c as u32) < 32 {
            out.push('\\');
            out.push('u');
            out.push('0');
            out.push('0');
            let n = c as u32;
            out.push(hex_digit_char((n / 16) as u8));
            out.push(hex_digit_char((n % 16) as u8));
        } else {
            out.push(c);
        }
        proof {
            lemma_json_escaped_snoc(s@, i as int);
            assert(out@ =~= json_escaped(s@.take(i as int)) + escape_char(s@[i as int]));
        }
        i = i + 1;
    }
    proof {
        assert(s@.take(len as int) =~= s@);
    }
    string_from_chars(out)
}

/// The hexadecimal digit for a value below sixteen.
fn hex_digit_char(n: u8) -> (r: char)
    requires
        n < 16,
    ensures
        r == hex_digit(n as int),
{
    if n == 0 {
        '0'
    } else if n == 1 {
        '1'
    } else if n == 2 {
        '2'
    } else if n == 3 {
        '3'
    } else if n == 4 {
        '4'
    } else if n == 5 {
        '5'
    } else if n == 6 {
        '6'
    } else if n == 7 {
        '7'
    } else if n == 8 {
        '8'
    } else if n == 9 {
        '9'
    } else if n == 10 {
        'a'
    } else if n == 11 {
        'b'
    } else if n == 12 {
        'c'
    } else if n == 13 {
        'd'
    } else if n == 14 {
        'e'
    } else {
        'f'
    }
}

/// The success envelope: the tool's JSON result under `result`, the
/// tool's name under `tool_name`, keys in lexicographic order.
pub open spec fn envelope_ok(tool_name: Seq<char>, result_json: Seq<char>) -> Seq<char> {
    "{\"result\":"@ + result_json + ",\"tool_name\":\""@ + json_escaped(tool_name) + "\"}"@
}

/// The failure envelope: the error text under `error`, the tool's name
/// under `tool_name`, keys in lexicographic order.
pub open spec fn envelope_err(tool_name: Seq<char>, error: Seq<char>) -> Seq<char> {
    "{\"error\":\""@ + json_escaped(error) + "\",\"tool_name\":\""@ + json_escaped(tool_name)
        + "\"}"@
}

/// Normalizes a tool outcome into the uniform envelope.  `result` is
/// the tool's result as JSON text and is taken verbatim; an error is
/// quoted as a JSON string.
pub fn format_tool_result(tool_name: &str, result: &str, error: Option<&str>) -> (r: String)
    ensures
        error matches Some(e) ==> r@ == envelope_err(tool_name@, e@),
        error is None ==> r@ == envelope_ok(tool_name@, result@),
{
    match error {
        Some(e) => {
            let mut s = String::from_str("{\"error\":\"");
            let escaped = json_escape(e);
            s.append(escaped.as_str());
            s.append("\",\"tool_name\":\"");
            let name = json_escape(tool_name);
            s.append(name.as_str());
            s.append("\"}");
            s
        },
        None => {
            let mut s = String::from_str("{\"result\":");
            s.append(result);
            s.append(",\"tool_name\":\"");
            let name = json_escape(tool_name);
            s.append(name.as_str());
            s.append("\"}");
            s
        },
    }
}

} // verus!
