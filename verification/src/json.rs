//! Building the JSON bodies that the service returns. The only body with
//! dynamic content is the echo of a created link; its two string fields
//! are JSON-escaped character by character, and the exact text produced is
//! stated by [`link_json_spec`].

use vstd::prelude::*;
use vstd::string::StrSliceExecFns;
use crate::model::Link;

verus! {

/// The lower-case hexadecimal digit for `n`, which must lie in 0..16.
pub open spec fn hex_digit(n: int) -> char {
    if n == 0 {
        '0'
    } else if n == 1 {
        '1'
    } else if n == 2 {
        '2'
    } else if n == 3 {
        '3'
    } else if n == 4 {
        '4'
    } else if n == 5 {
        '5'
    } else if n == 6 {
        '6'
    } else if n == 7 {
        '7'
    } else if n == 8 {
        '8'
    } else if n == 9 {
        '9'
    } else if n == 10 {
        'a'
    } else if n == 11 {
        'b'
    } else if n == 12 {
        'c'
    } else if n == 13 {
        'd'
    } else if n == 14 {
        'e'
    } else {
        'f'
    }
}

/// How a single character appears inside a JSON string literal: quotes and
/// backslashes get a backslash escape, the named control characters get
/// their short escapes, every other control character becomes `\u00..`,
/// and all remaining characters stand for themselves.
pub open spec fn escaped_char(c: char) -> Seq<char> {
    if c == '"' {
        seq!['\\', '"']
    } else if c == '\\' {
        seq!['\\', '\\']
    } else if c == '\x08' {
        seq!['\\', 'b']
    } else if c == '\t' {
        seq!['\\', 't']
    } else if c == '\n' {
        seq!['\\', 'n']
    } else if c == '\x0c' {
        seq!['\\', 'f']
    } else if c == '\r' {
        seq!['\\', 'r']
    } else if c <= '\x1f' {
        seq!['\\', 'u', '0', '0', hex_digit(c as u32 as int / 16), hex_digit(c as u32 as int % 16)]
    } else {
        seq![c]
    }
}

/// A whole string as it appears inside a JSON string literal.
pub open spec fn escaped(s: Seq<char>) -> Seq<char>
    decreases s.len(),
{
    if s.len() == 0 {
        Seq::empty()
    } else {
        escaped(s.drop_last()) + escaped_char(s.last())
    }
}

/// The JSON object echoing a stored link: `{"id":"..","url":".."}` with
/// both fields escaped.
pub open spec fn link_json_spec(id: Seq<char>, url: Seq<char>) -> Seq<char> {
    "{\"id\":\""@ + escaped(id) + "\",\"url\":\""@ + escaped(url) + "\"}"@
}

fn hex_digit_exec(n: u32) -> (c: char)
    requires
        n < 16,
    ensures
        c == hex_digit(n as int),
{
    if n == 0 {
        '0'
    } else if n == 1 {
        '1'
    } else if n == 2 {
        '2'
    } else if n == 3 {
        '3'
    } else if n == 4 {
        '4'
    } else if n == 5 {
        '5'
    } else if n == 6 {
        '6'
    } else if n == 7 {
        '7'
    } else if n == 8 {
        '8'
    } else if n == 9 {
        '9'
    } else if n == 10 {
        'a'
    } else if n == 11 {
        'b'
    } else if n == 12 {
        'c'
    } else if n == 13 {
        'd'
    } else if n == 14 {
        'e'
    } else {
        'f'
    }
}

fn push_escaped_char(out: &mut Vec<char>, c: char)
    ensures
        final(out)@ == old(out)@ + escaped_char(c),
{
    if c == '"' {
        out.push('\\');
        out.push('"');
    } else if c == '\\' {
        out.push('\\');
        out.push('\\');
    } else if c == '\x08' {
        out.push('\\');
        out.push('b');
    } else if c == '\t' {
        out.push('\\');
        out.push('t');
    } else if c == '\n' {
        out.push('\\');
        out.push('n');
    } else if c == '\x0c' {
        out.push('\\');
        out.push('f');
    } else if c == '\r' {
        out.push('\\');
        out.push('r');
    } else if c <= '\x1f' {
        let n = c as u32;
        out.push('\\');
        out.push('u');
        out.push('0');
        out.push('0');
        out.push(hex_digit_exec(n / 16));
        out.push(hex_digit_exec(n % 16));
    } else {
        out.push(c);
    }
    proof {
        assert(out@ =~= old(out)@ + escaped_char(c));
    }
}

fn push_chars(out: &mut Vec<char>, s: &str)
    ensures
        final(out)@ == old(out)@ + s@,
{
    let ghost orig = out@;
    let len = s.unicode_len();
    let mut i: usize = 0;
    proof {
        assert(out@ =~= orig + s@.subrange(0, 0));
    }
    while i < len
        invariant
            len == s@.len(),
            i <= len,
            out@ == orig + s@.subrange(0, i as int),
        decreases len - i,
    {
        out.push(s.get_char(i));
        proof {
            assert(orig + s@.subrange(0, i as int + 1) =~= (orig + s@.subrange(0, i as int)).push(
                s@[i as int],
            ));
        }
        i = i + 1;
    }
    proof {
        assert(s@.subrange(0, len as int) =~= s@);
    }
}

fn push_escaped(out: &mut Vec<char>, s: &str)
    ensures
        final(out)@ == old(out)@ + escaped(s@),
{
    let ghost orig = out@;
    let len = s.unicode_len();
    let mut i: usize = 0;
    proof {
        assert(out@ =~= orig + escaped(s@.subrange(0, 0)));
    }
    while i < len
        invariant
            len == s@.len(),
            i <= len,
            out@ == orig + escaped(s@.subrange(0, i as int)),
        decreases len - i,
    {
        push_escaped_char(out, s.get_char(i));
        proof {
            let pre = s@.subrange(0, i as int);
            let post = s@.subrange(0, i as int + 1);
            assert(post.drop_last() =~= pre);
            assert(post.last() == s@[i as int]);
            assert(orig + escaped(post) =~= (orig + escaped(pre)) + escaped_char(s@[i as int]));
        }
        i = i + 1;
    }
    proof {
        assert(s@.subrange(0, len as int) =~= s@);
    }
}

/// Relies on `String`'s `FromIterator` implementation for `char`:
/// collecting the characters of a vector yields the string holding exactly
/// those characters, in order.
#[verifier::external_body]
fn chars_to_string(v: Vec<char>) -> (r: String)
    ensures
        r@ == v@,
{
    v.into_iter().collect()
}

/// The body of a successful create response: the stored link echoed as
/// JSON, with both fields escaped.
pub fn link_json(link: &Link) -> (r: String)
    ensures
        r@ == link_json_spec(link.id@, link.url@),
{
    let mut out: Vec<char> = Vec::new();
    push_chars(&mut out, "{\"id\":\"");
    push_escaped(&mut out, link.id.as_str());
    push_chars(&mut out, "\",\"url\":\"");
    push_escaped(&mut out, link.url.as_str());
    push_chars(&mut out, "\"}");
    proof {
        assert(out@ =~= link_json_spec(link.id@, link.url@));
    }
    chars_to_string(out)
}

} // verus!
