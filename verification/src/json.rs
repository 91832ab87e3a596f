//! Verified JSON rendering for the pieces of the wire format: escaped
//! string literals and arrays of string literals. The output is compact
//! (no whitespace between tokens).

use vstd::prelude::*;
use vstd::string::StrSliceExecFns;

use crate::text::push_char;

verus! {

/// The lowercase hexadecimal digit character for a value below sixteen.
pub open spec fn hex_digit(d: int) -> char {
    if d < 10 {
        crate::text::digit_char(d)
    } else if d == 10 {
        'a'
    } else if d == 11 {
        'b'
    } else if d == 12 {
        'c'
    } else if d == 13 {
        'd'
    } else if d == 14 {
        'e'
    } else {
        'f'
    }
}

/// How one character appears inside a JSON string literal: quotes,
/// backslashes and control characters are escaped, everything else is
/// kept as it is.
pub open spec fn escaped_char(c: char) -> Seq<char> {
    if c == '"' {
        seq!['\\', '"']
    } else if c == '\\' {
        seq!['\\', '\\']
    } else if c == '\n' {
        seq!['\\', 'n']
    } else if c == '\r' {
        seq!['\\', 'r']
    } else if c == '\t' {
        seq!['\\', 't']
    } else if c == '\u{8}' {
        seq!['\\', 'b']
    } else if c == '\u{c}' {
        seq!['\\', 'f']
    } else if (c as u32) < 32 {
        seq!['\\', 'u', '0', '0', hex_digit(c as u32 as int / 16), hex_digit(c as u32 as int % 16)]
    } else {
        seq![c]
    }
}

/// The body of a JSON string literal: every character escaped in order.
pub open spec fn json_escaped(s: Seq<char>) -> Seq<char>
    decreases s.len(),
{
    if s.len() == 0 {
        Seq::empty()
    } else {
        json_escaped(s.drop_last()) + escaped_char(s.last())
    }
}

/// A JSON string literal: the escaped body between double quotes.
pub open spec fn json_string(s: Seq<char>) -> Seq<char> {
    seq!['"'] + json_escaped(s) + seq!['"']
}

/// A JSON array of string literals, separated by commas.
pub open spec fn json_string_array(elems: Seq<Seq<char>>) -> Seq<char> {
    seq!['['] + json_string_array_items(elems) + seq![']']
}

/// The comma-separated items of a JSON array of string literals.
pub open spec fn json_string_array_items(elems: Seq<Seq<char>>) -> Seq<char>
    decreases elems.len(),
{
    if elems.len() == 0 {
        Seq::empty()
    } else if elems.len() == 1 {
        json_string(elems[0])
    } else {
        json_string_array_items(elems.drop_last()) + seq![','] + json_string(elems.last())
    }
}

fn hex_digit_exec(d: u32) -> (c: char)
    requires
        d < 16,
    ensures
        c == hex_digit(d as int),
{
    match d {
        0 => '0',
        1 => '1',
        2 => '2',
        3 => '3',
        4 => '4',
        5 => '5',
        6 => '6',
        7 => '7',
        8 => '8',
        9 => '9',
        10 => 'a',
        11 => 'b',
        12 => 'c',
        13 => 'd',
        14 => 'e',
        _ => 'f',
    }
}

fn push_escaped_char(out: &mut String, c: char)
    ensures
        final(out)@ == old(out)@ + escaped_char(c),
{
    if c == '"' {
        push_char(out, '\\');
        push_char(out, '"');
        assert(old(out)@.push('\\').push('"') =~= old(out)@ + escaped_char(c));
    } else if c == '\\' {
        push_char(out, '\\');
        push_char(out, '\\');
        assert(old(out)@.push('\\').push('\\') =~= old(out)@ + escaped_char(c));
    } else if c == '\n' {
        push_char(out, '\\');
        push_char(out, 'n');
        assert(old(out)@.push('\\').push('n') =~= old(out)@ + escaped_char(c));
    } else if c == '\r' {
        push_char(out, '\\');
        push_char(out, 'r');
        assert(old(out)@.push('\\').push('r') =~= old(out)@ + escaped_char(c));
    } else if c == '\t' {
        push_char(out, '\\');
        push_char(out, 't');
        assert(old(out)@.push('\\').push('t') =~= old(out)@ + escaped_char(c));
    } else if c == '\u{8}' {
        push_char(out, '\\');
        push_char(out, 'b');
        assert(old(out)@.push('\\').push('b') =~= old(out)@ + escaped_char(c));
    } else if c == '\u{c}' {
        push_char(out, '\\');
        push_char(out, 'f');
        assert(old(out)@.push('\\').push('f') =~= old(out)@ + escaped_char(c));
    } else if (c as u32) < 32 {
        let code: u32 = c as u32;
        push_char(out, '\\');
        push_char(out, 'u');
        push_char(out, '0');
        push_char(out, '0');
        push_char(out, hex_digit_exec(code / 16));
        push_char(out, hex_digit_exec(code % 16));
        assert(old(out)@.push('\\').push('u').push('0').push('0').push(
            hex_digit(code as int / 16),
        ).push(hex_digit(code as int % 16)) =~= old(out)@ + escaped_char(c));
    } else {
        push_char(out, c);
        assert(old(out)@.push(c) =~= old(out)@ + escaped_char(c));
    }
}

/// Appends the escaped body of a JSON string literal for `s`.
pub(crate) fn push_json_escaped(out: &mut String, s: &str)
    ensures
        final(out)@ == old(out)@ + json_escaped(s@),
{
    let n = s.unicode_len();
    let mut i: usize = 0;
    assert(s@.take(0) =~= Seq::<char>::empty());
    while i < n
        invariant
            n == s@.len(),
            i <= n,
            out@ == old(out)@ + json_escaped(s@.take(i as int)),
        decreases n - i,
    {
        let c = s.get_char(i);
        push_escaped_char(out, c);
        proof {
            let t = s@.take(i + 1 as int);
            assert(t.drop_last() =~= s@.take(i as int));
            assert(out@ =~= old(out)@ + json_escaped(t));
        }
        i = i + 1;
    }
    assert(s@.take(n as int) =~= s@);
}

/// Appends the JSON string literal for `s`.
pub(crate) fn push_json_string(out: &mut String, s: &str)
    ensures
        final(out)@ == old(out)@ + json_string(s@),
{
    push_char(out, '"');
    push_json_escaped(out, s);
    push_char(out, '"');
    assert((old(out)@.push('"') + json_escaped(s@)).push('"') =~= old(out)@ + json_string(s@));
}

/// Appends the JSON array of string literals for `elems`.
pub(crate) fn push_json_string_array(out: &mut String, elems: &Vec<String>)
    ensures
        final(out)@ == old(out)@ + json_string_array(crate::text::views_of_strs(elems@)),
{
    let ghost vs = crate::text::views_of_strs(elems@);
    push_char(out, '[');
    let mut i: usize = 0;
    while i < elems.len()
        invariant
            elems@.len() == vs.len(),
            forall|j: int| 0 <= j < vs.len() ==> vs[j] == elems@[j]@,
            i <= elems.len(),
            out@ == old(out)@.push('[') + json_string_array_items(vs.take(i as int)),
        decreases elems.len() - i,
    {
        if i > 0 {
            push_char(out, ',');
        }
        push_json_string(out, elems[i].as_str());
        proof {
            let t = vs.take(i + 1 as int);
            assert(t.drop_last() =~= vs.take(i as int));
            assert(t.last() == vs[i as int]);
            if i == 0 {
                assert(json_string_array_items(vs.take(0)) =~= Seq::<char>::empty());
                assert(out@ =~= old(out)@.push('[') + json_string_array_items(t));
            } else {
                assert(out@ =~= old(out)@.push('[') + json_string_array_items(t));
            }
        }
        i = i + 1;
    }
    push_char(out, ']');
    proof {
        assert(vs.take(vs.len() as int) =~= vs);
        assert((old(out)@.push('[') + json_string_array_items(vs)).push(']') =~= old(out)@
            + json_string_array(vs));
    }
}

} // verus!
