use vstd::prelude::*;
use vstd::string::*;
use crate::json::{JVal, JsonValue, jval_of, jvals_of, jentries_of, lemma_jvals_of_len,
    lemma_jentries_of_len};

verus! {

broadcast use crate::json::lemma_jvals_of_len, crate::json::lemma_jvals_of_index,
    crate::json::lemma_jentries_of_len, crate::json::lemma_jentries_of_index,
    vstd::std_specs::vec::group_vec_axioms, vstd::seq::group_seq_axioms;

/// Relies on std's `String::push`: appends exactly the one character.
#[verifier::external_body]
pub(crate) fn push_char(s: &mut String, c: char)
    ensures
        final(s)@ == old(s)@.push(c),
{
    s.push(c);
}

/// Character-for-character equality of two string slices.
pub fn str_eq(a: &str, b: &str) -> (r: bool)
    ensures
        r == (a@ == b@),
{
    let alen = a.unicode_len();
    let blen = b.unicode_len();
    if alen != blen {
        return false;
    }
    let mut i: usize = 0;
    while i < alen
        invariant
            alen == a@.len(),
            blen == b@.len(),
            alen == blen,
            0 <= i <= alen,
            forall|j: int| 0 <= j < i ==> a@[j] == b@[j],
        decreases alen - i,
    {
        if a.get_char(i) != b.get_char(i) {
            return false;
        }
        i += 1;
    }
    proof {
        assert(a@ =~= b@);
    }
    true
}

/// The needle occurs in the haystack starting at position `i`.
pub open spec fn seq_contains_at(h: Seq<char>, n: Seq<char>, i: int) -> bool {
    0 <= i && i + n.len() <= h.len() && h.subrange(i, i + n.len()) == n
}

/// The needle occurs somewhere in the haystack.
pub open spec fn seq_contains(h: Seq<char>, n: Seq<char>) -> bool {
    exists|i: int| seq_contains_at(h, n, i)
}

/// Substring search, the contract stated over character sequences.
pub fn contains_substr(h: &str, n: &str) -> (r: bool)
    ensures
        r == seq_contains(h@, n@),
{
    let hlen = h.unicode_len();
    let nlen = n.unicode_len();
    if nlen > hlen {
        return false;
    }
    if nlen == 0 {
        proof {
            assert(h@.subrange(0, 0) =~= n@);
            assert(seq_contains_at(h@, n@, 0));
        }
        return true;
    }
    let mut i: usize = 0;
    while i <= hlen - nlen
        invariant
            hlen == h@.len(),
            nlen == n@.len(),
            1 <= nlen <= hlen,
            0 <= i <= hlen - nlen + 1,
            forall|k: int| 0 <= k < i ==> !seq_contains_at(h@, n@, k),
        decreases hlen - i,
    {
        let mut j: usize = 0;
        let mut matched = true;
        while j < nlen
            invariant
                hlen == h@.len(),
                nlen == n@.len(),
                nlen <= hlen,
                0 <= i <= hlen - nlen,
                0 <= j <= nlen,
                matched ==> forall|m: int| 0 <= m < j ==> h@[i + m] == n@[m],
                !matched ==> !seq_contains_at(h@, n@, i as int),
            decreases nlen - j,
        {
            if matched {
                if h.get_char(i + j) != n.get_char(j) {
                    proof {
                        let sub = h@.subrange(i as int, i + n@.len());
                        assert(sub[j as int] == h@[i + j]);
                    }
                    matched = false;
                }
            }
            j += 1;
        }
        if matched {
            proof {
                assert(h@.subrange(i as int, i + n@.len()) =~= n@);
                assert(seq_contains_at(h@, n@, i as int));
            }
            return true;
        }
        i += 1;
    }
    proof {
        assert forall|k: int| seq_contains_at(h@, n@, k) implies false by {
            assert(0 <= k < i);
        }
    }
    false
}

/// The decimal digit character for `d` (`d` below ten).
pub open spec fn digit_char_spec(d: nat) -> char {
    if d == 0 { '0' } else if d == 1 { '1' } else if d == 2 { '2' } else if d == 3 { '3' }
    else if d == 4 { '4' } else if d == 5 { '5' } else if d == 6 { '6' } else if d == 7 { '7' }
    else if d == 8 { '8' } else { '9' }
}

/// The decimal digits of `n`, most significant first.
pub open spec fn dec_digits(n: nat) -> Seq<char>
    decreases n,
{
    if n < 10 {
        seq![digit_char_spec(n)]
    } else {
        dec_digits(n / 10).push(digit_char_spec(n % 10))
    }
}

/// The decimal rendering of an integer, with a leading minus sign when negative.
pub open spec fn int_text(i: int) -> Seq<char> {
    if i < 0 {
        seq!['-'] + dec_digits((-i) as nat)
    } else {
        dec_digits(i as nat)
    }
}

fn digit_char(d: u32) -> (c: char)
    requires
        d < 10,
    ensures
        c == digit_char_spec(d as nat),
{
    if d == 0 { '0' } else if d == 1 { '1' } else if d == 2 { '2' } else if d == 3 { '3' }
    else if d == 4 { '4' } else if d == 5 { '5' } else if d == 6 { '6' } else if d == 7 { '7' }
    else if d == 8 { '8' } else { '9' }
}

fn write_u32_dec(n: u32, out: &mut String)
    ensures
        final(out)@ == old(out)@ + dec_digits(n as nat),
    decreases n,
{
    if n < 10 {
        push_char(out, digit_char(n));
        proof {
            assert(final(out)@ =~= old(out)@ + dec_digits(n as nat));
        }
    } else {
        write_u32_dec(n / 10, out);
        push_char(out, digit_char(n % 10));
        proof {
            assert(final(out)@ =~= old(out)@ + dec_digits(n as nat));
        }
    }
}

/// Appends the decimal rendering of `n` to `out`.
pub fn write_i32_dec(n: i32, out: &mut String)
    ensures
        final(out)@ == old(out)@ + int_text(n as int),
{
    if n < 0 {
        push_char(out, '-');
        let wide: i64 = -(n as i64);
        let m: u32 = wide as u32;
        proof {
            assert(m as nat == (-(n as int)) as nat);
        }
        write_u32_dec(m, out);
        proof {
            assert(final(out)@ =~= old(out)@ + int_text(n as int));
        }
    } else {
        write_u32_dec(n as u32, out);
    }
}

/// The decimal rendering of `n` as a fresh string.
pub fn i32_to_string(n: i32) -> (r: String)
    ensures
        r@ == int_text(n as int),
{
    let mut out = String::new();
    write_i32_dec(n, &mut out);
    proof {
        assert(out@ =~= int_text(n as int));
    }
    out
}

/// The lower-case hexadecimal digit character for `d` (`d` below sixteen).
pub open spec fn hex_char_spec(d: nat) -> char {
    if d < 10 {
        digit_char_spec(d)
    } else if d == 10 { 'a' } else if d == 11 { 'b' } else if d == 12 { 'c' }
    else if d == 13 { 'd' } else if d == 14 { 'e' } else { 'f' }
}

fn hex_char(d: u32) -> (c: char)
    requires
        d < 16,
    ensures
        c == hex_char_spec(d as nat),
{
    if d < 10 { digit_char(d) } else if d == 10 { 'a' } else if d == 11 { 'b' }
    else if d == 12 { 'c' } else if d == 13 { 'd' } else if d == 14 { 'e' } else { 'f' }
}

/// How one character appears inside a JSON string literal: the quote and the
/// backslash get a backslash escape, control characters get their short escape
/// or a `\u00..` escape with lower-case hex digits, everything else stands as
/// itself. This matches what serde_json writes.
pub open spec fn escape_char(c: char) -> Seq<char> {
    if c == '"' { seq!['\\', '"'] }
    else if c == '\\' { seq!['\\', '\\'] }
    else if c == '\u{8}' { seq!['\\', 'b'] }
    else if c == '\t' { seq!['\\', 't'] }
    else if c == '\n' { seq!['\\', 'n'] }
    else if c == '\u{c}' { seq!['\\', 'f'] }
    else if c == '\r' { seq!['\\', 'r'] }
    else if (c as u32) < 0x20 {
        seq!['\\', 'u', '0', '0',
            hex_char_spec(((c as u32) / 16) as nat),
            hex_char_spec(((c as u32) % 16) as nat)]
    } else {
        seq![c]
    }
}

/// A whole character sequence escaped for a JSON string literal.
pub open spec fn escape_seq(s: Seq<char>) -> Seq<char>
    decreases s,
{
    if s.len() == 0 {
        Seq::empty()
    } else {
        escape_seq(s.drop_last()) + escape_char(s.last())
    }
}

/// Appends the escaped form of `s` to `out`.
pub fn write_escaped(s: &str, out: &mut String)
    ensures
        final(out)@ == old(out)@ + escape_seq(s@),
{
    let len = s.unicode_len();
    let mut i: usize = 0;
    while i < len
        invariant
            len == s@.len(),
            0 <= i <= len,
            out@ == old(out)@ + escape_seq(s@.subrange(0, i as int)),
        decreases len - i,
    {
        let c = s.get_char(i);
        let code = c as u32;
        if c == '"' {
            push_char(out, '\\');
            push_char(out, '"');
        } else if c == '\\' {
            push_char(out, '\\');
            push_char(out, '\\');
        } else if c == '\u{8}' {
            push_char(out, '\\');
            push_char(out, 'b');
        } else if c == '\t' {
            push_char(out, '\\');
            push_char(out, 't');
        } else if c == '\n' {
            push_char(out, '\\');
            push_char(out, 'n');
        } else if c == '\u{c}' {
            push_char(out, '\\');
            push_char(out, 'f');
        } else if c == '\r' {
            push_char(out, '\\');
            push_char(out, 'r');
        } else if code < 0x20 {
            push_char(out, '\\');
            push_char(out, 'u');
            push_char(out, '0');
            push_char(out, '0');
            push_char(out, hex_char(code / 16));
            push_char(out, hex_char(code % 16));
        } else {
            push_char(out, c);
        }
        proof {
            assert(s@.subrange(0, i + 1).drop_last() =~= s@.subrange(0, i as int));
            assert(s@.subrange(0, i + 1).last() == c);
            assert(out@ =~= old(out)@ + escape_seq(s@.subrange(0, i + 1)));
        }
        i += 1;
    }
    proof {
        assert(s@.subrange(0, len as int) =~= s@);
    }
}

/// The JSON text of a value: the compact form, with object entries written in
/// the order the value holds them and numbers written as their kept tokens.
pub open spec fn json_text(v: JVal) -> Seq<char>
    decreases v,
{
    match v {
        JVal::Null => "null"@,
        JVal::Bool(b) => if b { "true"@ } else { "false"@ },
        JVal::Num(t) => t,
        JVal::Str(s) => seq!['"'] + escape_seq(s) + seq!['"'],
        JVal::Arr(items) => seq!['['] + json_text_items(items) + seq![']'],
        JVal::Obj(entries) => seq!['{'] + json_text_entries(entries) + seq!['}'],
    }
}

/// The comma-separated JSON texts of a sequence of values.
pub open spec fn json_text_items(items: Seq<JVal>) -> Seq<char>
    decreases items,
{
    if items.len() == 0 {
        Seq::empty()
    } else if items.len() == 1 {
        json_text(items[0])
    } else {
        json_text_items(items.drop_last()) + seq![','] + json_text(items.last())
    }
}

/// The JSON text of one object entry: the escaped key, a colon, the value.
pub open spec fn json_text_entry(e: (Seq<char>, JVal)) -> Seq<char>
    decreases e,
{
    seq!['"'] + escape_seq(e.0) + seq!['"', ':'] + json_text(e.1)
}

/// The comma-separated JSON texts of a sequence of object entries.
pub open spec fn json_text_entries(entries: Seq<(Seq<char>, JVal)>) -> Seq<char>
    decreases entries,
{
    if entries.len() == 0 {
        Seq::empty()
    } else if entries.len() == 1 {
        json_text_entry(entries[0])
    } else {
        json_text_entries(entries.drop_last()) + seq![','] + json_text_entry(entries.last())
    }
}

/// Appends the JSON text of `v` to `out`.
pub fn write_json(v: &JsonValue, out: &mut String)
    ensures
        final(out)@ == old(out)@ + json_text(v@),
    decreases *v,
{
    match v {
        JsonValue::Null => {
            out.append("null");
        },
        JsonValue::Bool(b) => {
            if *b {
                out.append("true");
            } else {
                out.append("false");
            }
        },
        JsonValue::Num(t) => {
            out.append(t.as_str());
        },
        JsonValue::Str(s) => {
            push_char(out, '"');
            write_escaped(s.as_str(), out);
            push_char(out, '"');
            proof {
                assert(final(out)@ =~= old(out)@ + json_text(v@));
            }
        },
        JsonValue::Arr(items) => {
            push_char(out, '[');
            let ghost views = jvals_of(items@);
            proof {
                lemma_jvals_of_len(items@);
            }
            let mut i: usize = 0;
            while i < items.len()
                invariant
                    *v == JsonValue::Arr(*items),
                    views == jvals_of(items@),
                    views.len() == items@.len(),
                    0 <= i <= items@.len(),
                    out@ == old(out)@ + seq!['['] + json_text_items(views.subrange(0, i as int)),
                    forall|k: int| 0 <= k < items@.len() ==> views[k] == jval_of(items@[k]),
                decreases items@.len() - i,
            {
                if i > 0 {
                    push_char(out, ',');
                }
                proof {
                    assert(decreases_to!(*v => items@[i as int])) by {
                        assert(*v == JsonValue::Arr(*items));
                        assert(v->Arr_0 == *items);
                        assert(decreases_to!(*v => v->Arr_0));
                        assert(decreases_to!(v->Arr_0 => v->Arr_0@));
                        assert(0 <= i < v->Arr_0@.len());
                        assert(decreases_to!(v->Arr_0@ => v->Arr_0@[i as int]));
                    }
                }
                write_json(&items[i], out);
                proof {
                    assert(views.subrange(0, i + 1).drop_last() =~= views.subrange(0, i as int));
                    assert(views.subrange(0, i + 1).last() == views[i as int]);
                    assert(out@ =~= old(out)@ + seq!['['] + json_text_items(
                        views.subrange(0, i + 1)));
                }
                i += 1;
            }
            push_char(out, ']');
            proof {
                assert(views.subrange(0, views.len() as int) =~= views);
                assert(final(out)@ =~= old(out)@ + json_text(v@));
            }
        },
        JsonValue::Obj(entries) => {
            push_char(out, '{');
            let ghost views = jentries_of(entries@);
            proof {
                lemma_jentries_of_len(entries@);
            }
            let mut i: usize = 0;
            while i < entries.len()
                invariant
                    *v == JsonValue::Obj(*entries),
                    views == jentries_of(entries@),
                    views.len() == entries@.len(),
                    0 <= i <= entries@.len(),
                    out@ == old(out)@ + seq!['{'] + json_text_entries(views.subrange(0, i as int)),
                    forall|k: int| 0 <= k < entries@.len() ==> views[k] == (
                        entries@[k].0@,
                        jval_of(entries@[k].1),
                    ),
                decreases entries@.len() - i,
            {
                if i > 0 {
                    push_char(out, ',');
                }
                push_char(out, '"');
                write_escaped(entries[i].0.as_str(), out);
                push_char(out, '"');
                push_char(out, ':');
                proof {
                    assert(decreases_to!(*v => entries@[i as int].1)) by {
                        assert(*v == JsonValue::Obj(*entries));
                        assert(v->Obj_0 == *entries);
                        assert(decreases_to!(*v => v->Obj_0));
                        assert(decreases_to!(v->Obj_0 => v->Obj_0@));
                        assert(0 <= i < v->Obj_0@.len());
                        assert(decreases_to!(v->Obj_0@ => v->Obj_0@[i as int]));
                        assert(decreases_to!(v->Obj_0@[i as int] => v->Obj_0@[i as int].1));
                    }
                }
                write_json(&entries[i].1, out);
                proof {
                    assert(views.subrange(0, i + 1).drop_last() =~= views.subrange(0, i as int));
                    assert(views.subrange(0, i + 1).last() == views[i as int]);
                    assert(views[i as int] == (entries@[i as int].0@, jval_of(entries@[i as int].1)));
                    assert(json_text_entry(views[i as int]) =~= seq!['"'] + escape_seq(
                        entries@[i as int].0@) + seq!['"', ':'] + json_text(jval_of(
                        entries@[i as int].1)));
                    assert(out@ =~= old(out)@ + seq!['{'] + json_text_entries(
                        views.subrange(0, i + 1)));
                }
                i += 1;
            }
            push_char(out, '}');
            proof {
                assert(views.subrange(0, views.len() as int) =~= views);
                assert(final(out)@ =~= old(out)@ + json_text(v@));
            }
        },
    }
}

/// The JSON text of `v` as a fresh string.
pub fn json_to_string(v: &JsonValue) -> (r: String)
    ensures
        r@ == json_text(v@),
{
    let mut out = String::new();
    write_json(v, &mut out);
    proof {
        assert(out@ =~= json_text(v@));
    }
    out
}

} // verus!
