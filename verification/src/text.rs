//! Verified text building blocks shared by the entrypoint builder, the
//! availability reports and the output formatters: decimal rendering,
//! padding, truncation, joining and escaping.
//!
//! Output is accumulated in a `Vec<char>` — whose contents Verus tracks
//! exactly — and turned into a `String` only at the edge.

use vstd::prelude::*;
use vstd::string::StrSliceExecFns;

verus! {

/// The character for a single decimal digit value.
pub open spec fn digit_char(d: int) -> char {
    if d == 0 {
        '0'
    } else if d == 1 {
        '1'
    } else if d == 2 {
        '2'
    } else if d == 3 {
        '3'
    } else if d == 4 {
        '4'
    } else if d == 5 {
        '5'
    } else if d == 6 {
        '6'
    } else if d == 7 {
        '7'
    } else if d == 8 {
        '8'
    } else {
        '9'
    }
}

/// Decimal rendering of a natural number, most significant digit first.
pub open spec fn dec_of(n: nat) -> Seq<char>
    decreases n,
{
    if n < 10 {
        seq![digit_char(n as int)]
    } else {
        dec_of(n / 10) + seq![digit_char((n % 10) as int)]
    }
}

/// Decimal rendering of an integer: a minus sign for negative values,
/// then the digits.
pub open spec fn int_dec_of(n: int) -> Seq<char> {
    if n < 0 {
        seq!['-'] + dec_of((-n) as nat)
    } else {
        dec_of(n as nat)
    }
}

/// `n` spaces (none when `n` is negative).
pub open spec fn spaces_of(n: int) -> Seq<char> {
    Seq::new(if n < 0 { 0 } else { n as nat }, |i: int| ' ')
}

/// `s` padded on the right with spaces to width `w`; `s` unchanged when
/// already at least that wide.
pub open spec fn pad_of(s: Seq<char>, w: int) -> Seq<char> {
    if s.len() >= w {
        s
    } else {
        s + spaces_of(w - s.len())
    }
}

/// The first `n` characters of `s`; all of `s` when it is shorter.
pub open spec fn prefix_of(s: Seq<char>, n: int) -> Seq<char> {
    if n < 0 {
        Seq::empty()
    } else if s.len() <= n {
        s
    } else {
        s.subrange(0, n)
    }
}

/// `items` concatenated with `sep` between consecutive items.
pub open spec fn join_of(items: Seq<Seq<char>>, sep: Seq<char>) -> Seq<char>
    decreases items.len(),
{
    if items.len() == 0 {
        Seq::empty()
    } else if items.len() == 1 {
        items[0]
    } else {
        join_of(items.drop_last(), sep) + sep + items.last()
    }
}

/// The views of a sequence of owned strings.
pub open spec fn str_views(items: Seq<String>) -> Seq<Seq<char>> {
    Seq::new(items.len(), |i: int| items[i]@)
}

/// `s` split at every occurrence of `sep`: always at least one piece,
/// with empty pieces where separators meet each other or an end.
pub open spec fn split_of(s: Seq<char>, sep: char) -> Seq<Seq<char>>
    decreases s.len(),
{
    if s.len() == 0 {
        seq![Seq::empty()]
    } else {
        let prev = split_of(s.drop_last(), sep);
        if s.last() == sep {
            prev + seq![Seq::empty()]
        } else {
            prev.update(prev.len() - 1, prev.last().push(s.last()))
        }
    }
}

/// Splitting always yields at least one piece.
pub proof fn lemma_split_nonempty(s: Seq<char>, sep: char)
    ensures
        split_of(s, sep).len() >= 1,
    decreases s.len(),
{
    if s.len() > 0 {
        lemma_split_nonempty(s.drop_last(), sep);
    }
}

/// One character as it appears inside a `Debug`-style quoted string: the
/// quote, the backslash and the common control characters are escaped,
/// every other character passes through unchanged.
pub open spec fn debug_esc_char(c: char) -> Seq<char> {
    if c == '"' {
        seq!['\\', '"']
    } else if c == '\\' {
        seq!['\\', '\\']
    } else if c == '\n' {
        seq!['\\', 'n']
    } else if c == '\r' {
        seq!['\\', 'r']
    } else if c == '\t' {
        seq!['\\', 't']
    } else {
        seq![c]
    }
}

/// `s` with every character escaped as in a `Debug`-style quoted string.
pub open spec fn debug_esc_of(s: Seq<char>) -> Seq<char>
    decreases s.len(),
{
    if s.len() == 0 {
        Seq::empty()
    } else {
        debug_esc_of(s.drop_last()) + debug_esc_char(s.last())
    }
}

/// The lowercase hexadecimal character for a value below sixteen.
pub open spec fn hex_char(d: int) -> char {
    if d < 10 {
        digit_char(d)
    } else if d == 10 {
        'a'
    } else if d == 11 {
        'b'
    } else if d == 12 {
        'c'
    } else if d == 13 {
        'd'
    } else if d == 14 {
        'e'
    } else {
        'f'
    }
}

/// One character as it appears inside a JSON string: quote, backslash and
/// the named control escapes get a two-character escape, the remaining
/// control characters a `\u00..` escape, and everything else passes
/// through unchanged.
pub open spec fn json_esc_char(c: char) -> Seq<char> {
    if c == '"' {
        seq!['\\', '"']
    } else if c == '\\' {
        seq!['\\', '\\']
    } else if c == '\n' {
        seq!['\\', 'n']
    } else if c == '\r' {
        seq!['\\', 'r']
    } else if c == '\t' {
        seq!['\\', 't']
    } else if c as u32 == 8 {
        seq!['\\', 'b']
    } else if c as u32 == 12 {
        seq!['\\', 'f']
    } else if (c as u32) < 32 {
        let hi = hex_char((c as u32 / 16) as int);
        let lo = hex_char((c as u32 % 16) as int);
        seq!['\\', 'u', '0', '0', hi, lo]
    } else {
        seq![c]
    }
}

/// `s` with every character escaped as in a JSON string.
pub open spec fn json_esc_of(s: Seq<char>) -> Seq<char>
    decreases s.len(),
{
    if s.len() == 0 {
        Seq::empty()
    } else {
        json_esc_of(s.drop_last()) + json_esc_char(s.last())
    }
}

/// Relies on `String`'s `FromIterator<char>`: collecting yields exactly
/// the iterated characters, in order.
#[verifier::external_body]
pub fn chars_string(v: &Vec<char>) -> (r: String)
    ensures
        r@ == v@,
{
    v.iter().collect()
}

/// The executable counterpart of [`digit_char`].
pub fn digit_char_exec(d: u64) -> (c: char)
    requires
        d < 10,
    ensures
        c == digit_char(d as int),
{
    if d == 0 {
        '0'
    } else if d == 1 {
        '1'
    } else if d == 2 {
        '2'
    } else if d == 3 {
        '3'
    } else if d == 4 {
        '4'
    } else if d == 5 {
        '5'
    } else if d == 6 {
        '6'
    } else if d == 7 {
        '7'
    } else if d == 8 {
        '8'
    } else {
        '9'
    }
}

/// The executable counterpart of [`hex_char`].
pub fn hex_char_exec(d: u64) -> (c: char)
    requires
        d < 16,
    ensures
        c == hex_char(d as int),
{
    if d < 10 {
        digit_char_exec(d)
    } else if d == 10 {
        'a'
    } else if d == 11 {
        'b'
    } else if d == 12 {
        'c'
    } else if d == 13 {
        'd'
    } else if d == 14 {
        'e'
    } else {
        'f'
    }
}

/// Appends the decimal rendering of `n`.
pub fn push_dec(out: &mut Vec<char>, n: u64)
    ensures
        final(out)@ == old(out)@ + dec_of(n as nat),
    decreases n,
{
    if n < 10 {
        out.push(digit_char_exec(n));
        assert(out@ =~= old(out)@ + dec_of(n as nat));
    } else {
        push_dec(out, n / 10);
        out.push(digit_char_exec(n % 10));
        assert(out@ =~= old(out)@ + dec_of(n as nat));
    }
}

/// Decimal rendering of `n` as an owned string.
pub fn u64_string(n: u64) -> (r: String)
    ensures
        r@ == dec_of(n as nat),
{
    let mut buf: Vec<char> = Vec::new();
    push_dec(&mut buf, n);
    assert(buf@ =~= dec_of(n as nat));
    chars_string(&buf)
}

/// Appends the decimal rendering of `n`, with a minus sign when
/// negative.
pub fn push_int(out: &mut Vec<char>, n: i64)
    ensures
        final(out)@ == old(out)@ + int_dec_of(n as int),
{
    if n >= 0 {
        push_dec(out, n as u64);
    } else {
        out.push('-');
        let wide: i128 = -(n as i128);
        let m: u64 = wide as u64;
        proof {
            assert(m as nat == (-(n as int)) as nat);
        }
        push_dec(out, m);
        assert(out@ =~= old(out)@ + int_dec_of(n as int));
    }
}

/// Decimal rendering of `n` as an owned string, with a minus sign when
/// negative.
pub fn i64_string(n: i64) -> (r: String)
    ensures
        r@ == int_dec_of(n as int),
{
    let mut buf: Vec<char> = Vec::new();
    push_int(&mut buf, n);
    assert(buf@ =~= int_dec_of(n as int));
    chars_string(&buf)
}

/// Appends every character of `s`.
pub fn push_str_chars(out: &mut Vec<char>, s: &str)
    ensures
        final(out)@ == old(out)@ + s@,
{
    let n = s.unicode_len();
    for i in 0..n
        invariant
            n == s@.len(),
            out@ =~= old(out)@ + s@.subrange(0, i as int),
    {
        out.push(s.get_char(i));
        assert(out@ =~= old(out)@ + s@.subrange(0, i + 1 as int));
    }
    assert(s@.subrange(0, n as int) =~= s@);
}

/// Appends `s` padded on the right with spaces to `width`.
pub fn push_padded(out: &mut Vec<char>, s: &str, width: usize)
    ensures
        final(out)@ == old(out)@ + pad_of(s@, width as int),
{
    let n = s.unicode_len();
    push_str_chars(out, s);
    if n < width {
        for j in n..width
            invariant
                n == s@.len(),
                n < width,
                out@ =~= old(out)@ + s@ + spaces_of(j - n),
        {
            out.push(' ');
            assert(out@ =~= old(out)@ + s@ + spaces_of(j + 1 - n));
        }
        assert(out@ =~= old(out)@ + pad_of(s@, width as int));
    } else {
        assert(out@ =~= old(out)@ + pad_of(s@, width as int));
    }
}

/// Appends the first `n` characters of `s`.
pub fn push_prefix(out: &mut Vec<char>, s: &str, n: usize)
    ensures
        final(out)@ == old(out)@ + prefix_of(s@, n as int),
{
    let len = s.unicode_len();
    let end = if len < n {
        len
    } else {
        n
    };
    for i in 0..end
        invariant
            len == s@.len(),
            end == if len < n {
                len as int
            } else {
                n as int
            },
            out@ =~= old(out)@ + s@.subrange(0, i as int),
    {
        out.push(s.get_char(i));
        assert(out@ =~= old(out)@ + s@.subrange(0, i + 1 as int));
    }
    assert(out@ =~= old(out)@ + prefix_of(s@, n as int));
}

/// Splits `s` at every occurrence of `sep`.
pub fn split_chars(s: &str, sep: char) -> (r: Vec<String>)
    ensures
        str_views(r@) == split_of(s@, sep),
{
    let n = s.unicode_len();
    let mut done: Vec<String> = Vec::new();
    let mut cur: Vec<char> = Vec::new();
    for i in 0..n
        invariant
            n == s@.len(),
            str_views(done@) + seq![cur@] =~= split_of(s@.subrange(0, i as int), sep),
    {
        let c = s.get_char(i);
        proof {
            lemma_split_nonempty(s@.subrange(0, i as int), sep);
        }
        if c == sep {
            done.push(chars_string(&cur));
            cur = Vec::new();
        } else {
            cur.push(c);
        }
        proof {
            let prev = s@.subrange(0, i as int);
            let ext = s@.subrange(0, i + 1);
            assert(ext.drop_last() =~= prev);
            assert(ext.last() == s@[i as int]);
            assert(str_views(done@) + seq![cur@] =~= split_of(ext, sep));
        }
    }
    done.push(chars_string(&cur));
    proof {
        assert(s@.subrange(0, n as int) =~= s@);
        assert(str_views(done@) =~= split_of(s@, sep));
    }
    done
}

/// Appends `items` joined by `sep`.
pub fn push_joined(out: &mut Vec<char>, items: &Vec<String>, sep: &str)
    ensures
        final(out)@ == old(out)@ + join_of(str_views(items@), sep@),
{
    let n = items.len();
    for i in 0..n
        invariant
            n == items@.len(),
            out@ =~= old(out)@ + join_of(str_views(items@.subrange(0, i as int)), sep@),
    {
        if i > 0 {
            push_str_chars(out, sep);
        }
        push_str_chars(out, items[i].as_str());
        proof {
            let prev = str_views(items@.subrange(0, i as int));
            let cur = str_views(items@.subrange(0, i + 1 as int));
            assert(cur.drop_last() =~= prev);
            assert(cur.last() == items@[i as int]@);
            if i == 0 {
                assert(out@ =~= old(out)@ + join_of(cur, sep@));
            } else {
                assert(out@ =~= old(out)@ + join_of(cur, sep@));
            }
        }
    }
    assert(items@.subrange(0, n as int) =~= items@);
}

/// Appends every character of `s`, escaped as in a `Debug`-style quoted
/// string.
pub fn push_debug_escaped(out: &mut Vec<char>, s: &str)
    ensures
        final(out)@ == old(out)@ + debug_esc_of(s@),
{
    let n = s.unicode_len();
    for i in 0..n
        invariant
            n == s@.len(),
            out@ =~= old(out)@ + debug_esc_of(s@.subrange(0, i as int)),
    {
        let c = s.get_char(i);
        if c == '"' {
            out.push('\\');
            out.push('"');
        } else if c == '\\' {
            out.push('\\');
            out.push('\\');
        } else if c == '\n' {
            out.push('\\');
            out.push('n');
        } else if c == '\r' {
            out.push('\\');
            out.push('r');
        } else if c == '\t' {
            out.push('\\');
            out.push('t');
        } else {
            out.push(c);
        }
        proof {
            let prev = s@.subrange(0, i as int);
            let cur = s@.subrange(0, i + 1 as int);
            assert(cur.drop_last() =~= prev);
            assert(cur.last() == c);
            assert(out@ =~= old(out)@ + debug_esc_of(cur));
        }
    }
    assert(s@.subrange(0, n as int) =~= s@);
}

/// Appends every character of `s`, escaped as in a JSON string.
pub fn push_json_escaped(out: &mut Vec<char>, s: &str)
    ensures
        final(out)@ == old(out)@ + json_esc_of(s@),
{
    let n = s.unicode_len();
    for i in 0..n
        invariant
            n == s@.len(),
            out@ =~= old(out)@ + json_esc_of(s@.subrange(0, i as int)),
    {
        let c = s.get_char(i);
        let code = c as u32;
        if c == '"' {
            out.push('\\');
            out.push('"');
        } else if c == '\\' {
            out.push('\\');
            out.push('\\');
        } else if c == '\n' {
            out.push('\\');
            out.push('n');
        } else if c == '\r' {
            out.push('\\');
            out.push('r');
        } else if c == '\t' {
            out.push('\\');
            out.push('t');
        } else if code == 8 {
            out.push('\\');
            out.push('b');
        } else if code == 12 {
            out.push('\\');
            out.push('f');
        } else if code < 32 {
            out.push('\\');
            out.push('u');
            out.push('0');
            out.push('0');
            out.push(hex_char_exec((code / 16) as u64));
            out.push(hex_char_exec((code % 16) as u64));
        } else {
            out.push(c);
        }
        proof {
            let prev = s@.subrange(0, i as int);
            let cur = s@.subrange(0, i + 1 as int);
            assert(cur.drop_last() =~= prev);
            assert(cur.last() == c);
            assert(out@ =~= old(out)@ + json_esc_of(cur));
        }
    }
    assert(s@.subrange(0, n as int) =~= s@);
}

} // verus!
