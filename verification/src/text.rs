//! Text helpers: UTF-16 encoding and decoding, decimal digits, and string
//! building.

use vstd::prelude::*;

verus! {

/// Appends a character to a string.
#[verifier::external_body]
pub(crate) fn push_char(s: &mut String, c: char)
    ensures
        final(s)@ == old(s)@.push(c),
{
    s.push(c);
}

/// The character with code point `v`, if `v` is a Unicode scalar value.
#[verifier::external_body]
pub(crate) fn char_from_u32(v: u32) -> (r: Option<char>)
    ensures
        r == (if is_scalar_value(v as int) {
            Some(v as char)
        } else {
            None::<char>
        }),
{
    char::from_u32(v)
}

/// Whether `v` is a Unicode scalar value (a code point that is not a surrogate).
pub open spec fn is_scalar_value(v: int) -> bool {
    (0 <= v < 0xD800) || (0xE000 <= v <= 0x10FFFF)
}

/// The UTF-16 code units of one character.
pub open spec fn utf16_of_char(c: char) -> Seq<u16> {
    let v = c as int;
    if v < 0x10000 {
        seq![v as u16]
    } else {
        let u = v - 0x10000;
        seq![(0xD800 + u / 0x400) as u16, (0xDC00 + u % 0x400) as u16]
    }
}

/// The UTF-16 code units of a character sequence.
pub open spec fn utf16_encode(s: Seq<char>) -> Seq<u16>
    decreases s.len(),
{
    if s.len() == 0 {
        Seq::empty()
    } else {
        utf16_encode(s.drop_last()) + utf16_of_char(s.last())
    }
}

/// Whether a code unit is the first half of a surrogate pair.
pub open spec fn is_high_surrogate(u: u16) -> bool {
    0xD800 <= u < 0xDC00
}

/// Whether a code unit is the second half of a surrogate pair.
pub open spec fn is_low_surrogate(u: u16) -> bool {
    0xDC00 <= u < 0xE000
}

/// The replacement character that lossy decoding puts for an unpaired
/// surrogate.
pub open spec fn replacement_char() -> char {
    '\u{FFFD}'
}

/// Lossy UTF-16 decoding: a surrogate pair becomes one character, an
/// unpaired surrogate becomes U+FFFD, any other unit is its own character.
pub open spec fn utf16_decode_lossy(u: Seq<u16>) -> Seq<char>
    decreases u.len(),
{
    if u.len() == 0 {
        Seq::empty()
    } else if is_high_surrogate(u[0]) && u.len() >= 2 && is_low_surrogate(u[1]) {
        let v = 0x10000 + (u[0] - 0xD800) * 0x400 + (u[1] - 0xDC00);
        seq![v as char] + utf16_decode_lossy(u.subrange(2, u.len() as int))
    } else if is_high_surrogate(u[0]) || is_low_surrogate(u[0]) {
        seq![replacement_char()] + utf16_decode_lossy(u.subrange(1, u.len() as int))
    } else {
        seq![u[0] as char] + utf16_decode_lossy(u.subrange(1, u.len() as int))
    }
}

/// The decimal digit character for `d` (0 to 9).
pub open spec fn digit_char(d: int) -> char {
    if d == 0 {
        '0'
    } else if d == 1 {
        '1'
    } else if d == 2 {
        '2'
    } else if d == 3 {
        '3'
    } else if d == 4 {
        '4'
    } else if d == 5 {
        '5'
    } else if d == 6 {
        '6'
    } else if d == 7 {
        '7'
    } else if d == 8 {
        '8'
    } else {
        '9'
    }
}

/// The decimal representation of `n`, without leading zeros.
pub open spec fn decimal(n: nat) -> Seq<char>
    decreases n,
{
    if n < 10 {
        seq![digit_char(n as int)]
    } else {
        decimal(n / 10).push(digit_char((n % 10) as int))
    }
}

fn digit(d: u32) -> (c: char)
    requires
        d < 10,
    ensures
        c == digit_char(d as int),
{
    if d == 0 {
        '0'
    } else if d == 1 {
        '1'
    } else if d == 2 {
        '2'
    } else if d == 3 {
        '3'
    } else if d == 4 {
        '4'
    } else if d == 5 {
        '5'
    } else if d == 6 {
        '6'
    } else if d == 7 {
        '7'
    } else if d == 8 {
        '8'
    } else {
        '9'
    }
}

/// Appends the decimal representation of `n`.
pub(crate) fn push_decimal(s: &mut String, n: u64)
    ensures
        final(s)@ == old(s)@ + decimal(n as nat),
    decreases n,
{
    let ghost start = s@;
    if n >= 10 {
        push_decimal(s, n / 10);
    }
    let ghost mid = s@;
    push_char(s, digit((n % 10) as u32));
    proof {
        if n >= 10 {
            assert(mid == start + decimal((n / 10) as nat));
            assert((start + decimal((n / 10) as nat)).push(digit_char((n % 10) as int)) =~= start
                + decimal((n / 10) as nat).push(digit_char((n % 10) as int)));
        } else {
            assert(start.push(digit_char((n % 10) as int)) =~= start + decimal(n as nat));
        }
    }
}

/// The decimal representation of an integer, with a leading `-` when it is
/// negative.
pub open spec fn signed_decimal(v: int) -> Seq<char> {
    if v < 0 {
        seq!['-'] + decimal((-v) as nat)
    } else {
        decimal(v as nat)
    }
}

/// Appends the decimal representation of a signed number.
pub(crate) fn push_signed_decimal(s: &mut String, v: i64)
    requires
        v > i64::MIN,
    ensures
        final(s)@ == old(s)@ + signed_decimal(v as int),
{
    if v < 0 {
        let ghost start = s@;
        push_char(s, '-');
        push_decimal(s, (-v) as u64);
        assert(s@ =~= start + signed_decimal(v as int));
    } else {
        push_decimal(s, v as u64);
    }
}

/// Appends a string slice.
pub(crate) fn push_str(s: &mut String, t: &str)
    ensures
        final(s)@ == old(s)@ + t@,
{
    s.append(t);
}

/// Whether `s` begins with `p`.
pub open spec fn starts_with(s: Seq<char>, p: Seq<char>) -> bool {
    p.len() <= s.len() && s.subrange(0, p.len() as int) == p
}

/// Whether `s` begins with `p`.
pub(crate) fn has_prefix(s: &str, p: &str) -> (r: bool)
    ensures
        r == starts_with(s@, p@),
{
    let n = s.unicode_len();
    let m = p.unicode_len();
    if m > n {
        return false;
    }
    let mut i: usize = 0;
    while i < m
        invariant
            m <= n,
            n == s@.len(),
            m == p@.len(),
            i <= m,
            forall|j: int| 0 <= j < i ==> s@[j] == p@[j],
        decreases m - i,
    {
        if s.get_char(i) != p.get_char(i) {
            assert(s@.subrange(0, m as int)[i as int] != p@[i as int]);
            return false;
        }
        i = i + 1;
    }
    assert(s@.subrange(0, m as int) =~= p@);
    true
}

/// Whether two string slices hold the same characters.
pub(crate) fn same_text(a: &str, b: &str) -> (r: bool)
    ensures
        r == (a@ == b@),
{
    if a.unicode_len() != b.unicode_len() {
        return false;
    }
    let r = has_prefix(a, b);
    proof {
        assert(a@.subrange(0, b@.len() as int) =~= a@);
    }
    r
}

/// The characters of `s` from position `k` on.
pub(crate) fn text_after(s: &str, k: usize) -> (r: String)
    requires
        k <= s@.len(),
    ensures
        r@ == s@.subrange(k as int, s@.len() as int),
{
    let n = s.unicode_len();
    let t = s.substring_char(k, n);
    t.to_owned()
}

/// The parts joined by `sep`.
pub open spec fn join(parts: Seq<Seq<char>>, sep: Seq<char>) -> Seq<char>
    decreases parts.len(),
{
    if parts.len() == 0 {
        Seq::empty()
    } else if parts.len() == 1 {
        parts[0]
    } else {
        join(parts.drop_last(), sep) + sep + parts.last()
    }
}

/// Appends one more part to a joined list that `s` ends with.
pub(crate) fn push_joined_part(
    s: &mut String,
    Ghost(start): Ghost<Seq<char>>,
    Ghost(parts): Ghost<Seq<Seq<char>>>,
    first: bool,
    sep: &str,
    part: &str,
)
    requires
        old(s)@ == start + join(parts, sep@),
        first == (parts.len() == 0),
    ensures
        final(s)@ == start + join(parts.push(part@), sep@),
{
    if !first {
        push_str(s, sep);
    }
    push_str(s, part);
    proof {
        let p = parts.push(part@);
        assert(p.drop_last() =~= parts);
        if first {
            assert(s@ =~= start + join(p, sep@));
        } else {
            assert(s@ =~= start + join(p, sep@));
        }
    }
}

/// The UTF-16 code units of `s`.
pub fn encode_utf16(s: &str) -> (r: Vec<u16>)
    ensures
        r@ == utf16_encode(s@),
{
    let n = s.unicode_len();
    let mut out: Vec<u16> = Vec::new();
    let mut i: usize = 0;
    while i < n
        invariant
            n == s@.len(),
            i <= n,
            out@ == utf16_encode(s@.subrange(0, i as int)),
        decreases n - i,
    {
        let c = s.get_char(i);
        let v = c as u32;
        if v < 0x10000 {
            out.push(v as u16);
        } else {
            let u = v - 0x10000;
            out.push((0xD800 + u / 0x400) as u16);
            out.push((0xDC00 + u % 0x400) as u16);
        }
        proof {
            let pre = s@.subrange(0, i as int);
            let next = s@.subrange(0, i + 1);
            assert(next.drop_last() =~= pre);
            assert(next.last() == c);
            assert(utf16_of_char(c) =~= (if v < 0x10000 {
                seq![v as u16]
            } else {
                seq![
                    (0xD800 + (v - 0x10000) / 0x400) as u16,
                    (0xDC00 + (v - 0x10000) % 0x400) as u16,
                ]
            }));
        }
        i = i + 1;
    }
    assert(s@.subrange(0, n as int) =~= s@);
    out
}

/// Decodes UTF-16 code units, putting U+FFFD for each unpaired surrogate.
pub fn decode_utf16_lossy(u: &[u16]) -> (r: String)
    ensures
        r@ == utf16_decode_lossy(u@),
{
    let n = u.len();
    let mut out = String::new();
    let mut i: usize = 0;
    assert(u@.subrange(0, n as int) =~= u@);
    assert(out@ + utf16_decode_lossy(u@) =~= utf16_decode_lossy(u@));
    while i < n
        invariant
            n == u@.len(),
            i <= n,
            out@ + utf16_decode_lossy(u@.subrange(i as int, n as int)) == utf16_decode_lossy(u@),
        decreases n - i,
    {
        let ghost rest = u@.subrange(i as int, n as int);
        let a = u[i];
        if 0xD800 <= a && a < 0xDC00 && i + 1 < n && 0xDC00 <= u[i + 1] && u[i + 1] < 0xE000 {
            let b = u[i + 1];
            let v: u32 = 0x10000 + ((a - 0xD800) as u32) * 0x400 + ((b - 0xDC00) as u32);
            let c = char_from_u32(v);
            proof {
                assert(is_scalar_value(v as int));
                assert(rest.subrange(2, rest.len() as int) =~= u@.subrange(i + 2, n as int));
            }
            match c {
                Some(ch) => push_char(&mut out, ch),
                None => {},
            }
            i = i + 2;
        } else if 0xD800 <= a && a < 0xE000 {
            proof {
                assert(rest.subrange(1, rest.len() as int) =~= u@.subrange(i + 1, n as int));
            }
            push_char(&mut out, '\u{FFFD}');
            i = i + 1;
        } else {
            let c = char_from_u32(a as u32);
            proof {
                assert(is_scalar_value(a as int));
                assert(rest.subrange(1, rest.len() as int) =~= u@.subrange(i + 1, n as int));
            }
            match c {
                Some(ch) => push_char(&mut out, ch),
                None => {},
            }
            i = i + 1;
        }
        proof {
            assert(out@ + utf16_decode_lossy(u@.subrange(i as int, n as int))
                =~= utf16_decode_lossy(u@));
        }
    }
    assert(u@.subrange(n as int, n as int) =~= Seq::<u16>::empty());
    assert(out@ + Seq::<char>::empty() =~= out@);
    out
}

/// Encoding a sequence equals encoding its first character followed by the
/// encoding of the rest.
pub proof fn lemma_utf16_encode_first(s: Seq<char>)
    requires
        s.len() > 0,
    ensures
        utf16_encode(s) == utf16_of_char(s[0]) + utf16_encode(s.drop_first()),
    decreases s.len(),
{
    if s.len() == 1 {
        assert(s.drop_last() =~= Seq::<char>::empty());
        assert(s.drop_first() =~= Seq::<char>::empty());
        assert(utf16_encode(s.drop_first()) =~= Seq::<u16>::empty());
        assert(utf16_encode(s) =~= utf16_of_char(s[0]));
    } else {
        lemma_utf16_encode_first(s.drop_last());
        assert(s.drop_last().drop_first() =~= s.drop_first().drop_last());
        assert(s.drop_first().last() == s.last());
        assert(utf16_encode(s) =~= utf16_of_char(s[0]) + utf16_encode(s.drop_first()));
    }
}

/// Encoding two sequences one after the other gives the concatenated codes.
pub proof fn lemma_utf16_encode_append(a: Seq<char>, b: Seq<char>)
    ensures
        utf16_encode(a + b) == utf16_encode(a) + utf16_encode(b),
    decreases b.len(),
{
    if b.len() == 0 {
        assert(a + b =~= a);
        assert(utf16_encode(a) + utf16_encode(b) =~= utf16_encode(a));
    } else {
        lemma_utf16_encode_append(a, b.drop_last());
        assert((a + b).drop_last() =~= a + b.drop_last());
        assert(utf16_encode(a + b) =~= utf16_encode(a) + utf16_encode(b));
    }
}

proof fn lemma_decode_char_then(c: char, rest: Seq<u16>)
    ensures
        utf16_decode_lossy(utf16_of_char(c) + rest) == seq![c] + utf16_decode_lossy(rest),
{
    let v = c as int;
    let u = utf16_of_char(c) + rest;
    if v < 0x10000 {
        assert(u[0] == v as u16);
        assert(!is_high_surrogate(u[0]) && !is_low_surrogate(u[0]));
        assert(u.subrange(1, u.len() as int) =~= rest);
        assert((u[0] as int) == v);
    } else {
        let w = v - 0x10000;
        assert(0 <= w / 0x400 < 0x400) by (nonlinear_arith)
            requires
                0 <= w <= 0x10FFFF - 0x10000,
        ;
        assert(is_high_surrogate(u[0]));
        assert(is_low_surrogate(u[1]));
        assert(u.subrange(2, u.len() as int) =~= rest);
        assert(0x10000 + (u[0] - 0xD800) * 0x400 + (u[1] - 0xDC00) == v) by (nonlinear_arith)
            requires
                u[0] == 0xD800 + w / 0x400,
                u[1] == 0xDC00 + w % 0x400,
                w == v - 0x10000,
        ;
    }
}

/// Decoding the UTF-16 encoding of a character sequence gives the sequence back.
pub proof fn lemma_utf16_roundtrip(s: Seq<char>)
    ensures
        utf16_decode_lossy(utf16_encode(s)) == s,
    decreases s.len(),
{
    if s.len() == 0 {
        assert(utf16_encode(s) =~= Seq::<u16>::empty());
        assert(utf16_decode_lossy(Seq::<u16>::empty()) =~= s);
    } else {
        lemma_utf16_encode_first(s);
        lemma_decode_char_then(s[0], utf16_encode(s.drop_first()));
        lemma_utf16_roundtrip(s.drop_first());
        assert(seq![s[0]] + s.drop_first() =~= s);
    }
}

/// No code unit in the encoding of a character is zero unless the character is
/// U+0000.
pub proof fn lemma_utf16_of_char_zero(c: char)
    ensures
        utf16_of_char(c).contains(0u16) <==> c as int == 0,
{
    let e = utf16_of_char(c);
    if c as int == 0 {
        assert(e[0] == 0u16);
    } else if (c as int) < 0x10000 {
        assert(e =~= seq![(c as int) as u16]);
        if e.contains(0u16) {
            let k = choose|k: int| 0 <= k < e.len() && e[k] == 0u16;
            assert(k == 0);
        }
    } else {
        if e.contains(0u16) {
            let k = choose|k: int| 0 <= k < e.len() && e[k] == 0u16;
            assert(k == 0 || k == 1);
        }
    }
}

} // verus!
