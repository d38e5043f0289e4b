//! Text in UTF-16, as the operating system takes and gives it.

use vstd::prelude::*;

use crate::text::chars_of;

verus! {

/// `n` is the number of a character.
pub open spec fn is_scalar(n: u32) -> bool {
    n <= 0xd7ff || 0xe000 <= n <= 0x10ffff
}

/// `char::from_u32`: the character of that number, where there is one.
pub assume_specification[ char::from_u32 ](n: u32) -> (r: Option<char>)
    ensures
        is_scalar(n) ==> r == Some(n as char),
        !is_scalar(n) ==> r is None,
;

// ---------------------------------------------------------------------------
// Encoding
// ---------------------------------------------------------------------------

/// The code units of a character.
pub open spec fn units_of_char(c: char) -> Seq<u16> {
    let n = c as int;
    if n < 0x10000 {
        seq![n as u16]
    } else {
        seq![(0xd800 + (n - 0x10000) / 0x400) as u16, (0xdc00 + (n - 0x10000) % 0x400) as u16]
    }
}

/// The number of a character.
proof fn lemma_scalar(c: char)
    ensures
        is_scalar(c as u32),
        c as int == c as u32,
{
}

/// The code units of a text.
pub open spec fn encode(s: Seq<char>) -> Seq<u16>
    decreases s.len(),
{
    if s.len() == 0 {
        seq![]
    } else {
        units_of_char(s[0]) + encode(s.skip(1))
    }
}

/// The code units of a text, closed by a zero.
pub fn to_wide_string(s: &str) -> (r: Vec<u16>)
    ensures
        r@ == encode(s@).push(0),
{
    let v = chars_of(s);
    let mut r: Vec<u16> = Vec::new();
    let mut i: usize = 0;
    assert(s@.skip(0) == s@);
    while i < v.len()
        invariant
            v@ == s@,
            i <= v@.len(),
            encode(s@) == r@ + encode(s@.skip(i as int)),
        decreases v@.len() - i,
    {
        let c: char = v[i];
        proof {
            lemma_scalar(c);
        }
        let n: u32 = c as u32;
        let ghost before = r@;
        if n < 0x10000 {
            r.push(n as u16);
        } else {
            r.push((0xd800 + (n - 0x10000) / 0x400) as u16);
            r.push((0xdc00 + (n - 0x10000) % 0x400) as u16);
        }
        assert(r@ == before + units_of_char(s@[i as int]));
        assert(s@.skip(i as int).skip(1) == s@.skip(i + 1));
        i = i + 1;
    }
    assert(r@ + encode(s@.skip(i as int)) == r@);
    r.push(0);
    r
}

// ---------------------------------------------------------------------------
// Decoding
// ---------------------------------------------------------------------------

/// The first unit of a pair.
pub open spec fn is_high(u: u16) -> bool {
    0xd800 <= u <= 0xdbff
}

/// The second unit of a pair.
pub open spec fn is_low(u: u16) -> bool {
    0xdc00 <= u <= 0xdfff
}

/// The character of a pair.
pub open spec fn pair_char(high: u16, low: u16) -> char {
    (0x10000 + (high - 0xd800) * 0x400 + (low - 0xdc00)) as char
}

/// How many units the first character takes, and the character; none where
/// the first unit is half of a pair.
pub open spec fn first_char(u: Seq<u16>) -> (int, Option<char>) {
    if is_high(u[0]) && u.len() > 1 && is_low(u[1]) {
        (2, Some(pair_char(u[0], u[1])))
    } else if is_high(u[0]) || is_low(u[0]) {
        (1, None)
    } else {
        (1, Some(u[0] as char))
    }
}

/// The text of the code units, U+FFFD for half a pair.
pub open spec fn decode(u: Seq<u16>) -> Seq<char>
    decreases u.len(),
{
    if u.len() == 0 {
        seq![]
    } else {
        let (n, c) = first_char(u);
        seq![
            match c {
                Some(c) => c,
                None => '\u{fffd}',
            },
        ] + decode(u.skip(n))
    }
}

/// The code units hold no half of a pair.
pub open spec fn well_formed(u: Seq<u16>) -> bool
    decreases u.len(),
{
    if u.len() == 0 {
        true
    } else {
        let (n, c) = first_char(u);
        c is Some && well_formed(u.skip(n))
    }
}

fn next_char(u: &Vec<u16>, i: usize) -> (r: (usize, Option<char>))
    requires
        i < u@.len(),
    ensures
        r.0 == first_char(u@.skip(i as int)).0,
        r.1 == first_char(u@.skip(i as int)).1,
        i + r.0 <= u@.len(),
        r.0 >= 1,
{
    let a: u16 = u[i];
    let n: usize = u.len();
    if 0xd800 <= a && a <= 0xdbff && n - i > 1 {
        let b: u16 = u[i + 1];
        if 0xdc00 <= b && b <= 0xdfff {
            let c: u32 = 0x10000 + (a as u32 - 0xd800) * 0x400 + (b as u32 - 0xdc00);
            return (2, char::from_u32(c));
        }
    }
    if 0xd800 <= a && a <= 0xdfff {
        (1, None)
    } else {
        (1, char::from_u32(a as u32))
    }
}

/// The text of the first `to` code units, and whether they hold no half of a
/// pair; U+FFFD stands for half a pair.
fn decode_prefix(u: &Vec<u16>, to: usize) -> (r: (String, bool))
    requires
        to <= u@.len(),
    ensures
        r.0@ == decode(u@.take(to as int)),
        r.1 == well_formed(u@.take(to as int)),
{
    let mut v: Vec<u16> = Vec::new();
    let mut k: usize = 0;
    while k < to
        invariant
            k <= to <= u@.len(),
            v@ == u@.take(k as int),
        decreases to - k,
    {
        v.push(u[k]);
        k = k + 1;
        assert(v@ == u@.take(k as int));
    }
    let mut s = String::new();
    let mut whole = true;
    let mut i: usize = 0;
    assert(v@.skip(0) == v@);
    while i < v.len()
        invariant
            i <= v@.len(),
            decode(v@) == s@ + decode(v@.skip(i as int)),
            well_formed(v@) == (whole && well_formed(v@.skip(i as int))),
        decreases v@.len() - i,
    {
        let (n, c) = next_char(&v, i);
        let ghost before = s@;
        assert(v@.skip(i as int).skip(n as int) == v@.skip(i + n));
        match c {
            Some(c) => {
                s.push(c);
            },
            None => {
                s.push('\u{fffd}');
                whole = false;
            },
        }
        assert(decode(v@) == s@ + decode(v@.skip(i + n)));
        i = i + n;
    }
    assert(s@ + decode(v@.skip(i as int)) == s@);
    (s, whole)
}

/// The text of the code units, U+FFFD for half a pair.
pub fn decode_lossy(u: &Vec<u16>) -> (r: String)
    ensures
        r@ == decode(u@),
{
    assert(u@.take(u@.len() as int) == u@);
    decode_prefix(u, u.len()).0
}

/// The text of the first `len` code units, where they hold no half of a pair.
pub fn decode_strict(u: &Vec<u16>, len: usize) -> (r: Option<String>)
    requires
        len <= u@.len(),
    ensures
        match r {
            Some(t) => well_formed(u@.take(len as int)) && t@ == decode(u@.take(len as int)),
            None => !well_formed(u@.take(len as int)),
        },
{
    let (t, whole) = decode_prefix(u, len);
    if whole {
        Some(t)
    } else {
        None
    }
}

/// The code units up to the first zero.
pub open spec fn until_zero(u: Seq<u16>) -> Seq<u16>
    decreases u.len(),
{
    if u.len() == 0 || u[0] == 0 {
        seq![]
    } else {
        seq![u[0]] + until_zero(u.skip(1))
    }
}

/// The text of a buffer that is closed by a zero or filled to its end.
pub fn buffer_text(u: &Vec<u16>) -> (r: String)
    ensures
        r@ == decode(until_zero(u@)),
{
    let mut len: usize = 0;
    assert(u@.skip(0) == u@);
    assert(u@.take(0) + until_zero(u@) == until_zero(u@));
    while len < u.len() && u[len] != 0
        invariant
            len <= u@.len(),
            until_zero(u@) == u@.take(len as int) + until_zero(u@.skip(len as int)),
        decreases u@.len() - len,
    {
        assert(u@.skip(len as int).skip(1) == u@.skip(len + 1));
        assert(u@.take(len + 1) == u@.take(len as int).push(u@[len as int]));
        assert(until_zero(u@.skip(len as int)) == seq![u@[len as int]] + until_zero(
            u@.skip(len + 1),
        ));
        len = len + 1;
        assert(until_zero(u@) == u@.take(len as int) + until_zero(u@.skip(len as int)));
    }
    assert(until_zero(u@) == u@.take(len as int));
    decode_prefix(u, len).0
}

// ---------------------------------------------------------------------------
// Laws
// ---------------------------------------------------------------------------

/// Text survives the way to UTF-16 and back.
pub proof fn law_round_trip(s: Seq<char>)
    ensures
        well_formed(encode(s)),
        decode(encode(s)) == s,
    decreases s.len(),
{
    if s.len() > 0 {
        let rest = s.skip(1);
        law_round_trip(rest);
        let u = encode(s);
        let first = units_of_char(s[0]);
        let n = s[0] as int;
        let k = first.len() as int;
        lemma_scalar(s[0]);
        assert(u.skip(k) == encode(rest));
        assert(u[0] == first[0]);
        if n >= 0x10000 {
            assert(u[1] == first[1]);
            let m = n - 0x10000;
            assert(0 <= m < 0x100000);
            assert(0 <= m / 0x400 < 0x400 && 0 <= m % 0x400 < 0x400);
            assert(m == (m / 0x400) * 0x400 + m % 0x400);
        }
        assert(first_char(u) == (k, Some(s[0])));
        assert(seq![s[0]] + rest == s);
    }
}

/// No code unit of a text is zero that has no zero character.
proof fn lemma_no_zero_units(s: Seq<char>)
    requires
        !s.contains('\0'),
    ensures
        !encode(s).contains(0),
    decreases s.len(),
{
    if s.len() > 0 {
        let rest = s.skip(1);
        lemma_scalar(s[0]);
        assert(!rest.contains('\0')) by {
            if rest.contains('\0') {
                let i = choose|i: int| 0 <= i < rest.len() && rest[i] == '\0';
                assert(s[i + 1] == '\0');
            }
        }
        lemma_no_zero_units(rest);
        assert(s[0] != '\0');
        let first = units_of_char(s[0]);
        let u = encode(s);
        if u.contains(0) {
            let i = choose|i: int| 0 <= i < u.len() && u[i] == 0;
            if i >= first.len() {
                assert(encode(rest)[i - first.len()] == 0);
            }
        }
    }
}

/// Units without a zero are read up to the zero that closes them.
proof fn lemma_until_zero(u: Seq<u16>, rest: Seq<u16>)
    requires
        !u.contains(0),
    ensures
        until_zero(u + seq![0u16] + rest) == u,
    decreases u.len(),
{
    let all = u + seq![0u16] + rest;
    if u.len() > 0 {
        assert(u[0] != 0);
        assert(!u.skip(1).contains(0)) by {
            if u.skip(1).contains(0) {
                let i = choose|i: int| 0 <= i < u.skip(1).len() && u.skip(1)[i] == 0;
                assert(u[i + 1] == 0);
            }
        }
        lemma_until_zero(u.skip(1), rest);
        assert(all.skip(1) =~= u.skip(1) + seq![0u16] + rest);
        assert(seq![u[0]] + u.skip(1) =~= u);
    } else {
        assert(all[0] == 0);
    }
}

/// Text that is closed by a zero comes back from a buffer as it is, whatever
/// stands behind the zero; the text itself holds none.
pub proof fn law_closed_text_is_read(s: Seq<char>, rest: Seq<u16>)
    requires
        !s.contains('\0'),
    ensures
        decode(until_zero(encode(s).push(0) + rest)) == s,
{
    lemma_no_zero_units(s);
    lemma_until_zero(encode(s), rest);
    assert(encode(s).push(0) + rest =~= encode(s) + seq![0u16] + rest);
    law_round_trip(s);
}

/// A character of the basic plane is one code unit, its number; any other is a
/// pair that tells its number.
pub proof fn law_units_of_a_character(c: char)
    ensures
        ({
            let u = units_of_char(c);
            if (c as u32) < 0x10000 {
                u.len() == 1 && u[0] as int == c as int
            } else {
                u.len() == 2 && 0xd800 <= u[0] < 0xdc00 && 0xdc00 <= u[1] < 0xe000 && c as int
                    == 0x10000 + (u[0] - 0xd800) * 0x400 + (u[1] - 0xdc00)
            }
        }),
{
    lemma_scalar(c);
    let m = c as int - 0x10000;
    if m >= 0 {
        assert(0 <= m / 0x400 < 0x400 && 0 <= m % 0x400 < 0x400);
        assert(m == (m / 0x400) * 0x400 + m % 0x400);
    }
}

/// Code units that are no halves of pairs are characters by themselves.
pub proof fn law_single_units_are_characters(u: Seq<u16>)
    requires
        forall|i: int| 0 <= i < u.len() ==> (#[trigger] u[i] < 0xd800 || 0xe000 <= u[i]),
    ensures
        well_formed(u),
        decode(u).len() == u.len(),
        forall|i: int| 0 <= i < u.len() ==> #[trigger] decode(u)[i] as int == u[i] as int,
    decreases u.len(),
{
    if u.len() > 0 {
        let rest = u.skip(1);
        assert(u[0] < 0xd800 || 0xe000 <= u[0]);
        assert forall|i: int| 0 <= i < rest.len() implies (#[trigger] rest[i] < 0xd800 || 0xe000
            <= rest[i]) by {
            assert(rest[i] == u[i + 1]);
        }
        law_single_units_are_characters(rest);
        let first = seq![u[0] as char];
        assert(decode(u) == first + decode(rest));
        assert forall|i: int| 0 <= i < u.len() implies #[trigger] decode(u)[i] as int
            == u[i] as int by {
            if i > 0 {
                assert(decode(u)[i] == decode(rest)[i - 1]);
                assert(rest[i - 1] == u[i]);
            }
        }
    }
}

/// Half of a pair is no text, and stands as U+FFFD where text is wanted anyway.
pub proof fn law_half_a_pair(u: u16, rest: Seq<u16>)
    requires
        0xd800 <= u < 0xe000,
        u < 0xdc00 ==> rest.len() == 0 || !(0xdc00 <= rest[0] < 0xe000),
    ensures
        !well_formed(seq![u] + rest),
        decode(seq![u] + rest) == seq!['\u{fffd}'] + decode(rest),
{
    let all = seq![u] + rest;
    assert(all[0] == u);
    if rest.len() > 0 {
        assert(all[1] == rest[0]);
    }
    assert(all.skip(1) =~= rest);
}

/// A buffer is read up to its first zero, and to its end where there is none.
pub proof fn law_read_up_to_the_zero(u: Seq<u16>)
    ensures
        until_zero(u).len() <= u.len(),
        until_zero(u) == u.take(until_zero(u).len() as int),
        !until_zero(u).contains(0),
        until_zero(u).len() < u.len() ==> u[until_zero(u).len() as int] == 0,
    decreases u.len(),
{
    if u.len() == 0 || u[0] == 0 {
        assert(u.take(0) =~= Seq::<u16>::empty());
    } else {
        let rest = u.skip(1);
        law_read_up_to_the_zero(rest);
        let n = until_zero(rest).len() as int;
        assert(until_zero(u) =~= u.take(n + 1));
        if until_zero(u).contains(0) {
            let i = choose|i: int| 0 <= i < until_zero(u).len() && until_zero(u)[i] == 0;
            assert(i > 0);
            assert(until_zero(rest)[i - 1] == 0);
        }
        if n + 1 < u.len() {
            assert(rest[n] == u[n + 1]);
        }
    }
}

/// The code units of a text are those of its characters, one after the other.
pub proof fn law_units_one_after_the_other(a: Seq<char>, b: Seq<char>)
    ensures
        encode(a + b) == encode(a) + encode(b),
        forall|c: char| #[trigger] encode(seq![c]) == units_of_char(c),
    decreases a.len(),
{
    reveal_with_fuel(encode, 2);
    assert forall|c: char| #[trigger] encode(seq![c]) == units_of_char(c) by {
        assert(seq![c].skip(1) =~= Seq::<char>::empty());
        assert(units_of_char(c) + Seq::<u16>::empty() =~= units_of_char(c));
    }
    if a.len() == 0 {
        assert(a + b =~= b);
        assert(encode(a) + encode(b) =~= encode(b));
    } else {
        law_units_one_after_the_other(a.skip(1), b);
        assert((a + b).skip(1) =~= a.skip(1) + b);
        assert(encode(a + b) =~= encode(a) + encode(b));
    }
}

} // verus!
