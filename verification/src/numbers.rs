//! Numbers and bytes written out as text.

use vstd::prelude::*;

use crate::text;

verus! {

/// The digit for a value below sixteen, letters in lower case.
pub open spec fn digit(d: int) -> char {
    if d < 10 {
        (48 + d) as char
    } else {
        (87 + d) as char
    }
}

/// The digit for a value below sixteen, letters in lower case.
pub fn digit_of(d: u8) -> (r: char)
    requires
        d < 16,
    ensures
        r == digit(d as int),
{
    if d < 10 {
        (48 + d) as char
    } else {
        (87 + d) as char
    }
}

/// `n` in decimal, without leading zeros.
pub open spec fn decimal(n: nat) -> Seq<char>
    decreases n,
{
    if n < 10 {
        seq![digit(n as int)]
    } else {
        decimal(n / 10).push(digit((n % 10) as int))
    }
}

fn push_decimal(s: &mut String, n: u64)
    ensures
        final(s)@ == old(s)@ + decimal(n as nat),
    decreases n,
{
    if n >= 10 {
        push_decimal(s, n / 10);
    }
    s.push(digit_of((n % 10) as u8));
    assert(s@ == old(s)@ + decimal(n as nat));
}

/// `n` in decimal, without leading zeros.
pub fn decimal_text(n: u64) -> (r: String)
    ensures
        r@ == decimal(n as nat),
{
    let mut s = String::new();
    push_decimal(&mut s, n);
    s
}

/// The bytes in hexadecimal, two lower-case digits each.
pub open spec fn lower_hex(bytes: Seq<u8>) -> Seq<char> {
    Seq::new(
        2 * bytes.len(),
        |i: int|
            if i % 2 == 0 {
                digit(bytes[i / 2] as int / 16)
            } else {
                digit(bytes[i / 2] as int % 16)
            },
    )
}

/// The bytes in hexadecimal, two lower-case digits each.
pub fn hex_text(bytes: &Vec<u8>) -> (r: String)
    ensures
        r@ == lower_hex(bytes@),
{
    let mut s = String::new();
    let mut i: usize = 0;
    while i < bytes.len()
        invariant
            i <= bytes@.len(),
            s@ == lower_hex(bytes@.take(i as int)),
        decreases bytes@.len() - i,
    {
        let b: u8 = bytes[i];
        s.push(digit_of(b / 16));
        s.push(digit_of(b % 16));
        i = i + 1;
        assert(s@ == lower_hex(bytes@.take(i as int)));
    }
    assert(bytes@.take(i as int) == bytes@);
    s
}

/// There is no white space in hexadecimal text.
pub proof fn lemma_hex_is_solid(bytes: Seq<u8>)
    ensures
        text::trimmed(lower_hex(bytes)) == lower_hex(bytes),
{
    let s = lower_hex(bytes);
    if s.len() > 0 {
        let k = s.len() - 1;
        assert(s[0] == digit(bytes[0] as int / 16));
        assert(s[k] == digit(bytes[k / 2] as int % 16));
        text::lemma_trimmed_solid(s);
    }
}

/// Different byte sequences are written differently.
pub proof fn law_lower_hex_injective(a: Seq<u8>, b: Seq<u8>)
    requires
        lower_hex(a) == lower_hex(b),
    ensures
        a == b,
{
    let x = lower_hex(a);
    let y = lower_hex(b);
    assert(x.len() == 2 * a.len() && y.len() == 2 * b.len());
    assert forall|i: int| 0 <= i < a.len() implies a[i] == b[i] by {
        assert((2 * i) / 2 == i && (2 * i) % 2 == 0);
        assert((2 * i + 1) / 2 == i && (2 * i + 1) % 2 == 1);
        let j = 2 * i;
        let k = 2 * i + 1;
        assert(x[j] == digit(a[j / 2] as int / 16));
        assert(y[j] == digit(b[j / 2] as int / 16));
        assert(x[k] == digit(a[k / 2] as int % 16));
        assert(y[k] == digit(b[k / 2] as int % 16));
        assert(digit(a[i] as int / 16) == digit(b[i] as int / 16));
        assert(digit(a[i] as int % 16) == digit(b[i] as int % 16));
    }
}

/// The number that decimal digits tell.
pub open spec fn number_of(digits: Seq<char>) -> nat
    decreases digits.len(),
{
    if digits.len() == 0 {
        0
    } else {
        10 * number_of(digits.drop_last()) + (digits.last() as u32 - '0' as u32) as nat
    }
}

/// Decimal text tells its number, in digits only and without leading zeros.
pub proof fn law_decimal_tells_the_number(n: nat)
    ensures
        number_of(decimal(n)) == n,
        decimal(n).len() > 0,
        forall|i: int| 0 <= i < decimal(n).len() ==> '0' <= #[trigger] decimal(n)[i] <= '9',
        decimal(n)[0] == '0' ==> n == 0,
    decreases n,
{
    reveal_with_fuel(number_of, 2);
    if n < 10 {
        assert(decimal(n).drop_last() =~= Seq::<char>::empty());
        assert(decimal(n).last() == (48 + n as int) as char);
    } else {
        law_decimal_tells_the_number(n / 10);
        assert(decimal(n).drop_last() =~= decimal(n / 10));
        assert(decimal(n).last() == (48 + (n % 10) as int) as char);
        assert(decimal(n)[0] == decimal(n / 10)[0]);
        assert forall|i: int| 0 <= i < decimal(n).len() implies '0' <= #[trigger] decimal(n)[i]
            <= '9' by {
            if i < decimal(n / 10).len() {
                assert(decimal(n)[i] == decimal(n / 10)[i]);
            }
        }
    }
}

/// A byte in hexadecimal is its two digits, the higher one first.
pub proof fn law_hexadecimal_of_a_byte(bytes: Seq<u8>, i: int)
    requires
        0 <= i < bytes.len(),
    ensures
        lower_hex(bytes).len() == 2 * bytes.len(),
        lower_hex(bytes)[2 * i] == "0123456789abcdef"@[bytes[i] as int / 16],
        lower_hex(bytes)[2 * i + 1] == "0123456789abcdef"@[bytes[i] as int % 16],
{
    let x = lower_hex(bytes);
    let j = 2 * i;
    let k = 2 * i + 1;
    assert(j / 2 == i && j % 2 == 0 && k / 2 == i && k % 2 == 1);
    assert(x[j] == digit(bytes[j / 2] as int / 16));
    assert(x[k] == digit(bytes[k / 2] as int % 16));
    lemma_digit(bytes[i] as int / 16);
    lemma_digit(bytes[i] as int % 16);
}

proof fn lemma_digit(d: int)
    requires
        0 <= d < 16,
    ensures
        digit(d) == "0123456789abcdef"@[d],
{
    reveal_strlit("0123456789abcdef");
    let s = "0123456789abcdef"@;
    assert(s[0] == '0' && s[1] == '1' && s[2] == '2' && s[3] == '3');
    assert(s[4] == '4' && s[5] == '5' && s[6] == '6' && s[7] == '7');
    assert(s[8] == '8' && s[9] == '9' && s[10] == 'a' && s[11] == 'b');
    assert(s[12] == 'c' && s[13] == 'd' && s[14] == 'e' && s[15] == 'f');
    assert(d == 0 || d == 1 || d == 2 || d == 3 || d == 4 || d == 5 || d == 6 || d == 7 || d == 8
        || d == 9 || d == 10 || d == 11 || d == 12 || d == 13 || d == 14 || d == 15);
}

} // verus!
