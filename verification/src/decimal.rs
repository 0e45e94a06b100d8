//! Decimal rendering of unsigned integers into strings, with left zero padding.
//!
//! The rendering is described by `decimal`, its numeric reading by
//! `decimal_value`; the lemmas here show that reading back a rendering gives
//! the number again, so renderings of distinct numbers differ.
use vstd::prelude::*;

verus! {

/// The character of the decimal digit `d` (for `d < 10`).
pub open spec fn digit_char(d: nat) -> char {
    (48 + d) as char
}

/// The value of a decimal digit character.
pub open spec fn digit_value(c: char) -> int {
    c as int - 48
}

/// Whether every character of `s` is one of `0`..`9`.
pub open spec fn all_digits(s: Seq<char>) -> bool {
    forall|i: int| 0 <= i < s.len() ==> 48 <= #[trigger] (s[i] as int) < 58
}

/// The shortest decimal rendering of `n`, most significant digit first.
pub open spec fn decimal(n: nat) -> Seq<char>
    decreases n,
{
    if n < 10 {
        seq![digit_char(n)]
    } else {
        decimal(n / 10).push(digit_char(n % 10))
    }
}

/// `s` preceded by as many `0` characters as it takes to reach `width`.
pub open spec fn zero_padded(s: Seq<char>, width: nat) -> Seq<char> {
    if s.len() >= width {
        s
    } else {
        Seq::new((width - s.len()) as nat, |i: int| '0') + s
    }
}

/// The number that a string of decimal digits denotes.
pub open spec fn decimal_value(s: Seq<char>) -> int
    decreases s.len(),
{
    if s.len() == 0 {
        0
    } else {
        10 * decimal_value(s.drop_last()) + digit_value(s.last())
    }
}

/// The rendering of `n` is made of digits, is never empty, and reads back as `n`.
pub proof fn lemma_decimal_reads_back(n: nat)
    ensures
        all_digits(decimal(n)),
        decimal(n).len() >= 1,
        decimal_value(decimal(n)) == n,
    decreases n,
{
    assert(digit_value(digit_char(n % 10)) == n % 10);
    if n < 10 {
        assert(decimal(n).drop_last() =~= Seq::<char>::empty());
        assert(decimal_value(Seq::<char>::empty()) == 0);
    } else {
        lemma_decimal_reads_back(n / 10);
        let s = decimal(n);
        assert(s.drop_last() =~= decimal(n / 10));
        assert(s.last() == digit_char(n % 10));
        assert(decimal_value(s) == 10 * decimal_value(decimal(n / 10)) + digit_value(s.last()));
        assert(n == 10 * (n / 10) + n % 10);
    }
}

/// The rendering of `n` is canonical: digits only, never empty, reading back
/// as `n`, and with no leading `0` unless it is the single digit of zero.
pub proof fn lemma_decimal_canonical(n: nat)
    ensures
        all_digits(decimal(n)),
        decimal(n).len() >= 1,
        decimal_value(decimal(n)) == n,
        decimal(n).len() > 1 ==> decimal(n)[0] != '0',
        n > 0 ==> decimal(n)[0] != '0',
    decreases n,
{
    lemma_decimal_reads_back(n);
    assert(digit_value('0') == 0);
    if n < 10 {
        assert(decimal(n)[0] == digit_char(n));
        assert(digit_value(digit_char(n)) == n);
    } else {
        lemma_decimal_canonical(n / 10);
        assert(decimal(n)[0] == decimal(n / 10)[0]);
    }
}

/// The shape of the rendering of `n` padded to `width`: digits only, reading
/// back as `n`, exactly `width` long when the plain rendering is shorter and
/// otherwise exactly the plain rendering's length, and with no leading `0`
/// whenever it is longer than `width` (and more than one digit).
pub proof fn lemma_zero_padded_shape(n: nat, width: nat)
    ensures
        all_digits(zero_padded(decimal(n), width)),
        decimal_value(zero_padded(decimal(n), width)) == n,
        zero_padded(decimal(n), width).len() == (if decimal(n).len() >= width {
            decimal(n).len()
        } else {
            width
        }),
        zero_padded(decimal(n), width).len() >= width,
        zero_padded(decimal(n), width).len() >= 1,
        zero_padded(decimal(n), width).len() > width && zero_padded(decimal(n), width).len() > 1
            ==> zero_padded(decimal(n), width)[0] != '0',
{
    lemma_zero_padded(n, width);
    lemma_decimal_canonical(n);
}

/// Leading zeros do not change the value of a string of digits.
pub proof fn lemma_leading_zeros_value(k: nat, s: Seq<char>)
    ensures
        decimal_value(Seq::new(k, |i: int| '0') + s) == decimal_value(s),
    decreases s.len(),
{
    let z = Seq::new(k, |i: int| '0');
    if s.len() == 0 {
        lemma_zeros_value(k);
        assert(z + s =~= z);
    } else {
        lemma_leading_zeros_value(k, s.drop_last());
        assert((z + s).drop_last() =~= z + s.drop_last());
        assert((z + s).last() == s.last());
    }
}

/// A run of `0` characters denotes zero.
pub proof fn lemma_zeros_value(k: nat)
    ensures
        decimal_value(Seq::new(k, |i: int| '0')) == 0,
    decreases k,
{
    if k > 0 {
        lemma_zeros_value((k - 1) as nat);
        assert(Seq::new(k, |i: int| '0').drop_last() =~= Seq::new((k - 1) as nat, |i: int| '0'));
    }
}

/// Zero padding keeps the value and the digits, and reaches at least `width`.
pub proof fn lemma_zero_padded(n: nat, width: nat)
    ensures
        decimal_value(zero_padded(decimal(n), width)) == n,
        all_digits(zero_padded(decimal(n), width)),
        zero_padded(decimal(n), width).len() >= width,
{
    lemma_decimal_reads_back(n);
    let s = decimal(n);
    if s.len() < width {
        let k = (width - s.len()) as nat;
        lemma_leading_zeros_value(k, s);
        let p = Seq::new(k, |i: int| '0') + s;
        assert forall|i: int| 0 <= i < p.len() implies 48 <= #[trigger] (p[i] as int) < 58 by {
            if i >= k {
                assert(p[i] == s[i - k]);
            }
        }
    }
}

/// Distinct numbers have distinct zero-padded renderings.
pub proof fn lemma_zero_padded_injective(a: nat, b: nat, width: nat)
    requires
        zero_padded(decimal(a), width) == zero_padded(decimal(b), width),
    ensures
        a == b,
{
    lemma_zero_padded(a, width);
    lemma_zero_padded(b, width);
}

/// Distinct numbers have distinct renderings.
pub proof fn lemma_decimal_injective(a: nat, b: nat)
    requires
        decimal(a) == decimal(b),
    ensures
        a == b,
{
    lemma_decimal_reads_back(a);
    lemma_decimal_reads_back(b);
}

/// Appends `c` to `s`; the std `String::push`.
#[verifier::external_body]
pub(crate) fn push_char(s: &mut String, c: char)
    ensures
        final(s)@ == old(s)@.push(c),
{
    s.push(c);
}

/// The digit character for `d`.
fn digit(d: u64) -> (c: char)
    requires
        d < 10,
    ensures
        c == digit_char(d as nat),
{
    let b: u8 = 48u8 + (d as u8);
    b as char
}

/// Appends the decimal rendering of `n` to `out`.
pub fn push_decimal(out: &mut String, n: u64)
    ensures
        final(out)@ == old(out)@ + decimal(n as nat),
    decreases n,
{
    if n >= 10 {
        push_decimal(out, n / 10);
    }
    let c = digit(n % 10);
    push_char(out, c);
    proof {
        if n >= 10 {
            assert(decimal(n as nat) == decimal((n / 10) as nat).push(digit_char((n % 10) as nat)));
        } else {
            assert(decimal(n as nat) == seq![digit_char(n as nat)]);
        }
    }
}

/// The number of characters in the decimal rendering of `n`.
pub fn decimal_len(n: u64) -> (len: usize)
    ensures
        len == decimal(n as nat).len(),
        1 <= len <= 20,
    decreases n,
{
    if n < 10 {
        1
    } else {
        let l = decimal_len(n / 10);
        proof {
            lemma_decimal_len_bound(n as nat);
        }
        l + 1
    }
}

/// A rendering of a `u64` has at most 20 characters.
proof fn lemma_decimal_len_bound(n: nat)
    requires
        n <= u64::MAX,
    ensures
        decimal(n).len() <= 20,
{
    reveal_with_fuel(pow10, 21);
    lemma_decimal_len_small(n, 20);
}

proof fn lemma_decimal_len_small(n: nat, k: nat)
    requires
        k >= 1,
        n < pow10(k),
        k <= 20,
    ensures
        decimal(n).len() <= k,
    decreases n,
{
    reveal_with_fuel(pow10, 21);
    if n >= 10 {
        assert(k >= 2);
        assert(n / 10 < pow10((k - 1) as nat)) by {
            assert(pow10(k) == 10 * pow10((k - 1) as nat));
        }
        lemma_decimal_len_small(n / 10, (k - 1) as nat);
    }
}

/// Ten to the power `k`.
pub open spec fn pow10(k: nat) -> nat
    decreases k,
{
    if k == 0 {
        1
    } else {
        10 * pow10((k - 1) as nat)
    }
}

/// Appends the decimal rendering of `n`, padded on the left with `0` up to `width`.
pub fn push_zero_padded_decimal(out: &mut String, n: u64, width: usize)
    ensures
        final(out)@ == old(out)@ + zero_padded(decimal(n as nat), width as nat),
{
    let len = decimal_len(n);
    let ghost start = out@;
    if len < width {
        let pad = width - len;
        let mut i: usize = 0;
        while i < pad
            invariant
                i <= pad,
                pad == width - len,
                out@ == start + Seq::new(i as nat, |j: int| '0'),
            decreases pad - i,
        {
            push_char(out, '0');
            i = i + 1;
            assert(out@ =~= start + Seq::new(i as nat, |j: int| '0'));
        }
    }
    push_decimal(out, n);
    assert(out@ =~= start + zero_padded(decimal(n as nat), width as nat));
}

} // verus!
