//! ASCII text: decimal rendering of unsigned integers and byte appends.
use vstd::prelude::*;

verus! {

/// The ASCII code of the digit `d` (`0 <= d < 10`).
pub open spec fn digit_byte(d: nat) -> u8 {
    (d + 48) as u8
}

/// The shortest decimal text of `n`: no sign, no leading zeros, `"0"` for zero.
pub open spec fn dec(n: nat) -> Seq<u8>
    decreases n,
{
    if n < 10 {
        seq![digit_byte(n)]
    } else {
        dec(n / 10).push(digit_byte(n % 10))
    }
}

/// The decimal text of `n`, left-padded with `'0'` to at least `width` bytes.
pub open spec fn padded(n: nat, width: nat) -> Seq<u8> {
    let d = dec(n);
    if d.len() >= width {
        d
    } else {
        Seq::new((width - d.len()) as nat, |i: int| 48u8) + d
    }
}

pub proof fn lemma_dec_nonempty(n: nat)
    ensures
        dec(n).len() >= 1,
    decreases n,
{
    if n >= 10 {
        lemma_dec_nonempty(n / 10);
    }
}

/// Every byte of a decimal text is an ASCII digit.
pub proof fn lemma_dec_digits(n: nat)
    ensures
        forall|i: int| 0 <= i < dec(n).len() ==> 48 <= #[trigger] dec(n)[i] <= 57,
    decreases n,
{
    if n >= 10 {
        lemma_dec_digits(n / 10);
        let prev = dec(n / 10);
        assert forall|i: int| 0 <= i < dec(n).len() implies 48 <= #[trigger] dec(n)[i] <= 57 by {
            if i < prev.len() {
                assert(dec(n)[i] == prev[i]);
            }
        }
    }
}

/// The number that a text of ASCII digits stands for.
pub open spec fn dec_value(s: Seq<u8>) -> nat
    decreases s.len(),
{
    if s.len() == 0 {
        0
    } else {
        dec_value(s.drop_last()) * 10 + (s.last() - 48) as nat
    }
}

/// `k` ASCII zeros.
pub open spec fn zeros(k: nat) -> Seq<u8> {
    Seq::new(k, |i: int| 48u8)
}

pub proof fn lemma_value_of_dec(n: nat)
    ensures
        dec_value(dec(n)) == n,
    decreases n,
{
    if n >= 10 {
        lemma_value_of_dec(n / 10);
        assert(dec(n).drop_last() =~= dec(n / 10));
        assert(dec(n).last() == digit_byte(n % 10));
        assert(digit_byte(n % 10) - 48 == n % 10);
        assert((n / 10) * 10 + n % 10 == n);
        assert(dec_value(dec(n)) == dec_value(dec(n / 10)) * 10 + (dec(n).last() - 48) as nat);
    } else {
        assert(dec(n).drop_last() =~= Seq::<u8>::empty());
        assert(dec_value(Seq::<u8>::empty()) == 0);
        assert(digit_byte(n) - 48 == n);
    }
}

pub proof fn lemma_value_zeros_prefix(k: nat, d: Seq<u8>)
    ensures
        dec_value(zeros(k) + d) == dec_value(d),
    decreases k + d.len(),
{
    if d.len() == 0 {
        assert(zeros(k) + d =~= zeros(k));
        if k > 0 {
            assert(zeros(k).drop_last() =~= zeros((k - 1) as nat) + d);
            lemma_value_zeros_prefix((k - 1) as nat, d);
        }
    } else {
        assert((zeros(k) + d).drop_last() =~= zeros(k) + d.drop_last());
        lemma_value_zeros_prefix(k, d.drop_last());
    }
}

/// A padded decimal text stands for the number it renders.
pub proof fn lemma_value_of_padded(n: nat, width: nat)
    ensures
        dec_value(padded(n, width)) == n,
{
    lemma_value_of_dec(n);
    if dec(n).len() < width {
        assert(Seq::new((width - dec(n).len()) as nat, |i: int| 48u8) =~= zeros(
            (width - dec(n).len()) as nat,
        ));
        lemma_value_zeros_prefix((width - dec(n).len()) as nat, dec(n));
    }
}

/// A number below 100 renders in at most two digits; below 10000, in at
/// most four.
pub proof fn lemma_dec_len_small(n: nat)
    ensures
        n < 10 ==> dec(n).len() == 1,
        n < 100 ==> dec(n).len() <= 2,
        n < 10000 ==> dec(n).len() <= 4,
{
    reveal_with_fuel(dec, 5);
}

/// The first byte of a padded decimal text is an ASCII digit.
pub proof fn lemma_padded_first_digit(n: nat, width: nat)
    ensures
        padded(n, width).len() >= 1,
        48 <= padded(n, width)[0] <= 57,
{
    lemma_dec_nonempty(n);
    lemma_dec_digits(n);
}

/// Appends `bytes` to `out`.
pub fn push_bytes(out: &mut Vec<u8>, bytes: &[u8])
    ensures
        final(out)@ == old(out)@ + bytes@,
{
    let mut i: usize = 0;
    let ghost start = out@;
    while i < bytes.len()
        invariant
            i <= bytes@.len(),
            out@ == start + bytes@.take(i as int),
        decreases bytes@.len() - i,
    {
        out.push(bytes[i]);
        i = i + 1;
        assert(out@ =~= start + bytes@.take(i as int));
    }
    assert(bytes@.take(i as int) =~= bytes@);
}

/// A copy of `b`.
pub fn copy_bytes(b: &[u8]) -> (r: Vec<u8>)
    ensures
        r@ == b@,
{
    let mut r: Vec<u8> = Vec::new();
    push_bytes(&mut r, b);
    assert(r@ =~= b@);
    r
}

/// Appends the decimal text of `n` to `out`.
pub fn push_decimal(out: &mut Vec<u8>, n: u64)
    ensures
        final(out)@ == old(out)@ + dec(n as nat),
    decreases n,
{
    if n >= 10 {
        push_decimal(out, n / 10);
    }
    out.push((n % 10) as u8 + 48);
    assert(final(out)@ =~= old(out)@ + dec(n as nat));
}

/// Appends the decimal text of `n`, left-padded with `'0'` to `width` bytes.
pub fn push_padded(out: &mut Vec<u8>, n: u64, width: usize)
    ensures
        final(out)@ == old(out)@ + padded(n as nat, width as nat),
{
    let mut digits: Vec<u8> = Vec::new();
    push_decimal(&mut digits, n);
    let len = digits.len();
    let ghost start = out@;
    if len < width {
        let mut k: usize = len;
        while k < width
            invariant
                len <= k <= width,
                out@ == start + Seq::new((k - len) as nat, |i: int| 48u8),
            decreases width - k,
        {
            out.push(48u8);
            k = k + 1;
            assert(out@ =~= start + Seq::new((k - len) as nat, |i: int| 48u8));
        }
    }
    let mut i: usize = 0;
    let ghost mid = out@;
    while i < len
        invariant
            i <= len,
            len == digits@.len(),
            digits@ == dec(n as nat),
            out@ == mid + digits@.take(i as int),
        decreases len - i,
    {
        out.push(digits[i]);
        i = i + 1;
        assert(out@ =~= mid + digits@.take(i as int));
    }
    assert(digits@.take(len as int) =~= digits@);
    assert(out@ =~= start + padded(n as nat, width as nat));
}

} // verus!
