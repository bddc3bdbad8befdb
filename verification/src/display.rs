//! Rendering money as text: `<units>.<fraction> <CODE>`, with the
//! fraction zero-padded to the active precision, and precision 0 leaving
//! the decimal point out entirely.
//!
//! The default precision of a currency comes from its ISO 4217 minor-unit
//! exponent, looked up through an external metadata table.

use vstd::prelude::*;

verus! {

use vstd::utf8::{
    valid_utf8,
    decode_utf8,
    encode_utf8,
    valid_first_scalar,
    pop_first_scalar,
    is_leading_byte_width_1,
    valid_utf8_concat,
};
use crate::arith::{
    tdiv,
    trem,
    pow10,
    pow10_i128,
    div_i128,
    rem_i128,
    lemma_pow10_mono,
};
use crate::error::Error;
use crate::money::Money;
use crate::AMOUNT_UNIT;

/// Decimal digit bytes of `n`, most significant first.
pub open spec fn dec_digits(n: nat) -> Seq<u8>
    decreases n,
{
    if n < 10 {
        seq![(48 + n) as u8]
    } else {
        dec_digits(n / 10).push((48 + n % 10) as u8)
    }
}

/// Digit bytes of `v`, with a leading minus sign when `v` is negative.
pub open spec fn int_digits(v: int) -> Seq<u8> {
    if v < 0 {
        seq![45u8] + dec_digits((v * -1) as nat)
    } else {
        dec_digits(v as nat)
    }
}

/// `s` left-padded with zero digits up to `width` bytes.
pub open spec fn zero_pad(s: Seq<u8>, width: int) -> Seq<u8> {
    if s.len() >= width {
        s
    } else {
        Seq::new((width - s.len()) as nat, |i: int| 48u8) + s
    }
}

/// The fractional part: digit bytes zero-padded to the precision. A
/// negative fraction (the scaled remainder keeps the amount's sign)
/// carries its own minus sign ahead of the padded digits.
pub open spec fn frac_digits(f: int, width: int) -> Seq<u8> {
    if f >= 0 {
        zero_pad(dec_digits(f as nat), width)
    } else {
        seq![45u8] + zero_pad(dec_digits((f * -1) as nat), width)
    }
}

/// Everything of the rendered money but the code: the whole units, then,
/// unless the precision is zero, a dot and the fraction, then a space.
/// Units truncate toward zero; the fraction is the scaled remainder
/// divided down to `precision` digits.
pub open spec fn money_prefix(amount: int, precision: int) -> Seq<u8>
    recommends
        0 <= precision <= 6,
{
    let units = tdiv(amount, AMOUNT_UNIT as int);
    let frac = tdiv(trem(amount, AMOUNT_UNIT as int), pow10((6 - precision) as nat));
    if precision == 0 {
        int_digits(units) + seq![32u8]
    } else {
        int_digits(units) + seq![46u8] + frac_digits(frac, precision) + seq![32u8]
    }
}

/// The full rendered byte string: the prefix followed by the three code
/// bytes.
pub open spec fn money_bytes(amount: int, code: Seq<u8>, precision: int) -> Seq<u8>
    recommends
        0 <= precision <= 6,
{
    money_prefix(amount, precision) + code
}

proof fn lemma_dec_digits_ascii(n: nat)
    ensures
        forall|i: int| 0 <= i < dec_digits(n).len() ==> 48 <= #[trigger] dec_digits(n)[i] <= 57,
    decreases n,
{
    if n < 10 {
        assert(dec_digits(n)[0] == (48 + n) as u8);
    } else {
        lemma_dec_digits_ascii(n / 10);
        let s = dec_digits(n / 10);
        let d = (48 + n % 10) as u8;
        assert(dec_digits(n) == s.push(d));
        assert forall|i: int| 0 <= i < dec_digits(n).len() implies 48 <= #[trigger] dec_digits(
            n,
        )[i] <= 57 by {
            if i < s.len() {
                assert(dec_digits(n)[i] == s[i]);
            } else {
                assert(dec_digits(n)[i] == d);
            }
        }
    }
}

pub(crate) proof fn lemma_int_digits_ascii(v: int)
    ensures
        forall|i: int| 0 <= i < int_digits(v).len() ==> 45 <= #[trigger] int_digits(v)[i] <= 57,
{
    if v < 0 {
        lemma_dec_digits_ascii((v * -1) as nat);
    } else {
        lemma_dec_digits_ascii(v as nat);
    }
}

pub(crate) proof fn lemma_frac_digits_ascii(f: int, width: int)
    ensures
        forall|i: int|
            0 <= i < frac_digits(f, width).len() ==> 45 <= #[trigger] frac_digits(f, width)[i]
                <= 57,
{
    if f >= 0 {
        lemma_dec_digits_ascii(f as nat);
    } else {
        lemma_dec_digits_ascii((f * -1) as nat);
    }
}

proof fn lemma_money_prefix_ascii(amount: int, precision: int)
    ensures
        forall|i: int|
            0 <= i < money_prefix(amount, precision).len() ==> #[trigger] money_prefix(
                amount,
                precision,
            )[i] < 128,
{
    let units = tdiv(amount, AMOUNT_UNIT as int);
    let frac = tdiv(trem(amount, AMOUNT_UNIT as int), pow10((6 - precision) as nat));
    lemma_int_digits_ascii(units);
    lemma_frac_digits_ascii(frac, precision);
}

/// A sequence of bytes below 128 is valid UTF-8: each byte stands alone
/// as a one-byte scalar.
pub(crate) proof fn lemma_ascii_valid_utf8(bytes: Seq<u8>)
    requires
        forall|i: int| 0 <= i < bytes.len() ==> #[trigger] bytes[i] < 128,
    ensures
        valid_utf8(bytes),
    decreases bytes.len(),
{
    if bytes.len() > 0 {
        let b0 = bytes[0];
        assert(is_leading_byte_width_1(b0));
        assert(b0 & 0x7F < 0x80) by (bit_vector);
        assert(valid_first_scalar(bytes));
        let rest = bytes.subrange(1, bytes.len() as int);
        assert(pop_first_scalar(bytes) =~= rest);
        lemma_ascii_valid_utf8(rest);
    }
}

/// Validity survives dropping bytes below 128 from the front: each such
/// byte is a complete one-byte scalar, so the remainder parses on its
/// own.
proof fn lemma_valid_utf8_drop_ascii_prefix(s: Seq<u8>, k: int)
    requires
        valid_utf8(s),
        0 <= k <= s.len(),
        forall|i: int| 0 <= i < k ==> #[trigger] s[i] < 128,
    ensures
        valid_utf8(s.subrange(k, s.len() as int)),
    decreases k,
{
    if k == 0 {
        assert(s.subrange(0, s.len() as int) =~= s);
    } else {
        assert(is_leading_byte_width_1(s[0]));
        let rest = pop_first_scalar(s);
        assert(rest =~= s.subrange(1, s.len() as int));
        lemma_valid_utf8_drop_ascii_prefix(rest, k - 1);
        assert(rest.subrange(k - 1, rest.len() as int) =~= s.subrange(k, s.len() as int));
    }
}

/// Relies on `String::from_utf8`: it succeeds exactly on valid UTF-8
/// input, and the characters of the resulting string are the decoding of
/// those bytes (so their re-encoding is the input, byte for byte).
#[verifier::external_body]
pub(crate) fn string_from_utf8(v: Vec<u8>) -> (r: Option<String>)
    ensures
        r is Some <==> valid_utf8(v@),
        r matches Some(s) ==> encode_utf8(s@) == v@ && s@ == decode_utf8(v@),
{
    String::from_utf8(v).ok()
}

/// The minor-unit exponent the ISO 4217 currency table gives a code, if
/// the code is listed; a function of the code string alone.
pub uninterp spec fn iso_minor_units(code: Seq<char>) -> Option<u8>;

/// Relies on `iso4217::alpha3`: a lookup in that crate's static currency
/// table, keyed by the code string alone; the entry's exponent field is
/// handed back.
#[verifier::external_body]
fn lookup_minor_units(code: &str) -> (r: Option<u8>)
    ensures
        r == iso_minor_units(code@),
{
    iso4217::alpha3(code).map(|c| c.exp as u8)
}

/// The absolute value of `v`, which always fits unsigned.
fn abs_magnitude(v: i128) -> (r: u128)
    ensures
        r as int == if v >= 0 { v as int } else { v as int * -1 },
{
    if v >= 0 {
        v as u128
    } else {
        ((-(v + 1)) as u128) + 1
    }
}

pub(crate) fn push_dec_digits(n: u128, buf: &mut Vec<u8>)
    ensures
        final(buf)@ == old(buf)@ + dec_digits(n as nat),
    decreases n,
{
    if n < 10 {
        buf.push(48 + n as u8);
        proof {
            assert(buf@ =~= old(buf)@ + dec_digits(n as nat));
        }
    } else {
        push_dec_digits(n / 10, buf);
        buf.push(48 + (n % 10) as u8);
        proof {
            assert(buf@ =~= old(buf)@ + dec_digits(n as nat));
        }
    }
}

pub(crate) fn push_int_digits(v: i128, buf: &mut Vec<u8>)
    ensures
        final(buf)@ == old(buf)@ + int_digits(v as int),
{
    if v < 0 {
        buf.push(45);
        push_dec_digits(abs_magnitude(v), buf);
        proof {
            assert(buf@ =~= old(buf)@ + int_digits(v as int));
        }
    } else {
        push_dec_digits(v as u128, buf);
    }
}

proof fn lemma_dec_digits_len_le(n: nat, k: nat)
    requires
        n < pow10(k),
        k >= 1,
    ensures
        dec_digits(n).len() <= k,
    decreases n,
{
    if n >= 10 {
        if k == 1 {
            assert(pow10(1nat) == 10);
        }
        assert(pow10(k) == 10 * pow10((k - 1) as nat));
        assert(n / 10 < pow10((k - 1) as nat));
        lemma_dec_digits_len_le(n / 10, (k - 1) as nat);
    }
}

proof fn lemma_u128_below_pow10_39(n: nat)
    requires
        n <= u128::MAX,
    ensures
        n < pow10(39),
        dec_digits(n).len() <= 39,
{
    reveal_with_fuel(pow10, 41);
    assert(n < pow10(39));
    lemma_dec_digits_len_le(n, 39);
}

/// How many digit bytes `n` renders to.
fn dec_len(n: u128) -> (r: usize)
    ensures
        r == dec_digits(n as nat).len(),
        1 <= r <= 39,
    decreases n,
{
    if n < 10 {
        1
    } else {
        proof {
            lemma_u128_below_pow10_39(n as nat);
        }
        1 + dec_len(n / 10)
    }
}

fn push_zeros(count: usize, buf: &mut Vec<u8>)
    ensures
        final(buf)@ == old(buf)@ + Seq::new(count as nat, |i: int| 48u8),
{
    let mut k: usize = 0;
    while k < count
        invariant
            k <= count,
            buf@ == old(buf)@ + Seq::new(k as nat, |i: int| 48u8),
        decreases count - k,
    {
        buf.push(48);
        k = k + 1;
        proof {
            assert(buf@ =~= old(buf)@ + Seq::new(k as nat, |i: int| 48u8));
        }
    }
    proof {
        assert(buf@ =~= old(buf)@ + Seq::new(count as nat, |i: int| 48u8));
    }
}

pub(crate) fn push_frac_digits(f: i128, width: u8, buf: &mut Vec<u8>)
    ensures
        final(buf)@ == old(buf)@ + frac_digits(f as int, width as int),
{
    if f < 0 {
        buf.push(45);
    }
    let m = abs_magnitude(f);
    let len = dec_len(m);
    if (width as usize) > len {
        push_zeros(width as usize - len, buf);
    }
    push_dec_digits(m, buf);
    proof {
        assert(buf@ =~= old(buf)@ + frac_digits(f as int, width as int));
    }
}

proof fn lemma_pow10_small(e: nat)
    requires
        e <= 6,
    ensures
        1 <= pow10(e) <= 1_000_000,
{
    reveal_with_fuel(pow10, 8);
    lemma_pow10_mono(e, 6);
    assert(pow10(6nat) == 1_000_000);
    assert(pow10(0nat) == 1);
    lemma_pow10_mono(0, e);
}

impl Money {
    /// Render as `<units>.<fraction> <CODE>` with `precision` fractional
    /// digits (0 to 6), the fraction zero-padded to that width; precision
    /// 0 renders `<units> <CODE>` with no decimal point. A precision
    /// above the fixed-point scale of 6 is refused, and code bytes that
    /// are not valid UTF-8 (never produced by the validating
    /// constructors) are reported rather than rendered.
    pub fn format(&self, precision: u8) -> (r: Result<String, Error>)
        ensures
            precision > 6 ==> r == Err::<String, Error>(Error::PrecisionTooHigh(precision)),
            precision <= 6 && !valid_utf8(self.currency_code@) ==> r == Err::<String, Error>(
                Error::InvalidCodeUtf8(self.currency_code),
            ),
            precision <= 6 && valid_utf8(self.currency_code@) ==> {
                &&& r matches Ok(s)
                &&& encode_utf8(s@) == money_bytes(
                    self.amount@,
                    self.currency_code@,
                    precision as int,
                )
                &&& s@ == decode_utf8(
                    money_bytes(self.amount@, self.currency_code@, precision as int),
                )
            },
    {
        if precision > 6 {
            return Err(Error::PrecisionTooHigh(precision));
        }
        let raw = self.amount.raw();
        let units = div_i128(raw, AMOUNT_UNIT);
        let mut buf: Vec<u8> = Vec::new();
        push_int_digits(units, &mut buf);
        if precision > 0 {
            buf.push(46);
            let rem = rem_i128(raw, AMOUNT_UNIT);
            proof {
                lemma_pow10_small((6 - precision) as nat);
            }
            let scale = pow10_i128(6 - precision).unwrap();
            let frac = div_i128(rem, scale);
            push_frac_digits(frac, precision, &mut buf);
        }
        buf.push(32);
        let code = self.currency_code.bytes();
        buf.push(code[0]);
        buf.push(code[1]);
        buf.push(code[2]);
        let ghost all_bytes = buf@;
        let ghost prefix = money_prefix(self.amount@, precision as int);
        proof {
            assert(all_bytes =~= money_bytes(self.amount@, self.currency_code@, precision as int));
            lemma_money_prefix_ascii(self.amount@, precision as int);
            lemma_ascii_valid_utf8(prefix);
        }
        match string_from_utf8(buf) {
            Some(s) => {
                proof {
                    lemma_valid_utf8_drop_ascii_prefix(all_bytes, prefix.len() as int);
                    assert(all_bytes.subrange(prefix.len() as int, all_bytes.len() as int)
                        =~= self.currency_code@);
                }
                Ok(s)
            },
            None => {
                proof {
                    if valid_utf8(self.currency_code@) {
                        valid_utf8_concat(prefix, self.currency_code@);
                    }
                }
                Err(Error::InvalidCodeUtf8(self.currency_code))
            },
        }
    }

    /// Render with the currency's own default precision: its ISO 4217
    /// minor-unit exponent. A code the metadata table does not list is
    /// reported as `UnknownCurrency`; a listed exponent above 6 cannot be
    /// rendered at the fixed-point scale and is refused like an explicit
    /// precision would be.
    pub fn format_default(&self) -> (r: Result<String, Error>)
        ensures
            !valid_utf8(self.currency_code@) ==> r == Err::<String, Error>(
                Error::InvalidCodeUtf8(self.currency_code),
            ),
            valid_utf8(self.currency_code@) ==> match iso_minor_units(
                decode_utf8(self.currency_code@),
            ) {
                None => r == Err::<String, Error>(Error::UnknownCurrency(self.currency_code)),
                Some(p) => {
                    &&& p > 6 ==> r == Err::<String, Error>(Error::PrecisionTooHigh(p))
                    &&& p <= 6 ==> {
                        &&& r matches Ok(s)
                        &&& encode_utf8(s@) == money_bytes(
                            self.amount@,
                            self.currency_code@,
                            p as int,
                        )
                        &&& s@ == decode_utf8(
                            money_bytes(self.amount@, self.currency_code@, p as int),
                        )
                    }
                },
            },
    {
        let code = self.currency_code.bytes();
        let mut v: Vec<u8> = Vec::new();
        v.push(code[0]);
        v.push(code[1]);
        v.push(code[2]);
        proof {
            assert(v@ =~= self.currency_code@);
        }
        let code_str = match string_from_utf8(v) {
            Some(s) => s,
            None => {
                return Err(Error::InvalidCodeUtf8(self.currency_code));
            },
        };
        let p = match lookup_minor_units(code_str.as_str()) {
            Some(p) => p,
            None => {
                return Err(Error::UnknownCurrency(self.currency_code));
            },
        };
        self.format(p)
    }
}

} // verus!
