use vstd::prelude::*;

use crate::text::{
    lemma_char_no_comma, lemma_concat_no_comma, lemma_nat_text_no_comma, lemma_pad_no_comma,
    lemma_subrange_no_comma, nat_text, pad_with,
};

verus! {

/// The largest magnitude of a decimal's mantissa: 2^96 - 1.
pub const MAX_MANTISSA: u128 = 0xFFFF_FFFF_FFFF_FFFF_FFFF_FFFF;

/// The largest number of digits after the decimal point.
pub const MAX_SCALE: u32 = 28;

/// A fixed-point decimal number: `magnitude / 10^scale`, negated when
/// `negative` holds. The sign is kept apart from the magnitude, so that a
/// negative zero stays negative.
#[derive(Clone, Copy, Debug, PartialEq, Eq, Structural)]
pub struct DecimalValue {
    pub negative: bool,
    pub magnitude: u128,
    pub scale: u32,
}

/// The digits of `magnitude / 10^scale` without a sign: the digits of the
/// magnitude (none for zero) with zeros in front up to `scale` digits, a
/// point before the last `scale` of them when `scale` is not zero, and a
/// `0` in front of the point, or alone, when nothing else would stand there.
pub open spec fn decimal_digits(magnitude: nat, scale: nat) -> Seq<char> {
    let padded = pad_with(if magnitude == 0 { Seq::<char>::empty() } else { nat_text(magnitude) }, scale, '0');
    if scale == 0 {
        if padded.len() == 0 {
            seq!['0']
        } else {
            padded
        }
    } else {
        let whole = padded.take(padded.len() - scale);
        (if whole.len() == 0 {
            seq!['0']
        } else {
            whole
        }) + seq!['.'] + padded.skip(padded.len() - scale)
    }
}

/// `d` as rust_decimal's `Display` writes it: a `-` when the sign is
/// negative, zero included, then the digits with all `scale` places after
/// the point (`-0`, `0.000`, `5130.5`, `-0.005`).
pub open spec fn decimal_text(d: DecimalValue) -> Seq<char> {
    (if d.negative {
        seq!['-']
    } else {
        Seq::<char>::empty()
    }) + decimal_digits(d.magnitude as nat, d.scale as nat)
}

impl DecimalValue {
    /// The magnitude fits in 96 bits and the scale is at most 28.
    pub open spec fn wf(self) -> bool {
        &&& self.magnitude <= MAX_MANTISSA
        &&& self.scale <= MAX_SCALE
    }

    /// Whether the magnitude and the scale are in range (`wf`).
    pub fn is_valid(&self) -> (b: bool)
        ensures
            b == self.wf(),
    {
        self.magnitude <= MAX_MANTISSA && self.scale <= MAX_SCALE
    }

    /// Zero, positive, with no digits after the point (the default decimal).
    pub open spec fn zero_spec() -> DecimalValue {
        DecimalValue { negative: false, magnitude: 0, scale: 0 }
    }

    /// Zero, positive, with no digits after the point (the default decimal).
    pub fn zero() -> (d: DecimalValue)
        ensures
            d == DecimalValue::zero_spec(),
            d.wf(),
    {
        DecimalValue { negative: false, magnitude: 0, scale: 0 }
    }
}

/// Builds the decimal with rust_decimal's `Decimal::from_i128_with_scale`,
/// which panics only outside the range that `wf` admits, gives it the sign
/// with `set_sign_negative`, and returns its `to_string()`, which is
/// `Display` with no width or precision: the sign, then the digits as
/// `to_str_internal` lays them out (see `decimal_text`).
#[verifier::external_body]
pub(crate) fn decimal_to_string(d: &DecimalValue) -> (res: String)
    requires
        d.wf(),
    ensures
        res@ == decimal_text(*d),
{
    let mut value = rust_decimal::Decimal::from_i128_with_scale(d.magnitude as i128, d.scale);
    value.set_sign_negative(d.negative);
    value.to_string()
}

/// The text of a decimal holds no comma.
pub proof fn lemma_decimal_text_no_comma(d: DecimalValue)
    ensures
        !decimal_text(d).contains(','),
{
    let m = d.magnitude as nat;
    let scale = d.scale as nat;
    let digits = if m == 0 { Seq::<char>::empty() } else { nat_text(m) };
    assert(!digits.contains(',')) by {
        if m == 0 {
            if digits.contains(',') {
                let k = choose|k: int| 0 <= k < digits.len() && digits[k] == ',';
            }
        } else {
            lemma_nat_text_no_comma(m);
        }
    }
    let padded = pad_with(digits, scale, '0');
    lemma_pad_no_comma(digits, scale, '0');
    lemma_char_no_comma('0');
    lemma_char_no_comma('.');
    lemma_char_no_comma('-');
    if scale != 0 {
        let whole = padded.take(padded.len() - scale);
        let frac = padded.skip(padded.len() - scale);
        lemma_subrange_no_comma(padded, 0, padded.len() - scale);
        lemma_subrange_no_comma(padded, padded.len() - scale, padded.len() as int);
        assert(whole =~= padded.subrange(0, padded.len() - scale));
        assert(frac =~= padded.subrange(padded.len() - scale, padded.len() as int));
        let lead = if whole.len() == 0 { seq!['0'] } else { whole };
        lemma_concat_no_comma(lead, seq!['.']);
        lemma_concat_no_comma(lead + seq!['.'], frac);
    }
    let sign = if d.negative { seq!['-'] } else { Seq::<char>::empty() };
    assert(!sign.contains(',')) by {
        if !d.negative && sign.contains(',') {
            let k = choose|k: int| 0 <= k < sign.len() && sign[k] == ',';
        }
    }
    lemma_concat_no_comma(sign, decimal_digits(m, scale));
}

} // verus!
