//! Properties that relate the constructor and the two renderings.
use crate::decimal::{
    all_digits, lemma_padded_shape, lemma_padded_value, lemma_value_concat, padded, pow10,
    value_of,
};
use crate::identifier::{
    bank_close, bank_of, bank_open, bank_separator, checksum_of, code_of, digits_of, is_valid,
    CHECK_MODULUS,
};
use vstd::prelude::*;

verus! {

/// The checksum is never zero: it lies between 1 and 97 for every triple of parts.
pub proof fn checksum_in_range(a: nat, b: nat, c: nat)
    ensures
        1 <= checksum_of(a, b, c) <= 97,
{
}

/// Both renderings have a fixed width (12 and 22 characters), and the
/// twelve-digit one holds nothing but decimal digits.
pub proof fn renderings_have_fixed_width(v: (nat, nat, nat, nat))
    ensures
        digits_of(v).len() == 12,
        all_digits(digits_of(v)),
        bank_of(v).len() == 22,
{
    lemma_padded_shape(v.0, 3);
    lemma_padded_shape(v.1, 4);
    lemma_padded_shape(v.2, 3);
    lemma_padded_shape(v.3, 2);
    let d = digits_of(v);
    let s1 = padded(v.0, 3);
    let s2 = padded(v.1, 4);
    let s3 = padded(v.2, 3);
    let s4 = padded(v.3, 2);
    assert forall|i: int| 0 <= i < d.len() implies #[trigger] crate::decimal::is_digit(d[i]) by {
        if i < 3 {
            assert(d[i] == s1[i]);
        } else if i < 7 {
            assert(d[i] == s2[i - 3]);
        } else if i < 10 {
            assert(d[i] == s3[i - 7]);
        } else {
            assert(d[i] == s4[i - 10]);
        }
    }
}

/// The bank rendering is the twelve-digit rendering with `"+++ "` in front,
/// `'/'` after the third and the seventh digit, and `" +++"` behind.
pub proof fn bank_format_wraps_digits(v: (nat, nat, nat, nat))
    ensures
        bank_of(v) == bank_open() + digits_of(v).subrange(0, 3) + bank_separator()
            + digits_of(v).subrange(3, 7) + bank_separator() + digits_of(v).subrange(7, 12)
            + bank_close(),
{
    lemma_padded_shape(v.0, 3);
    lemma_padded_shape(v.1, 4);
    lemma_padded_shape(v.2, 3);
    lemma_padded_shape(v.3, 2);
    let d = digits_of(v);
    assert(d.subrange(0, 3) == padded(v.0, 3));
    assert(d.subrange(3, 7) == padded(v.1, 4));
    assert(d.subrange(7, 12) == padded(v.2, 3) + padded(v.3, 2));
    assert(bank_of(v) == bank_open() + d.subrange(0, 3) + bank_separator() + d.subrange(3, 7)
        + bank_separator() + d.subrange(7, 12) + bank_close());
}

/// For a valid identifier, the first ten digits of its twelve-digit rendering
/// read back as the base code, and the last two as the checksum, which is that
/// code modulo 97, or 97 where the remainder is zero.
pub proof fn checksum_reads_back(v: (nat, nat, nat, nat))
    requires
        is_valid(v),
    ensures
        value_of(digits_of(v).subrange(0, 10)) == code_of(v.0, v.1, v.2),
        value_of(digits_of(v).subrange(10, 12)) == v.3,
        v.3 == (if code_of(v.0, v.1, v.2) % 97 == 0 {
            97
        } else {
            code_of(v.0, v.1, v.2) % 97
        }),
{
    let s1 = padded(v.0, 3);
    let s2 = padded(v.1, 4);
    let s3 = padded(v.2, 3);
    let s4 = padded(v.3, 2);
    lemma_padded_shape(v.0, 3);
    lemma_padded_shape(v.1, 4);
    lemma_padded_shape(v.2, 3);
    lemma_padded_shape(v.3, 2);
    reveal_with_fuel(pow10, 5);
    assert(pow10(2) == 100);
    assert(pow10(3) == 1000);
    assert(pow10(4) == 10000);
    lemma_padded_value(v.0, 3);
    lemma_padded_value(v.1, 4);
    lemma_padded_value(v.2, 3);
    lemma_padded_value(v.3, 2);
    let d = digits_of(v);
    assert(d.subrange(0, 10) == s1 + s2 + s3);
    assert(d.subrange(10, 12) == s4);
    lemma_value_concat(s1, s2);
    lemma_value_concat(s1 + s2, s3);
    assert((v.0 * 10000 + v.1) * 1000 + v.2 == v.0 * 10_000_000 + v.1 * 1000 + v.2)
        by (nonlinear_arith);
    assert(CHECK_MODULUS == 97);
}

} // verus!
