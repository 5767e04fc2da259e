//! The structured identifier: three bounded parts and a mod-97 check value,
//! rendered as a twelve-digit string or in the decorated bank layout.
use crate::decimal::{decimal, padded, push_decimal, push_padded};
use vstd::prelude::*;

verus! {

/// Largest accepted first part (three digits).
pub const FIRST_PART_MAX: u64 = 999;

/// Largest accepted second part (four digits).
pub const SECOND_PART_MAX: u64 = 9999;

/// Largest accepted third part (three digits).
pub const THIRD_PART_MAX: u64 = 999;

/// The modulus of the check value.
pub const CHECK_MODULUS: u64 = 97;

/// The ten-digit base code: the three parts written side by side as groups
/// of 3, 4 and 3 digits.
pub open spec fn code_of(a: nat, b: nat, c: nat) -> nat {
    a * 10_000_000 + b * 1000 + c
}

/// The check value: the base code modulo 97, with a zero remainder written as 97.
pub open spec fn checksum_of(a: nat, b: nat, c: nat) -> nat {
    let r = code_of(a, b, c) % (CHECK_MODULUS as nat);
    if r == 0 {
        CHECK_MODULUS as nat
    } else {
        r
    }
}

/// A model value `(first, second, third, checksum)` that the constructor can produce.
pub open spec fn is_valid(v: (nat, nat, nat, nat)) -> bool {
    &&& v.0 <= FIRST_PART_MAX
    &&& v.1 <= SECOND_PART_MAX
    &&& v.2 <= THIRD_PART_MAX
    &&& v.3 == checksum_of(v.0, v.1, v.2)
}

/// The twelve-digit rendering `AAABBBBCCCDD`.
pub open spec fn digits_of(v: (nat, nat, nat, nat)) -> Seq<char> {
    padded(v.0, 3) + padded(v.1, 4) + padded(v.2, 3) + padded(v.3, 2)
}

pub open spec fn bank_open() -> Seq<char> {
    seq!['+', '+', '+', ' ']
}

pub open spec fn bank_close() -> Seq<char> {
    seq![' ', '+', '+', '+']
}

pub open spec fn bank_separator() -> Seq<char> {
    seq!['/']
}

/// The bank rendering `+++ AAA/BBBB/CCCDD +++`.
pub open spec fn bank_of(v: (nat, nat, nat, nat)) -> Seq<char> {
    bank_open() + padded(v.0, 3) + bank_separator() + padded(v.1, 4) + bank_separator()
        + padded(v.2, 3) + padded(v.3, 2) + bank_close()
}

/// Why a triple of parts was refused.
#[derive(Debug, Clone, Copy, PartialEq, Eq, Structural)]
pub enum StructuredDataError {
    FirstPartOutOfRange(u64),
    SecondPartOutOfRange(u64),
    ThirdPartOutOfRange(u64),
    CodeParsingIssue,
}

/// The error that construction reports for `(a, b, c)`, checking the parts in
/// order, or `None` when all three are in range.
pub open spec fn first_violation(a: u64, b: u64, c: u64) -> Option<StructuredDataError> {
    if a > FIRST_PART_MAX {
        Some(StructuredDataError::FirstPartOutOfRange(a))
    } else if b > SECOND_PART_MAX {
        Some(StructuredDataError::SecondPartOutOfRange(b))
    } else if c > THIRD_PART_MAX {
        Some(StructuredDataError::ThirdPartOutOfRange(c))
    } else {
        None
    }
}

pub open spec fn message_of(e: StructuredDataError) -> Seq<char> {
    match e {
        StructuredDataError::FirstPartOutOfRange(v) => "first_part must be 0-999, got "@ + decimal(
            v as nat,
        ),
        StructuredDataError::SecondPartOutOfRange(v) => "second_part must be 0-9999, got "@
            + decimal(v as nat),
        StructuredDataError::ThirdPartOutOfRange(v) => "third_part must be 0-999, got "@ + decimal(
            v as nat,
        ),
        StructuredDataError::CodeParsingIssue => "Failed to parse code"@,
    }
}

impl StructuredDataError {
    /// The human-readable message of this error.
    pub fn message(&self) -> (r: String)
        ensures
            r@ == message_of(*self),
    {
        match *self {
            StructuredDataError::FirstPartOutOfRange(v) => {
                let mut s = String::from_str("first_part must be 0-999, got ");
                push_decimal(&mut s, v);
                s
            },
            StructuredDataError::SecondPartOutOfRange(v) => {
                let mut s = String::from_str("second_part must be 0-9999, got ");
                push_decimal(&mut s, v);
                s
            },
            StructuredDataError::ThirdPartOutOfRange(v) => {
                let mut s = String::from_str("third_part must be 0-999, got ");
                push_decimal(&mut s, v);
                s
            },
            StructuredDataError::CodeParsingIssue => String::from_str("Failed to parse code"),
        }
    }
}

/// A validated identifier. Its parts are in range and its checksum is the
/// one derived from them; it can only be built through [`StructuredData::new`].
#[derive(Debug, Clone, Copy)]
pub struct StructuredData {
    first_part: u64,
    second_part: u64,
    third_part: u64,
    checksum: u64,
}

impl View for StructuredData {
    type V = (nat, nat, nat, nat);

    closed spec fn view(&self) -> (nat, nat, nat, nat) {
        (
            self.first_part as nat,
            self.second_part as nat,
            self.third_part as nat,
            self.checksum as nat,
        )
    }
}

impl StructuredData {
    #[verifier::type_invariant]
    spec fn well_formed(self) -> bool {
        is_valid(self@)
    }

    /// Validates the three parts, in order, and derives the checksum.
    pub fn new(first_part: u64, second_part: u64, third_part: u64) -> (r: Result<
        Self,
        StructuredDataError,
    >)
        ensures
            r is Err <==> first_violation(first_part, second_part, third_part) is Some,
            r matches Err(e) ==> first_violation(first_part, second_part, third_part) == Some(e),
            r matches Ok(d) ==> d@ == (
                first_part as nat,
                second_part as nat,
                third_part as nat,
                checksum_of(first_part as nat, second_part as nat, third_part as nat),
            ),
            r matches Ok(d) ==> is_valid(d@),
    {
        if first_part > FIRST_PART_MAX {
            return Err(StructuredDataError::FirstPartOutOfRange(first_part));
        }
        if second_part > SECOND_PART_MAX {
            return Err(StructuredDataError::SecondPartOutOfRange(second_part));
        }
        if third_part > THIRD_PART_MAX {
            return Err(StructuredDataError::ThirdPartOutOfRange(third_part));
        }
        let code: u64 = first_part * 10_000_000 + second_part * 1000 + third_part;
        let mut checksum: u64 = code % CHECK_MODULUS;
        if checksum == 0 {
            checksum = CHECK_MODULUS;
        }
        Ok(StructuredData { first_part, second_part, third_part, checksum })
    }

    /// The bank rendering `+++ AAA/BBBB/CCCDD +++`, every part zero-padded.
    pub fn to_bank_format(&self) -> (r: String)
        ensures
            r@ == bank_of(self@),
            r@.len() == 22,
    {
        proof {
            reveal_strlit("+++ ");
            reveal_strlit("/");
            reveal_strlit(" +++");
        }
        let mut s = String::from_str("+++ ");
        push_padded(&mut s, self.first_part, 3);
        s.append("/");
        push_padded(&mut s, self.second_part, 4);
        s.append("/");
        push_padded(&mut s, self.third_part, 3);
        push_padded(&mut s, self.checksum, 2);
        s.append(" +++");
        proof {
            crate::decimal::lemma_padded_shape(self@.0, 3);
            crate::decimal::lemma_padded_shape(self@.1, 4);
            crate::decimal::lemma_padded_shape(self@.2, 3);
            crate::decimal::lemma_padded_shape(self@.3, 2);
        }
        s
    }

    /// The twelve-digit rendering `AAABBBBCCCDD`, every part zero-padded.
    pub fn to_digits(&self) -> (r: String)
        ensures
            r@ == digits_of(self@),
            r@.len() == 12,
    {
        let mut s = String::new();
        push_padded(&mut s, self.first_part, 3);
        push_padded(&mut s, self.second_part, 4);
        push_padded(&mut s, self.third_part, 3);
        push_padded(&mut s, self.checksum, 2);
        proof {
            crate::decimal::lemma_padded_shape(self@.0, 3);
            crate::decimal::lemma_padded_shape(self@.1, 4);
            crate::decimal::lemma_padded_shape(self@.2, 3);
            crate::decimal::lemma_padded_shape(self@.3, 2);
        }
        s
    }
}

} // verus!
