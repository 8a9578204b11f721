//! A single decimal digit, `0..=9`.
use vstd::prelude::*;

use crate::text::decimal;
use crate::text::decimal_string;

verus! {

/// The error of building a [`Digit`] from a number that is not a decimal digit.
#[derive(Debug, Clone, Copy, PartialEq, Eq)]
pub enum DigitParseError {
    OutOfBounds(u8),
}

impl View for DigitParseError {
    type V = DigitParseError;

    open spec fn view(&self) -> DigitParseError {
        *self
    }
}

/// A decimal digit: a number in `0..=9`.
#[derive(Debug, Clone, Copy, PartialEq, Eq, Structural)]
pub struct Digit(u8);

impl Digit {
    /// A `Digit` never holds more than nine.
    #[verifier::type_invariant]
    spec fn is_digit(self) -> bool {
        self.0 <= 9
    }

    /// The number the digit stands for.
    pub fn value(&self) -> (r: u8)
        ensures
            r == self@,
            r <= 9,
    {
        proof {
            use_type_invariant(self);
        }
        self.0
    }

    /// The decimal text of the digit (its `Display` form): one character.
    pub fn to_display_string(&self) -> (r: String)
        ensures
            self@ <= 9,
            r@ == decimal(self@ as nat),
            r@.len() == 1,
    {
        proof {
            use_type_invariant(self);
        }
        decimal_string(self.0 as u32)
    }
}

impl View for Digit {
    type V = u8;

    closed spec fn view(&self) -> u8 {
        self.0
    }
}

impl TryFrom<u8> for Digit {
    type Error = DigitParseError;

    /// A digit from a number, which must be at most nine.
    fn try_from(value: u8) -> (r: Result<Self, Self::Error>)
        ensures
            value <= 9 ==> (r matches Ok(d) && d@ == value),
            value > 9 ==> r == Err::<Digit, DigitParseError>(DigitParseError::OutOfBounds(value)),
    {
        if value > 9 {
            Err(DigitParseError::OutOfBounds(value))
        } else {
            Ok(Digit(value))
        }
    }
}

impl vstd::std_specs::convert::TryFromSpecImpl<u8> for Digit {
    open spec fn obeys_try_from_spec() -> bool {
        true
    }

    closed spec fn try_from_spec(v: u8) -> Result<Self, DigitParseError> {
        if v > 9 {
            Err(DigitParseError::OutOfBounds(v))
        } else {
            Ok(Digit(v))
        }
    }
}

} // verus!
