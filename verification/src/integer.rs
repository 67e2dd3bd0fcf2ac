//! Sized unsigned integer constants: the payload of an integer value, with
//! width checking, literal parsing and rendering.

use vstd::prelude::*;

use crate::error::{ValueError, ValueErrorModel};
use crate::text::{dec_digits, dec_value, is_dec_literal, parse_dec_u128, render_dec_u128};
use crate::types::IntegerType;

verus! {

/// A fixed-width unsigned integer constant, tagged by its width.
#[derive(Clone, Copy, PartialEq, Eq)]
pub enum Integer {
    U8(u8),
    U16(u16),
    U32(u32),
    U64(u64),
    U128(u128),
}

impl Integer {
    /// The width this constant carries.
    pub open spec fn int_type_spec(self) -> IntegerType {
        match self {
            Integer::U8(_) => IntegerType::U8,
            Integer::U16(_) => IntegerType::U16,
            Integer::U32(_) => IntegerType::U32,
            Integer::U64(_) => IntegerType::U64,
            Integer::U128(_) => IntegerType::U128,
        }
    }

    /// The unsigned magnitude of the constant.
    pub open spec fn value_spec(self) -> nat {
        match self {
            Integer::U8(n) => n as nat,
            Integer::U16(n) => n as nat,
            Integer::U32(n) => n as nat,
            Integer::U64(n) => n as nat,
            Integer::U128(n) => n as nat,
        }
    }

    /// The constant of width `it` holding `n` (truncated into the width).
    pub open spec fn of_spec(it: IntegerType, n: nat) -> Integer {
        match it {
            IntegerType::U8 => Integer::U8(n as u8),
            IntegerType::U16 => Integer::U16(n as u16),
            IntegerType::U32 => Integer::U32(n as u32),
            IntegerType::U64 => Integer::U64(n as u64),
            IntegerType::U128 => Integer::U128(n as u128),
        }
    }

    /// The width of the constant.
    pub fn get_type(&self) -> (t: IntegerType)
        ensures
            t == self.int_type_spec(),
    {
        match self {
            Integer::U8(_) => IntegerType::U8,
            Integer::U16(_) => IntegerType::U16,
            Integer::U32(_) => IntegerType::U32,
            Integer::U64(_) => IntegerType::U64,
            Integer::U128(_) => IntegerType::U128,
        }
    }

    /// The magnitude, widened into the largest width.
    pub fn value_u128(&self) -> (n: u128)
        ensures
            n == self.value_spec(),
    {
        match self {
            Integer::U8(n) => *n as u128,
            Integer::U16(n) => *n as u128,
            Integer::U32(n) => *n as u128,
            Integer::U64(n) => *n as u128,
            Integer::U128(n) => *n,
        }
    }

    /// Succeeds exactly when this constant's width is the expected width;
    /// otherwise reports the mismatch between the declared width and the
    /// constant's rendering.
    pub fn expect_type(&self, expected: &IntegerType) -> (r: Result<(), ValueError>)
        ensures
            r is Ok <==> self.int_type_spec() == *expected,
            r matches Err(e) ==> self.int_type_spec() != *expected && e@
                == (ValueErrorModel::TypeMismatch {
                expected: expected.spec_name(),
                value: dec_digits(self.value_spec()),
            }),
    {
        let actual = self.get_type();
        if actual == *expected {
            Ok(())
        } else {
            Err(
                ValueError::TypeMismatch {
                    expected: String::from_str(expected.name_str()),
                    value: render_dec_u128(self.value_u128()),
                },
            )
        }
    }

    /// Renders the constant as its canonical decimal text.
    pub fn render(&self) -> (r: String)
        ensures
            r@ == dec_digits(self.value_spec()),
    {
        render_dec_u128(self.value_u128())
    }

    /// Parses `text` as an unsigned integer of exactly the width `it`.
    /// Returns `None` when the text is not a decimal literal or its value
    /// does not fit the width.
    pub fn parse(text: &str, it: IntegerType) -> (r: Option<Integer>)
        ensures
            match r {
                Some(i) => is_dec_literal(text@) && dec_value(text@) <= it.max_spec() && i
                    == Integer::of_spec(it, dec_value(text@) as nat),
                None => !(is_dec_literal(text@) && dec_value(text@) <= it.max_spec()),
            },
    {
        match it {
            IntegerType::U8 => match parse_dec_u128(text, u8::MAX as u128) {
                Some(n) => Some(Integer::U8(n as u8)),
                None => None,
            },
            IntegerType::U16 => match parse_dec_u128(text, u16::MAX as u128) {
                Some(n) => Some(Integer::U16(n as u16)),
                None => None,
            },
            IntegerType::U32 => match parse_dec_u128(text, u32::MAX as u128) {
                Some(n) => Some(Integer::U32(n as u32)),
                None => None,
            },
            IntegerType::U64 => match parse_dec_u128(text, u64::MAX as u128) {
                Some(n) => Some(Integer::U64(n as u64)),
                None => None,
            },
            IntegerType::U128 => match parse_dec_u128(text, u128::MAX) {
                Some(n) => Some(Integer::U128(n)),
                None => None,
            },
        }
    }
}

} // verus!
