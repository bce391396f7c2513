//! The size of a model's parameters, read off the name of its precision.

use vstd::prelude::*;
use vstd::string::StrSliceExecFns;
use crate::numbers::{parse_u32, parsed_u32};

verus! {

/// Why a precision names no size.
#[derive(Clone, Copy, Debug, PartialEq, Eq, Structural)]
pub enum PrecisionError {
    /// `q` is not followed by a number of bits.
    InvalidQuantized,
    /// `fp` is not followed by a number of bits.
    InvalidFloatingPoint,
    /// `fp` is followed by a number other than 16 and 32.
    UnsupportedFloatingPoint,
    /// The precision begins with neither `q` nor `fp`.
    UnsupportedFormat,
}

/// The bits that one parameter takes at a precision: `q` and a number for
/// that many bits, `fp16` and `fp32` for 16 and 32.
pub open spec fn precision_bits(precision: Seq<char>) -> Result<u32, PrecisionError> {
    if precision.len() >= 1 && precision[0] == 'q' {
        match parsed_u32(precision.skip(1)) {
            Some(bits) => Ok(bits as u32),
            None => Err(PrecisionError::InvalidQuantized),
        }
    } else if precision.len() >= 2 && precision[0] == 'f' && precision[1] == 'p' {
        match parsed_u32(precision.skip(2)) {
            Some(bits) => if bits == 16 || bits == 32 {
                Ok(bits as u32)
            } else {
                Err(PrecisionError::UnsupportedFloatingPoint)
            },
            None => Err(PrecisionError::InvalidFloatingPoint),
        }
    } else {
        Err(PrecisionError::UnsupportedFormat)
    }
}

/// Reads the bits per parameter off the name of a precision.
pub fn bits_per_parameter(precision: &str) -> (bits: Result<u32, PrecisionError>)
    ensures
        bits == precision_bits(precision@),
{
    let len = precision.unicode_len();
    if len >= 1 && precision.get_char(0) == 'q' {
        let rest = precision.substring_char(1, len);
        assert(rest@ =~= precision@.skip(1));
        match parse_u32(rest) {
            Some(bits) => Ok(bits),
            None => Err(PrecisionError::InvalidQuantized),
        }
    } else if len >= 2 && precision.get_char(0) == 'f' && precision.get_char(1) == 'p' {
        let rest = precision.substring_char(2, len);
        assert(rest@ =~= precision@.skip(2));
        match parse_u32(rest) {
            Some(bits) => if bits == 16 || bits == 32 {
                Ok(bits)
            } else {
                Err(PrecisionError::UnsupportedFloatingPoint)
            },
            None => Err(PrecisionError::InvalidFloatingPoint),
        }
    } else {
        Err(PrecisionError::UnsupportedFormat)
    }
}

} // verus!
