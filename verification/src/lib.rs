//! Conversion of RX1200 drum-machine presets into TAL-Drum presets.
//!
//! `rx` holds a preset as it is read, `intermediate` the drum machine's settings that the
//! preset describes, and `td` the TAL-Drum preset built from them; `audio` reads a
//! sample's length from its file's bytes, `cli` completes and asks for directories, and
//! `config` holds the remembered folders. Real-valued settings are carried by their
//! IEEE-754 bit patterns (`FloatBits`): the library moves them from one structure to the
//! next, and reads them only to tell whether a value is zero (`float_is_nonzero`) and to
//! convert one to `u8` (`float_to_u8`); it does no floating-point arithmetic.

use vstd::prelude::*;
use vstd::arithmetic::power2::pow2;
use vstd::bits::lemma_u64_shr_is_div;
use crate::text::{bytes_eq_ignore_ascii_case, eq_ignore_ascii_case, str_bytes, utf8_of};

pub mod audio;
pub mod cli;
pub mod config;
pub mod intermediate;
pub mod rx;
pub mod td;
pub mod text;

verus! {

/// A 64-bit floating-point value, held as its IEEE-754 bit pattern.
#[derive(Clone, Copy, Debug, PartialEq, Eq, Structural)]
pub struct FloatBits {
    pub bits: u64,
}

/// Whether a floating-point value differs from zero: any bit but the sign bit is set
/// (so both zeros are zero, and a NaN differs from zero).
pub open spec fn is_nonzero(x: FloatBits) -> bool {
    x.bits & 0x7fff_ffff_ffff_ffff != 0
}

/// Whether a floating-point value differs from zero (`value != 0.0`).
pub fn float_is_nonzero(x: FloatBits) -> (r: bool)
    ensures
        r == is_nonzero(x),
{
    x.bits & 0x7fff_ffff_ffff_ffff != 0
}

/// `value as u8` for a floating-point value: a NaN and every value below 1 (negative ones
/// included) give 0, every value of 256 or more gives 255, and any other value its integer
/// part. With the sign, the biased exponent `e` and the 52-bit fraction `f` of the bit
/// pattern, a finite value of at least 1 is `(2^52 + f) / 2^(1075 - e)`.
pub open spec fn truncated_u8(x: FloatBits) -> u8 {
    let negative = x.bits >> 63 == 1;
    let biased = (x.bits >> 52) & 0x7ff;
    let fraction = x.bits & 0xf_ffff_ffff_ffff;
    if negative || (biased == 0x7ff && fraction != 0) || biased < 1023 {
        0
    } else if biased >= 1031 {
        255
    } else {
        ((0x10_0000_0000_0000 + fraction) / (pow2((1075 - biased) as nat) as int)) as u8
    }
}

/// Converts a floating-point value to `u8` as `value as u8` does.
pub fn float_to_u8(x: FloatBits) -> (r: u8)
    ensures
        r == truncated_u8(x),
{
    let bits = x.bits;
    let biased = (bits >> 52) & 0x7ff;
    let fraction = bits & 0xf_ffff_ffff_ffff;
    if bits >> 63 == 1 || (biased == 0x7ff && fraction != 0) || biased < 1023 {
        0
    } else if biased >= 1031 {
        255
    } else {
        assert(fraction <= 0xf_ffff_ffff_ffff) by (bit_vector)
            requires
                fraction == bits & 0xf_ffff_ffff_ffff,
        ;
        let shift: u64 = 1075 - biased;
        let m: u64 = 0x10_0000_0000_0000 + fraction;
        proof {
            lemma_u64_shr_is_div(m, shift);
        }
        assert(m >> shift < 256) by (bit_vector)
            requires
                m < 0x20_0000_0000_0000,
                45 <= shift,
        ;
        (m >> shift) as u8
    }
}

/// Whether a file extension marks an RX1200 preset: it is `rx1200`, ignoring the case
/// of ASCII letters.
pub fn is_rx1200_extension(extension: &str) -> (r: bool)
    ensures
        r == eq_ignore_ascii_case(utf8_of(extension@), utf8_of("rx1200"@)),
{
    bytes_eq_ignore_ascii_case(str_bytes(extension), str_bytes("rx1200"))
}

} // verus!
