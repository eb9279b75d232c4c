//! Typed views over RISC-V-style control-and-status register values.
//!
//! Raw register words are read and written by instruction wrappers outside
//! this library; everything here is a pure transformation between those
//! words and values that are valid by construction: a non-zero fault
//! address, a word-width plus extension bitset decoded from the feature
//! register, a classified trap cause, a trap-vector mode-and-address pair,
//! and the packed vector-unit configuration byte.

use vstd::prelude::*;

pub mod address;
pub mod misa;
pub mod scause;
pub mod stvec;
pub mod vsetvli;

pub use address::Virtual;
pub use misa::Extension;
pub use scause::Cause;
pub use scause::Exception;
pub use scause::Interrupt;
pub use stvec::Error;
pub use stvec::Mode;
pub use vsetvli::Sealed;
pub use vsetvli::Sew;

verus! {

/// Vector register group multiplier.
#[derive(Debug, Clone, Copy, PartialEq, Eq, Structural)]
pub enum LMUL {
    /// 1x multiplier.
    M1,
    /// 2x multiplier.
    M2,
    /// 4x multiplier.
    M4,
    /// 8x multiplier.
    M8,
    /// Half fractional multiplier.
    MF2,
    /// Quarter fractional multiplier.
    MF4,
    /// Eighth fractional multiplier.
    MF8,
}

/// The three-bit field value of a group multiplier.
pub open spec fn lmul_code(lmul: LMUL) -> u8 {
    match lmul {
        LMUL::M1 => 0,
        LMUL::M2 => 1,
        LMUL::M4 => 2,
        LMUL::M8 => 3,
        LMUL::MF2 => 4,
        LMUL::MF4 => 5,
        LMUL::MF8 => 6,
    }
}

impl LMUL {
    /// The three-bit field value of this group multiplier.
    pub fn code(self) -> (r: u8)
        ensures
            r == lmul_code(self),
    {
        match self {
            LMUL::M1 => 0,
            LMUL::M2 => 1,
            LMUL::M4 => 2,
            LMUL::M8 => 3,
            LMUL::MF2 => 4,
            LMUL::MF4 => 5,
            LMUL::MF8 => 6,
        }
    }
}

/// Selected element width.
#[derive(Debug, Clone, Copy, PartialEq, Eq, Structural)]
pub enum SEW {
    /// Eight-bit elements.
    E8,
    /// Sixteen-bit elements.
    E16,
    /// Thirty-two-bit elements.
    E32,
    /// Sixty-four-bit elements.
    E64,
    /// One-hundred-twenty-eight-bit elements.
    E128,
}

/// The field value of a selected element width.
pub open spec fn sew_code(sew: SEW) -> u8 {
    match sew {
        SEW::E8 => 0,
        SEW::E16 => 1,
        SEW::E32 => 2,
        SEW::E64 => 3,
        SEW::E128 => 4,
    }
}

impl SEW {
    /// The field value of this selected element width.
    pub fn code(self) -> (r: u8)
        ensures
            r == sew_code(self),
    {
        match self {
            SEW::E8 => 0,
            SEW::E16 => 1,
            SEW::E32 => 2,
            SEW::E64 => 3,
            SEW::E128 => 4,
        }
    }
}

/// Machine word width, as encoded in the two-bit width field at the top of
/// the feature register.
#[derive(Debug, Clone, Copy, PartialEq, Eq, Structural)]
pub enum XLEN {
    X32,
    X64,
    X128,
}

/// The word width selected by a width-field value; meaningful only for
/// values that `XLEN::try_from` accepts.
pub open spec fn spec_xlen_of(value: usize) -> XLEN {
    if value == 0 {
        XLEN::X32
    } else if value == 1 {
        XLEN::X64
    } else {
        XLEN::X128
    }
}

impl XLEN {
    /// Decode a width-field value. The one remaining two-bit pattern is
    /// architecturally reserved and is rejected rather than defaulted.
    pub fn try_from(value: usize) -> (r: Result<XLEN, ()>)
        ensures
            r is Ok <==> value <= 2,
            r matches Ok(x) ==> x == spec_xlen_of(value),
    {
        match value {
            0 => Ok(XLEN::X32),
            1 => Ok(XLEN::X64),
            2 => Ok(XLEN::X128),
            _ => Err(()),
        }
    }
}

} // verus!
