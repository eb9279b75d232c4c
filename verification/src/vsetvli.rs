//! The vector-unit configuration byte: the immediate operand of the
//! configuration-setting instruction, packed from an element-width
//! selection, a group multiplier, and two policy flags.

use vstd::prelude::*;

use crate::lmul_code;
use crate::sew_code;
use crate::LMUL;
use crate::SEW;

verus! {

/// The packed configuration byte: mask-agnostic flag, tail-agnostic flag,
/// three-bit multiplier field, three-bit element-width field, from the top
/// bit down.
pub open spec fn spec_vtype(sew: u8, lmul: u8, tail_agnostic: bool, mask_agnostic: bool) -> u8 {
    ((if mask_agnostic {
        1u8
    } else {
        0u8
    }) << 7) | ((if tail_agnostic {
        1u8
    } else {
        0u8
    }) << 6) | (lmul << 3) | sew
}

/// Closes the set of element types the vector-unit configuration accepts.
pub trait Sealed {

}

/// An element type with a legal element-width selection. Only the four
/// supported element sizes implement it, so an unsupported width is refused
/// when the program is built rather than at run time.
pub trait Sew: Sealed {
    /// The element-width selection this type stands for.
    spec fn spec_sew() -> SEW;

    /// The element-width selection this type stands for.
    fn sew() -> (s: SEW)
        ensures
            s == Self::spec_sew(),
    ;
}

impl Sealed for u8 {

}

impl Sew for u8 {
    open spec fn spec_sew() -> SEW {
        SEW::E8
    }

    fn sew() -> SEW {
        SEW::E8
    }
}

impl Sealed for u16 {

}

impl Sew for u16 {
    open spec fn spec_sew() -> SEW {
        SEW::E16
    }

    fn sew() -> SEW {
        SEW::E16
    }
}

impl Sealed for u32 {

}

impl Sew for u32 {
    open spec fn spec_sew() -> SEW {
        SEW::E32
    }

    fn sew() -> SEW {
        SEW::E32
    }
}

impl Sealed for u64 {

}

impl Sew for u64 {
    open spec fn spec_sew() -> SEW {
        SEW::E64
    }

    fn sew() -> SEW {
        SEW::E64
    }
}

/// Assemble the configuration byte for element type `S`: the mask-agnostic
/// and tail-agnostic flags in the two top bits, the multiplier field below
/// them, and the element-width field at the bottom.
pub fn vtype<S: Sew>(lmul: LMUL, tail_agnostic: bool, mask_agnostic: bool) -> (r: u8)
    ensures
        r == spec_vtype(sew_code(S::spec_sew()), lmul_code(lmul), tail_agnostic, mask_agnostic),
{
    let sew: u8 = S::sew().code();
    let lmul_field: u8 = lmul.code();
    let ta: u8 = if tail_agnostic {
        1
    } else {
        0
    };
    let ma: u8 = if mask_agnostic {
        1
    } else {
        0
    };
    (ma << 7) | (ta << 6) | (lmul_field << 3) | sew
}

} // verus!
