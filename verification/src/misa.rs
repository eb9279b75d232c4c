//! The feature register: a machine word whose top two bits select the word
//! width and whose low 26 bits form a bitset of implemented ISA extensions.

use vstd::prelude::*;

use crate::spec_xlen_of;
use crate::XLEN;

verus! {

/// The two-bit width field at the top of a feature-register word.
pub open spec fn width_field(word: u64) -> u64 {
    (word >> 62) & 0b11
}

/// The 26-bit extension field at the bottom of a feature-register word.
pub open spec fn feature_field(word: u64) -> u64 {
    word & 0x3FF_FFFF
}

/// The single-flag bit pattern that an ISA extension letter names, if the
/// letter is recognized.
pub open spec fn spec_letter_mask(letter: char) -> Option<u64> {
    match letter {
        'A' => Some(1u64 << 0),
        'C' => Some(1u64 << 2),
        'D' => Some(1u64 << 3),
        'E' => Some(1u64 << 4),
        'F' => Some(1u64 << 5),
        'H' => Some(1u64 << 7),
        'I' => Some(1u64 << 8),
        'M' => Some(1u64 << 12),
        'Q' => Some(1u64 << 16),
        'S' => Some(1u64 << 18),
        'U' => Some(1u64 << 20),
        _ => None,
    }
}

/// A bitset of implemented ISA extensions, one architecturally fixed bit
/// position per extension letter.
#[derive(Debug, Clone, Copy, PartialEq, Eq, Structural)]
pub struct Extension {
    bits: u64,
}

impl View for Extension {
    type V = u64;

    closed spec fn view(&self) -> u64 {
        self.bits
    }
}

impl Extension {
    /// The single-flag set for an ISA extension letter; unrecognized
    /// letters are rejected.
    pub fn try_from(letter: char) -> (r: Result<Extension, ()>)
        ensures
            r is Ok <==> spec_letter_mask(letter) is Some,
            r matches Ok(e) ==> spec_letter_mask(letter) == Some(e@),
    {
        match letter {
            'A' => Ok(Extension { bits: 1u64 << 0 }),
            'C' => Ok(Extension { bits: 1u64 << 2 }),
            'D' => Ok(Extension { bits: 1u64 << 3 }),
            'E' => Ok(Extension { bits: 1u64 << 4 }),
            'F' => Ok(Extension { bits: 1u64 << 5 }),
            'H' => Ok(Extension { bits: 1u64 << 7 }),
            'I' => Ok(Extension { bits: 1u64 << 8 }),
            'M' => Ok(Extension { bits: 1u64 << 12 }),
            'Q' => Ok(Extension { bits: 1u64 << 16 }),
            'S' => Ok(Extension { bits: 1u64 << 18 }),
            'U' => Ok(Extension { bits: 1u64 << 20 }),
            _ => Err(()),
        }
    }

    /// Set union.
    pub fn bitor(self, rhs: Extension) -> (r: Extension)
        ensures
            r@ == self@ | rhs@,
    {
        Extension { bits: self.bits | rhs.bits }
    }

    /// In-place set union.
    pub fn bitor_assign(&mut self, rhs: Extension)
        ensures
            final(self)@ == old(self)@ | rhs@,
    {
        self.bits = self.bits | rhs.bits;
    }

    /// Set intersection.
    pub fn bitand(self, rhs: Extension) -> (r: Extension)
        ensures
            r@ == self@ & rhs@,
    {
        Extension { bits: self.bits & rhs.bits }
    }

    /// In-place set intersection.
    pub fn bitand_assign(&mut self, rhs: Extension)
        ensures
            final(self)@ == old(self)@ & rhs@,
    {
        self.bits = self.bits & rhs.bits;
    }

    /// Membership test: whether every flag of `rhs` is also set here.
    pub fn contains(self, rhs: Extension) -> (r: bool)
        ensures
            r <==> self@ & rhs@ == rhs@,
    {
        self.bits & rhs.bits == rhs.bits
    }

    /// Set complement.
    pub fn not(self) -> (r: Extension)
        ensures
            r@ == !self@,
    {
        Extension { bits: !self.bits }
    }
}

/// What a feature-register word splits into, at the level of the extension
/// set's bit pattern: the width member its width field selects together
/// with its extension field, or an error on the reserved width pattern.
pub open spec fn spec_decode(word: u64) -> Result<(XLEN, u64), ()> {
    if width_field(word) == 3 {
        Err(())
    } else {
        Ok((spec_xlen_of(width_field(word) as usize), feature_field(word)))
    }
}

/// Split a feature-register word into its word-width member and its
/// extension bitset. The one width-field pattern outside the width mapping
/// is architecturally reserved and is reported as an error rather than
/// replaced by a default.
pub fn decode(word: u64) -> (r: Result<(XLEN, Extension), ()>)
    ensures
        r is Ok <==> spec_decode(word) is Ok,
        r matches Ok(p) ==> spec_decode(word) == Ok::<(XLEN, u64), ()>((p.0, p.1@)),
{
    let field: u64 = (word >> 62) & 0b11;
    let features: u64 = word & 0x3FF_FFFF;
    proof {
        assert((word >> 62) & 0b11 <= 3) by (bit_vector);
    }
    match XLEN::try_from(field as usize) {
        Ok(width) => Ok((width, Extension { bits: features })),
        Err(()) => Err(()),
    }
}

/// A feature-register word assembled from a width field and a 26-bit
/// extension field hands both fields back unchanged: decoding such a word
/// yields exactly the width member that the field selects and exactly the
/// extension bits that went in, and rejects the word exactly when the
/// width field is the reserved pattern.
pub proof fn lemma_misa_field_round_trip(width: u64, features: u64)
    requires
        width <= 3,
        features <= 0x3FF_FFFF,
    ensures
        width_field((width << 62) | features) == width,
        feature_field((width << 62) | features) == features,
        width <= 2 ==> spec_decode((width << 62) | features) == Ok::<(XLEN, u64), ()>(
            (spec_xlen_of(width as usize), features),
        ),
        width == 3 ==> spec_decode((width << 62) | features) is Err,
{
    assert((((width << 62) | features) >> 62) & 0b11 == width && ((width << 62) | features)
        & 0x3FF_FFFF == features) by (bit_vector)
        requires
            width <= 3,
            features <= 0x3FF_FFFF,
    ;
}

} // verus!
