//! The trap-vector register: a handler address whose two low bits are
//! repurposed as a mode tag.

use vstd::prelude::*;

verus! {

/// How traps are dispatched: one common entry point, or a table indexed by
/// the cause. Either variant carries an address whose two low bits always
/// read back as zero, since the register stores the tag there.
#[derive(Debug, Clone, Copy, PartialEq, Eq, Structural)]
pub enum Mode {
    /// All traps enter at this one address.
    Direct(usize),
    /// Traps enter at an offset from this table base address.
    Vectored(usize),
}

/// A trap-vector word whose tag bits name no known mode.
#[derive(Debug, Clone, Copy, PartialEq, Eq, Structural)]
pub enum Error {
    /// The offending tag value.
    Invalid(usize),
}

/// The register word a mode packs to: the address with its two low bits
/// replaced by the mode tag. Packing is lossy on purpose: a supplied
/// address's two low bits are dropped, so callers must hand in addresses
/// that are already four-byte aligned to get them back unchanged.
pub open spec fn spec_encode(mode: Mode) -> usize {
    match mode {
        Mode::Direct(address) => address & !0b11,
        Mode::Vectored(address) => (address & !0b11) | 1,
    }
}

/// The mode a register word unpacks to: the two low bits select the mode,
/// the rest is the address. The two remaining tag patterns name no mode and
/// are reported with the offending tag value.
pub open spec fn spec_decode(word: usize) -> Result<Mode, Error> {
    if word & 0b11 == 0 {
        Ok(Mode::Direct(word & !0b11))
    } else if word & 0b11 == 1 {
        Ok(Mode::Vectored(word & !0b11))
    } else {
        Err(Error::Invalid(word & 0b11))
    }
}

/// Pack a mode into a trap-vector register word, dropping the two low bits
/// of the carried address.
pub fn encode(mode: Mode) -> (r: usize)
    ensures
        r == spec_encode(mode),
{
    match mode {
        Mode::Direct(address) => address & !0b11,
        Mode::Vectored(address) => (address & !0b11) | 1,
    }
}

/// Unpack a trap-vector register word, rejecting the two reserved tag
/// patterns.
pub fn decode(word: usize) -> (r: Result<Mode, Error>)
    ensures
        r == spec_decode(word),
{
    match word & 0b11 {
        0 => Ok(Mode::Direct(word & !0b11)),
        1 => Ok(Mode::Vectored(word & !0b11)),
        tag => Err(Error::Invalid(tag)),
    }
}

/// Every mode whose address is already four-byte aligned survives a trip
/// through the register format: decoding the word it encodes to yields the
/// same mode with the same address.
pub proof fn lemma_mode_round_trip(address: usize)
    requires
        address & 0b11 == 0,
    ensures
        spec_decode(spec_encode(Mode::Direct(address))) == Ok::<Mode, Error>(Mode::Direct(address)),
        spec_decode(spec_encode(Mode::Vectored(address))) == Ok::<Mode, Error>(
            Mode::Vectored(address),
        ),
{
    lemma_aligned_tag_fields(address);
}

/// Bit-level facts behind the round trip: tagging an aligned address leaves
/// the address bits intact and the tag recoverable.
proof fn lemma_aligned_tag_fields(address: usize)
    by (bit_vector)
    requires
        address & 0b11 == 0,
    ensures
        address & !0b11 == address,
        (address | 1) & 0b11 == 1,
        (address | 1) & !0b11 == address,
{
}

} // verus!
