//! The trap-cause register: the top bit of the word selects between
//! asynchronous interrupts and synchronous exceptions, the remaining bits
//! carry the cause code.

use vstd::prelude::*;

verus! {

/// A synchronous exception cause, one member per architecturally defined
/// code.
#[derive(Debug, Clone, Copy, PartialEq, Eq, Structural)]
pub enum Exception {
    InstructionAddressMisaligned,
    InstructionAccessFault,
    IllegalInstruction,
    Breakpoint,
    LoadAddressMisaligned,
    LoadAccessFault,
    StoreAddressMisaligned,
    StoreAccessFault,
    UserEnvironmentCall,
    SupervisorEnvironmentCall,
    InstructionPageFault,
    LoadPageFault,
    StorePageFault,
}

/// An asynchronous interrupt cause, one member per architecturally defined
/// code.
#[derive(Debug, Clone, Copy, PartialEq, Eq, Structural)]
pub enum Interrupt {
    Software,
    Timer,
    External,
}

/// A classified trap cause.
#[derive(Debug, Clone, Copy, PartialEq, Eq, Structural)]
pub enum Cause {
    Exception(Exception),
    Interrupt(Interrupt),
}

/// A cause word that names no known code.
#[derive(Debug, Clone, Copy, PartialEq, Eq, Structural)]
pub enum CauseError {
    /// The word classifies as an exception, but its code is reserved.
    UnknownException(u64),
    /// The word classifies as an interrupt, but its code is reserved.
    UnknownInterrupt(u64),
}

/// The architecturally fixed code of an exception cause.
pub open spec fn exception_code(e: Exception) -> u64 {
    match e {
        Exception::InstructionAddressMisaligned => 0,
        Exception::InstructionAccessFault => 1,
        Exception::IllegalInstruction => 2,
        Exception::Breakpoint => 3,
        Exception::LoadAddressMisaligned => 4,
        Exception::LoadAccessFault => 5,
        Exception::StoreAddressMisaligned => 6,
        Exception::StoreAccessFault => 7,
        Exception::UserEnvironmentCall => 8,
        Exception::SupervisorEnvironmentCall => 9,
        Exception::InstructionPageFault => 12,
        Exception::LoadPageFault => 13,
        Exception::StorePageFault => 15,
    }
}

/// Whether a code names a known exception cause.
pub open spec fn is_exception_code(code: u64) -> bool {
    code <= 9 || code == 12 || code == 13 || code == 15
}

/// The exception cause a known code names; meaningful only for codes that
/// `is_exception_code` accepts.
pub open spec fn spec_exception_of(code: u64) -> Exception {
    if code == 0 {
        Exception::InstructionAddressMisaligned
    } else if code == 1 {
        Exception::InstructionAccessFault
    } else if code == 2 {
        Exception::IllegalInstruction
    } else if code == 3 {
        Exception::Breakpoint
    } else if code == 4 {
        Exception::LoadAddressMisaligned
    } else if code == 5 {
        Exception::LoadAccessFault
    } else if code == 6 {
        Exception::StoreAddressMisaligned
    } else if code == 7 {
        Exception::StoreAccessFault
    } else if code == 8 {
        Exception::UserEnvironmentCall
    } else if code == 9 {
        Exception::SupervisorEnvironmentCall
    } else if code == 12 {
        Exception::InstructionPageFault
    } else if code == 13 {
        Exception::LoadPageFault
    } else {
        Exception::StorePageFault
    }
}

/// The architecturally fixed code of an interrupt cause.
pub open spec fn interrupt_code(i: Interrupt) -> u64 {
    match i {
        Interrupt::Software => 1,
        Interrupt::Timer => 5,
        Interrupt::External => 9,
    }
}

/// Whether a code names a known interrupt cause.
pub open spec fn is_interrupt_code(code: u64) -> bool {
    code == 1 || code == 5 || code == 9
}

/// The interrupt cause a known code names; meaningful only for codes that
/// `is_interrupt_code` accepts.
pub open spec fn spec_interrupt_of(code: u64) -> Interrupt {
    if code == 1 {
        Interrupt::Software
    } else if code == 5 {
        Interrupt::Timer
    } else {
        Interrupt::External
    }
}

impl Exception {
    /// Decode an exception code, rejecting reserved codes.
    pub fn try_from(code: u64) -> (r: Result<Exception, ()>)
        ensures
            r is Ok <==> is_exception_code(code),
            r matches Ok(e) ==> e == spec_exception_of(code),
    {
        match code {
            0 => Ok(Exception::InstructionAddressMisaligned),
            1 => Ok(Exception::InstructionAccessFault),
            2 => Ok(Exception::IllegalInstruction),
            3 => Ok(Exception::Breakpoint),
            4 => Ok(Exception::LoadAddressMisaligned),
            5 => Ok(Exception::LoadAccessFault),
            6 => Ok(Exception::StoreAddressMisaligned),
            7 => Ok(Exception::StoreAccessFault),
            8 => Ok(Exception::UserEnvironmentCall),
            9 => Ok(Exception::SupervisorEnvironmentCall),
            12 => Ok(Exception::InstructionPageFault),
            13 => Ok(Exception::LoadPageFault),
            15 => Ok(Exception::StorePageFault),
            _ => Err(()),
        }
    }

    /// The code of this exception cause.
    pub fn code(self) -> (r: u64)
        ensures
            r == exception_code(self),
    {
        match self {
            Exception::InstructionAddressMisaligned => 0,
            Exception::InstructionAccessFault => 1,
            Exception::IllegalInstruction => 2,
            Exception::Breakpoint => 3,
            Exception::LoadAddressMisaligned => 4,
            Exception::LoadAccessFault => 5,
            Exception::StoreAddressMisaligned => 6,
            Exception::StoreAccessFault => 7,
            Exception::UserEnvironmentCall => 8,
            Exception::SupervisorEnvironmentCall => 9,
            Exception::InstructionPageFault => 12,
            Exception::LoadPageFault => 13,
            Exception::StorePageFault => 15,
        }
    }
}

impl Interrupt {
    /// Decode an interrupt code, rejecting reserved codes.
    pub fn try_from(code: u64) -> (r: Result<Interrupt, ()>)
        ensures
            r is Ok <==> is_interrupt_code(code),
            r matches Ok(i) ==> i == spec_interrupt_of(code),
    {
        match code {
            1 => Ok(Interrupt::Software),
            5 => Ok(Interrupt::Timer),
            9 => Ok(Interrupt::External),
            _ => Err(()),
        }
    }

    /// The code of this interrupt cause.
    pub fn code(self) -> (r: u64)
        ensures
            r == interrupt_code(self),
    {
        match self {
            Interrupt::Software => 1,
            Interrupt::Timer => 5,
            Interrupt::External => 9,
        }
    }
}

/// The cause-register word that a classified cause encodes to: the cause
/// code, with the top bit set for interrupts.
pub open spec fn spec_encode(cause: Cause) -> u64 {
    match cause {
        Cause::Exception(e) => exception_code(e),
        Cause::Interrupt(i) => interrupt_code(i) | 0x8000_0000_0000_0000,
    }
}

/// The classification of a raw cause-register word: the top bit selects the
/// branch, the remaining bits are the code, and reserved codes on either
/// branch are reported rather than guessed at.
pub open spec fn spec_decode(word: u64) -> Result<Cause, CauseError> {
    let code = word & 0x7FFF_FFFF_FFFF_FFFF;
    if word >> 63 != 0 {
        if is_interrupt_code(code) {
            Ok(Cause::Interrupt(spec_interrupt_of(code)))
        } else {
            Err(CauseError::UnknownInterrupt(code))
        }
    } else {
        if is_exception_code(code) {
            Ok(Cause::Exception(spec_exception_of(code)))
        } else {
            Err(CauseError::UnknownException(code))
        }
    }
}

/// Pack a classified cause into a cause-register word.
pub fn encode(cause: Cause) -> (r: u64)
    ensures
        r == spec_encode(cause),
{
    match cause {
        Cause::Exception(e) => e.code(),
        Cause::Interrupt(i) => i.code() | 0x8000_0000_0000_0000,
    }
}

/// Classify a raw cause-register word.
pub fn decode(word: u64) -> (r: Result<Cause, CauseError>)
    ensures
        r == spec_decode(word),
{
    let code: u64 = word & 0x7FFF_FFFF_FFFF_FFFF;
    if word >> 63 != 0 {
        match Interrupt::try_from(code) {
            Ok(i) => Ok(Cause::Interrupt(i)),
            Err(()) => Err(CauseError::UnknownInterrupt(code)),
        }
    } else {
        match Exception::try_from(code) {
            Ok(e) => Ok(Cause::Exception(e)),
            Err(()) => Err(CauseError::UnknownException(code)),
        }
    }
}

/// Every classified cause survives a trip through the register format:
/// decoding the word that a cause encodes to yields that cause back.
pub proof fn lemma_cause_round_trip(cause: Cause)
    ensures
        spec_decode(spec_encode(cause)) == Ok::<Cause, CauseError>(cause),
{
    match cause {
        Cause::Exception(e) => {
            let code = exception_code(e);
            assert(code <= 15);
            lemma_exception_word_fields(code);
        },
        Cause::Interrupt(i) => {
            let code = interrupt_code(i);
            assert(code <= 9);
            lemma_interrupt_word_fields(code);
        },
    }
}

/// A word holding only a small exception code classifies as an exception
/// and hands the code back.
proof fn lemma_exception_word_fields(code: u64)
    by (bit_vector)
    requires
        code <= 15,
    ensures
        code >> 63 == 0,
        code & 0x7FFF_FFFF_FFFF_FFFF == code,
{
}

/// A word holding a small interrupt code under the set top bit classifies
/// as an interrupt and hands the code back.
proof fn lemma_interrupt_word_fields(code: u64)
    by (bit_vector)
    requires
        code <= 9,
    ensures
        (code | 0x8000_0000_0000_0000) >> 63 != 0,
        (code | 0x8000_0000_0000_0000) & 0x7FFF_FFFF_FFFF_FFFF == code,
{
}

} // verus!
