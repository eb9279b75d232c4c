use riscv_csr::scause;
use riscv_csr::scause::CauseError;
use riscv_csr::Cause;
use riscv_csr::Exception;
use riscv_csr::Interrupt;

const TOP: u64 = 1 << 63;

#[test]
fn illegal_instruction_round_trips() {
    let cause = Cause::Exception(Exception::IllegalInstruction);
    assert_eq!(scause::decode(scause::encode(cause)), Ok(cause));
}

#[test]
fn every_known_cause_round_trips() {
    let causes = [
        Cause::Exception(Exception::InstructionAddressMisaligned),
        Cause::Exception(Exception::InstructionAccessFault),
        Cause::Exception(Exception::IllegalInstruction),
        Cause::Exception(Exception::Breakpoint),
        Cause::Exception(Exception::LoadAddressMisaligned),
        Cause::Exception(Exception::LoadAccessFault),
        Cause::Exception(Exception::StoreAddressMisaligned),
        Cause::Exception(Exception::StoreAccessFault),
        Cause::Exception(Exception::UserEnvironmentCall),
        Cause::Exception(Exception::SupervisorEnvironmentCall),
        Cause::Exception(Exception::InstructionPageFault),
        Cause::Exception(Exception::LoadPageFault),
        Cause::Exception(Exception::StorePageFault),
        Cause::Interrupt(Interrupt::Software),
        Cause::Interrupt(Interrupt::Timer),
        Cause::Interrupt(Interrupt::External),
    ];
    for cause in causes {
        assert_eq!(scause::decode(scause::encode(cause)), Ok(cause));
    }
}

#[test]
fn exception_codes_match_the_architecture() {
    assert_eq!(scause::encode(Cause::Exception(Exception::InstructionAddressMisaligned)), 0);
    assert_eq!(scause::encode(Cause::Exception(Exception::Breakpoint)), 3);
    assert_eq!(scause::encode(Cause::Exception(Exception::SupervisorEnvironmentCall)), 9);
    assert_eq!(scause::encode(Cause::Exception(Exception::StorePageFault)), 15);
}

#[test]
fn interrupt_codes_carry_the_top_bit() {
    assert_eq!(scause::encode(Cause::Interrupt(Interrupt::Software)), TOP | 1);
    assert_eq!(scause::encode(Cause::Interrupt(Interrupt::Timer)), TOP | 5);
    assert_eq!(scause::encode(Cause::Interrupt(Interrupt::External)), TOP | 9);
}

#[test]
fn unknown_interrupt_code_is_reported() {
    assert_eq!(scause::decode(TOP | 2), Err(CauseError::UnknownInterrupt(2)));
    assert_eq!(scause::decode(TOP | 0), Err(CauseError::UnknownInterrupt(0)));
    assert_eq!(scause::decode(TOP | 10), Err(CauseError::UnknownInterrupt(10)));
}

#[test]
fn unknown_exception_code_is_reported() {
    for code in [10u64, 11, 14, 16, 0x7FFF_FFFF_FFFF_FFFF] {
        assert_eq!(scause::decode(code), Err(CauseError::UnknownException(code)));
    }
}

#[test]
fn try_from_matches_the_code_tables() {
    assert_eq!(Exception::try_from(2), Ok(Exception::IllegalInstruction));
    assert_eq!(Exception::try_from(12), Ok(Exception::InstructionPageFault));
    assert_eq!(Exception::try_from(10), Err(()));
    assert_eq!(Exception::try_from(14), Err(()));
    assert_eq!(Interrupt::try_from(5), Ok(Interrupt::Timer));
    assert_eq!(Interrupt::try_from(2), Err(()));
    assert_eq!(Exception::try_from(2).unwrap().code(), 2);
    assert_eq!(Interrupt::try_from(9).unwrap().code(), 9);
}
