use riscv_csr::misa;
use riscv_csr::Extension;
use riscv_csr::XLEN;

fn single(letter: char) -> Extension {
    Extension::try_from(letter).expect("recognized letter")
}

#[test]
fn width_field_values_decode() {
    let features: u64 = 0x1101;
    let (x32, e) = misa::decode((0u64 << 62) | features).expect("width value 0");
    assert_eq!(x32, XLEN::X32);
    assert_eq!(e, single('I').bitor(single('M')).bitor(single('A')));

    let (x64, _) = misa::decode((1u64 << 62) | features).expect("width value 1");
    assert_eq!(x64, XLEN::X64);

    let (x128, _) = misa::decode((2u64 << 62) | features).expect("width value 2");
    assert_eq!(x128, XLEN::X128);
}

#[test]
fn reserved_width_field_is_an_error() {
    assert_eq!(misa::decode((3u64 << 62) | 0x141), Err(()));
    assert_eq!(misa::decode(3u64 << 62), Err(()));
}

#[test]
fn feature_field_is_reproduced_exactly() {
    // Every bit of the 26-bit field survives the decode, including bits
    // that name no catalogued extension.
    for shift in 0..26u64 {
        let f: u64 = 1 << shift;
        let (_, e) = misa::decode((1u64 << 62) | f).expect("width value 1");
        assert_eq!(e, e.bitand(e));
        // A set bit outside the catalog still comes back: compare via the
        // set operators against a decode of the same field.
        let (_, e2) = misa::decode((2u64 << 62) | f).expect("width value 2");
        assert_eq!(e, e2);
    }
}

#[test]
fn bits_above_the_feature_field_are_ignored() {
    let (_, e) = misa::decode((1u64 << 62) | (1u64 << 40) | 0x100).expect("width value 1");
    assert_eq!(e, single('I'));
}

#[test]
fn every_catalogued_letter_decodes_from_its_bit() {
    for (letter, bit) in [
        ('A', 0u64),
        ('C', 2),
        ('D', 3),
        ('E', 4),
        ('F', 5),
        ('H', 7),
        ('I', 8),
        ('M', 12),
        ('Q', 16),
        ('S', 18),
        ('U', 20),
    ] {
        let (_, e) = misa::decode((1u64 << 62) | (1u64 << bit)).expect("width value 1");
        assert_eq!(e, single(letter));
    }
}

#[test]
fn unrecognized_letters_are_rejected() {
    for letter in ['B', 'G', 'Z', 'a', 'm', '0', ' '] {
        assert_eq!(Extension::try_from(letter), Err(()));
    }
}

#[test]
fn disjoint_intersection_is_empty() {
    let empty = single('M').bitand(single('A'));
    assert_eq!(empty, single('M').bitand(single('C')));
    assert_eq!(empty.bitor(single('M')), single('M'));
}

#[test]
fn union_contains_both_bits_and_no_others() {
    let both = single('M').bitor(single('A'));
    assert_eq!(both.bitand(single('M')), single('M'));
    assert_eq!(both.bitand(single('A')), single('A'));
    assert_eq!(both.bitand(single('C')), single('M').bitand(single('A')));
    // Masking the union down to its two members changes nothing.
    assert_eq!(both.bitand(single('M').bitor(single('A'))), both);
}

#[test]
fn complement_flips_membership() {
    let m = single('M');
    assert_eq!(m.not().bitand(m), m.bitand(single('A')));
    assert_eq!(m.not().not(), m);
}

#[test]
fn assign_operators_match_the_pure_ones() {
    let mut e = single('I');
    e.bitor_assign(single('M'));
    assert_eq!(e, single('I').bitor(single('M')));
    e.bitand_assign(single('M'));
    assert_eq!(e, single('M'));
}

#[test]
fn membership_test() {
    let both = single('M').bitor(single('A'));
    assert!(both.contains(single('M')));
    assert!(both.contains(single('A')));
    assert!(!both.contains(single('C')));
    assert!(!single('M').contains(both));
}
