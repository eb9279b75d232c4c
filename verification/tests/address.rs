use riscv_csr::Virtual;

#[test]
fn nonzero_addresses_round_trip() {
    for w in [1usize, 2, 3, 0x1000, usize::MAX] {
        let v = Virtual::new(w).expect("non-zero address must be accepted");
        assert_eq!(v.get(), w);
    }
}

#[test]
fn zero_is_absence() {
    assert!(Virtual::new(0).is_none());
}
