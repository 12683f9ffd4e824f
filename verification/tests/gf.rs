use aes_core::math::FiniteAdd;
use aes_core::math::FiniteMult;
use aes_core::math::xtime;

#[test]
fn test_add() {
    assert_eq!(FiniteAdd(0x57, 0x83), 0xd4);
}

#[test]
fn test_mult() {
    assert_eq!(FiniteMult(0x57, 0x13), 0xfe);
    assert_eq!(FiniteMult(0x57, 0x83), 0xc1);
}

#[test]
fn test_xtime() {
    assert_eq!(xtime(0x57), 0xae);
    assert_eq!(xtime(0xae), 0x47);
    assert_eq!(xtime(0x47), 0x8e);
    assert_eq!(xtime(0x8e), 0x07);
}

#[test]
fn mult_commutes_on_all_pairs() {
    for a in 0..=255u8 {
        for b in 0..=255u8 {
            assert_eq!(FiniteMult(a, b), FiniteMult(b, a));
        }
    }
}

#[test]
fn mult_identity_and_zero() {
    for a in 0..=255u8 {
        assert_eq!(FiniteMult(a, 1), a);
        assert_eq!(FiniteMult(a, 0), 0);
    }
}

#[test]
fn mult_distributes_over_add() {
    assert_eq!(
        FiniteMult(0x57, FiniteAdd(0x13, 0x83)),
        FiniteAdd(FiniteMult(0x57, 0x13), FiniteMult(0x57, 0x83))
    );
    assert_eq!(
        FiniteMult(0xca, FiniteAdd(0x01, 0xfe)),
        FiniteAdd(FiniteMult(0xca, 0x01), FiniteMult(0xca, 0xfe))
    );
}
