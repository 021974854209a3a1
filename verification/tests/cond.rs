use rhazel::Cond;

#[test]
fn invert_flips_the_low_bit_and_round_trips() {
    assert_eq!(Cond::EQ.invert(), Cond::NE);
    assert_eq!(Cond::LT.invert(), Cond::GE);
    for raw in 0..16u8 {
        assert_eq!(Cond::from_u8(raw) as u8, raw);
    }
}

#[test]
fn condition_names_and_aliases() {
    assert_eq!(Cond::HS, Cond::CS);
    assert_eq!(Cond::LO, Cond::CC);
    assert_eq!(Cond::GT.name(), "gt");
    assert_eq!(Cond::NV.name(), "nv");
    assert_eq!(Cond::from_u8(0x1b), Cond::LT);
    assert_eq!(Cond::AL.to_u8(), 14);
}

#[test]
fn invert_is_an_involution_on_every_condition() {
    for raw in 0..16u8 {
        let c = Cond::from_u8(raw);
        assert_ne!(c.invert(), c);
        assert_eq!(c.invert().invert(), c);
        assert_eq!(c.invert().to_u8(), raw ^ 1);
    }
}
