use rhazel::{
    FpReg, QReg, VReg2D, VReg2S, VReg4S, VRegArranged, XRegSp, SP, V5, V9, W7, WSP, WZR, X3, X7,
    XZR,
};

#[test]
fn register_31_is_zr_or_sp_by_type() {
    assert_eq!(XZR.index(), 31);
    assert_eq!(SP.index(), 31);
    assert_eq!(XRegSp::from(X3).index(), 3);
    assert_eq!(W7.to_x(), X7);
    assert_eq!(X7.to_w(), W7);
}

#[test]
fn arrangements_carry_size_and_q() {
    assert_eq!(<VReg4S as VRegArranged>::SIZE, 32);
    assert!(<VReg4S as VRegArranged>::Q);
    assert!(!<VReg2S as VRegArranged>::Q);
    assert_eq!(V5.s4().index(), 5);
    assert_eq!(V5.q().index(), 5);
    assert_eq!(<QReg as FpReg>::SIZE, 4);
    assert_eq!(<VReg2D as VRegArranged>::from_vreg(V9), V9.d2());
}

#[test]
fn register_numbers_round_trip() {
    for n in 0..32u8 {
        assert_eq!(rhazel::XReg::new(n).index(), n);
        assert_eq!(rhazel::WReg::new(n).to_x().index(), n);
        assert_eq!(rhazel::VReg::new(n).b16().index(), n);
    }
    assert_eq!(WZR.index(), 31);
    assert_eq!(WSP.index(), 31);
    assert_eq!(rhazel::WRegWsp::from(WZR), WSP);
}

#[test]
fn operand_types_report_their_encoding_choice() {
    assert!(!<rhazel::WReg as rhazel::GpReg>::sf());
    assert!(<rhazel::XReg as rhazel::GpReg>::sf());
    assert!(<rhazel::XRegSp as rhazel::GpRegSp>::sf());
    assert!(!<rhazel::WRegWsp as rhazel::GpRegSp>::sf());
    assert_eq!(<rhazel::VReg2D as rhazel::VRegArranged>::size(), 64);
    assert!(<rhazel::VReg2D as rhazel::VRegArranged>::q());
    assert_eq!(<rhazel::VReg8B as rhazel::VRegArranged>::size(), 8);
    assert!(!<rhazel::VReg8B as rhazel::VRegArranged>::q());
    assert_eq!(<rhazel::QReg as rhazel::LdStReg>::kind(), rhazel::reg::LdStKind::Q);
    assert_eq!(<rhazel::WReg as rhazel::LdStReg>::kind(), rhazel::reg::LdStKind::W);
    assert_eq!(<rhazel::DReg as rhazel::FpReg>::size(), 3);
    assert!(<rhazel::DReg as rhazel::ScalarFp>::double());
    assert!(!<rhazel::SReg as rhazel::ScalarFp>::double());
}
