use rhazel::inst;
use rhazel::{
    BarrierOp, BlockOfCode, CodeGenerator, Cond, Label, SystemReg, B5, D1, D2, D3, D6, D9, H7, Q0,
    Q1, Q2, S1, S2, SP, V0, V1, V2, V3, V4, V5, V6, V7, V8, W0, W1, W16, W17, W2, W3, W30, W4, W5,
    W6, W7, W8, W9, WZR, X0, X1, X16, X17, X2, X26, X27, X28, X3, X30, X4, X5, X6, X7, X8,
};

fn words(code: &BlockOfCode) -> Vec<u32> {
    (0..code.code_size() / 4).map(|i| code.word_at(i * 4)).collect()
}

#[test]
fn typed_mnemonics_emit_the_same_words_as_the_encoders() {
    let mut block = BlockOfCode::with_size(4096).unwrap();
    let mut code = CodeGenerator::new(&mut block);
    code.crc32cx(W1, W2, X3).unwrap();
    code.adds(W4, W5, W6).unwrap();
    code.adds(X4, X5, X6).unwrap();
    code.cinc(X7, X8, Cond::NE).unwrap();
    code.csel(W7, W8, W9, Cond::LT).unwrap();
    code.sqadd(V1.s4(), V2.s4(), V3.s4()).unwrap();
    code.sqadd(V1.b8(), V2.b8(), V3.b8()).unwrap();
    code.sha256h(Q0, Q1, V2.s4()).unwrap();
    code.movi_zero(D9).unwrap();
    drop(code);
    assert_eq!(
        words(&block),
        vec![
            inst::crc32cx_x(1, 2, 3),
            inst::adds_w_reg(4, 5, 6),
            inst::adds_x_reg(4, 5, 6),
            inst::cinc_x(7, 8, Cond::NE),
            inst::csel_w(7, 8, 9, Cond::LT),
            inst::sqadd_v(1, 2, 3, 32, true),
            inst::sqadd_v(1, 2, 3, 8, false),
            inst::sha256h_q(0, 1, 2),
            inst::movi_d_imm0(9),
        ]
    );
}

#[test]
fn memory_and_immediate_mnemonics_match_the_encoders() {
    let mut block = BlockOfCode::with_size(4096).unwrap();
    let mut code = CodeGenerator::new(&mut block);
    code.str(WZR, X28, 0x40).unwrap();
    code.ldr(X3, X16, 0).unwrap();
    code.bfi(X3, X17, 32, 32).unwrap();
    code.bfi(W3, W17, 8, 8).unwrap();
    code.blr(X16).unwrap();
    code.mov_imm(W5, 0x8000_0000).unwrap();
    code.mov_imm(X6, 0x1234_0000_5678).unwrap();
    code.mov_imm(X7, 0).unwrap();
    drop(code);
    assert_eq!(
        words(&block),
        vec![
            inst::str_w_unsigned(31, 28, 0x40),
            inst::ldr_x_unsigned(3, 16, 0),
            inst::bfi_x(3, 17, 32, 32),
            inst::bfi_w(3, 17, 8, 8),
            inst::blr(16),
            inst::movz_w(5, 0, 0),
            inst::movk_w(5, 0x8000, 16),
            inst::movz_x(6, 0x5678, 0),
            inst::movk_x(6, 0x1234, 32),
            inst::movz_x(7, 0, 0),
        ]
    );
}

#[test]
fn packed_simd_mnemonics_match_the_encoders() {
    let mut block = BlockOfCode::with_size(4096).unwrap();
    let mut code = CodeGenerator::new(&mut block);
    code.add_v(V1.h4(), V2.h4(), V3.h4()).unwrap();
    code.sub_v(V1.s2(), V2.s2(), V3.s2()).unwrap();
    code.cmhi(V1.b8(), V2.b8(), V3.b8()).unwrap();
    code.uhadd(V1.h4(), V2.h4(), V3.h4()).unwrap();
    code.uabd(V1.b8(), V2.b8(), V3.b8()).unwrap();
    code.cmeq_zero(V4.h4(), V5.h4()).unwrap();
    code.cmge_zero(V4.s2(), V5.s2()).unwrap();
    code.sshr(V4.s2(), V5.s2(), 1).unwrap();
    code.ushr(V4.s2(), V5.s2(), 1).unwrap();
    code.sxtl(V0.s4(), V6.h4()).unwrap();
    code.uxtl(V0.h8(), V6.b8()).unwrap();
    code.xtn(V0.h4(), V0.s4()).unwrap();
    code.shrn(V0.h4(), V0.s4(), 16).unwrap();
    code.uaddlv(H7, V7.b8()).unwrap();
    code.and_v(V1.b8(), V1.b8(), V2.b8()).unwrap();
    code.eor_v(V1.b16(), V1.b16(), V2.b16()).unwrap();
    code.bsl(V1.b8(), V2.b8(), V3.b8()).unwrap();
    code.bsl(V1.b16(), V2.b16(), V3.b16()).unwrap();
    code.ext(V1.b8(), V1.b8(), V1.b8(), 4).unwrap();
    code.movi(V2.b8(), 0b1111_0000).unwrap();
    code.movi(V2.b16(), 0xff).unwrap();
    code.fmov(D1, D2).unwrap();
    code.fmov(S1, S2).unwrap();
    drop(code);
    assert_eq!(
        words(&block),
        vec![
            inst::add_v(1, 2, 3, 16, false),
            inst::sub_v(1, 2, 3, 32, false),
            inst::cmhi_v(1, 2, 3, 8, false),
            inst::uhadd_v(1, 2, 3, 16, false),
            inst::uabd_v(1, 2, 3, 8, false),
            inst::cmeq_v_zero(4, 5, 16, false),
            inst::cmge_v_zero(4, 5, 32, false),
            inst::sshr_v(4, 5, 32, 1, false),
            inst::ushr_v(4, 5, 32, 1, false),
            inst::sxtl_v(0, 6, 16),
            inst::uxtl_v(0, 6, 8),
            inst::xtn_v(0, 0, 32),
            inst::shrn_v(0, 0, 32, 16),
            inst::uaddlv_from_v(7, 7, 8, false),
            inst::and_v8b(1, 1, 2),
            inst::eor_v16b(1, 1, 2),
            inst::bsl_v8b(1, 2, 3),
            inst::bsl_v16b(1, 2, 3),
            inst::ext_v16b(1, 1, 1, 4, false),
            inst::movi_v8b_imm(2, 0b1111_0000),
            inst::movi_v16b_imm(2, 0xff),
            inst::fmov_d(1, 2),
            inst::fmov_s(1, 2),
        ]
    );
}

#[test]
fn fp_vector_mnemonics_match_the_encoders() {
    let mut block = BlockOfCode::with_size(4096).unwrap();
    let mut code = CodeGenerator::new(&mut block);
    code.fadd(V1.s4(), V2.s4(), V3.s4()).unwrap();
    code.fmla(V1.d2(), V2.d2(), V3.d2()).unwrap();
    code.frintx(V4.s4(), V5.s4()).unwrap();
    code.fcvtau(V4.d2(), V5.d2()).unwrap();
    code.scvtf_fixed(V4.s4(), V5.s4(), 7).unwrap();
    code.fcvtzu_fixed(V4.d2(), V5.d2(), 9).unwrap();
    code.fcvtl(V6.s4(), V7.h4()).unwrap();
    code.fcvtn(V6.h4(), V7.s4()).unwrap();
    code.faddp_scalar(D6, V7.d2()).unwrap();
    code.zip1(V0.d2(), V1.d2(), V2.d2()).unwrap();
    code.bic_imm(V8.h8(), 0b1000_0000, 8).unwrap();
    code.msr(SystemReg::FPCR, X16).unwrap();
    code.mrs(X17, SystemReg::FPSR).unwrap();
    code.add_imm(X0, SP, 16).unwrap();
    code.add_imm(X3, X28, 0x40).unwrap();
    code.sub_imm(W1, W2, 4).unwrap();
    code.str(Q1, X1, 0).unwrap();
    code.ldr(Q2, SP, 16).unwrap();
    code.str(D3, X4, 8).unwrap();
    code.ldr(B5, X6, 1).unwrap();
    drop(code);
    assert_eq!(
        words(&block),
        vec![
            inst::fadd_v4s(1, 2, 3),
            inst::fmla_v2d(1, 2, 3),
            inst::frintx_v4s(4, 5),
            inst::fcvtau_v2d(4, 5),
            inst::scvtf_v4s_fixed(4, 5, 7),
            inst::fcvtzu_v2d_fixed(4, 5, 9),
            inst::fcvtl_v4s_from_v4h(6, 7),
            inst::fcvtn_v4h_from_v4s(6, 7),
            inst::faddp_d_from_v2d(6, 7),
            inst::zip1_v(0, 1, 2, 64, true),
            inst::bic_v8h_sign_bit(8),
            inst::msr_fpcr(16),
            inst::mrs_fpsr(17),
            inst::add_x_imm(0, 31, 16),
            inst::add_x_imm(3, 28, 0x40),
            inst::sub_w_imm(1, 2, 4),
            inst::str_q_unsigned(1, 1, 0),
            inst::ldr_q_unsigned(2, 31, 16),
            inst::str_d_unsigned(3, 4, 8),
            inst::ldr_b_unsigned(5, 6, 1),
        ]
    );
}

#[test]
fn labels_bind_through_the_generator() {
    let mut block = BlockOfCode::with_size(4096).unwrap();
    let mut code = CodeGenerator::new(&mut block);
    let mut label = Label::new();
    code.cbz(X0, &mut label).unwrap();
    code.cbnz(W16, &mut label).unwrap();
    code.nop().unwrap();
    code.l(&mut label).unwrap();
    drop(code);
    assert_eq!(
        words(&block),
        vec![inst::cbz_x(0, 12), inst::cbnz_w(16, 8), inst::nop()]
    );
}

#[test]
fn terminal_mnemonics_match_the_encoders() {
    let mut block = BlockOfCode::with_size(4096).unwrap();
    let mut code = CodeGenerator::new(&mut block);
    code.br(X17).unwrap();
    code.ldar(W16, X27).unwrap();
    code.ldar(X16, X27).unwrap();
    code.ldrb(W16, SP, 0x30).unwrap();
    code.ldp(X16, X17, X2, 0x40).unwrap();
    code.stp(W1, W2, SP, 8).unwrap();
    code.add_ext(X2, SP, X30).unwrap();
    code.and_imm(X1, X1, 0x00ff_ffff_ffff_ffff).unwrap();
    code.and_imm(W30, W30, 0xff0).unwrap();
    code.tst_imm(X16, 0x10).unwrap();
    code.tst_imm(W16, 1).unwrap();
    code.lsl(X0, X0, 37).unwrap();
    code.add(X1, X2, X3).unwrap();
    code.sub(X1, X1, X26).unwrap();
    code.and(W0, W0, W16).unwrap();
    code.orr(X0, X0, X1).unwrap();
    code.msr(SystemReg::NZCV, X16).unwrap();
    code.brk(0).unwrap();
    code.dsb(BarrierOp::SY).unwrap();
    code.dmb(BarrierOp::ISH).unwrap();
    code.strb(W16, SP, 0x30).unwrap();
    code.sub_imm_shift(X26, X26, 1, 12).unwrap();
    code.add_imm_shift(W1, W2, 3, 0).unwrap();
    drop(code);
    assert_eq!(
        words(&block),
        vec![
            inst::br(17),
            inst::ldar_w(16, 27),
            inst::ldar_x(16, 27),
            inst::ldrb_w_unsigned(16, 31, 0x30),
            inst::ldp_x_offset(16, 17, 2, 0x40),
            inst::stp_w_offset(1, 2, 31, 8),
            inst::add_x_reg_sp(2, 31, 30),
            inst::and_x_imm(1, 1, 0x00ff_ffff_ffff_ffff),
            inst::and_w_imm(30, 30, 0xff0),
            inst::tst_x_imm(16, 0x10),
            inst::tst_w_imm(16, 1),
            inst::lsl_x_imm(0, 0, 37),
            inst::add_x_reg(1, 2, 3),
            inst::sub_x_reg(1, 1, 26),
            inst::and_w_reg(0, 0, 16),
            inst::orr_x(0, 0, 1),
            inst::msr_nzcv(16),
            inst::brk(0),
            inst::dsb_sy(),
            inst::dmb(0b1011),
            inst::strb_w_unsigned(16, 31, 0x30),
            inst::sub_x_imm_shift(26, 26, 1, true),
            inst::add_w_imm_shift(1, 2, 3, false),
        ]
    );
}
