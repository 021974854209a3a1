use rhazel::{BlockOfCode, CodeGenerator, W29, W30, WZR, X29, X30, XZR};

/// Emits one instruction through a fresh generator and compares the word.
fn check(
    block: &mut BlockOfCode,
    emit: impl FnOnce(&mut CodeGenerator<'_>) -> Result<(), String>,
    expected: u32,
    what: &str,
) {
    let offset = block.code_size();
    emit(&mut CodeGenerator::new(block)).unwrap();
    assert_eq!(block.code_size(), offset + 4);
    assert_eq!(block.word_at(offset), expected, "{}", what);
}

#[test]
fn integer_widths_and_flags_match_oaknut_words() {
    let mut block = BlockOfCode::with_size(4096).unwrap();
    // Independent literal words of the emit templates.
    check(&mut block, |c| c.adc(W29, W30, WZR), 0x1a1f03dd, "adc(W29, W30, WZR)");
    check(&mut block, |c| c.adc(X29, X30, XZR), 0x9a1f03dd, "adc(X29, X30, XZR)");
    check(&mut block, |c| c.adcs(W29, W30, WZR), 0x3a1f03dd, "adcs(W29, W30, WZR)");
    check(&mut block, |c| c.adcs(X29, X30, XZR), 0xba1f03dd, "adcs(X29, X30, XZR)");
    check(&mut block, |c| c.ands(W29, W30, WZR), 0x6a1f03dd, "ands(W29, W30, WZR)");
    check(&mut block, |c| c.ands(X29, X30, XZR), 0xea1f03dd, "ands(X29, X30, XZR)");
    check(&mut block, |c| c.asrv(W29, W30, WZR), 0x1adf2bdd, "asrv(W29, W30, WZR)");
    check(&mut block, |c| c.asrv(X29, X30, XZR), 0x9adf2bdd, "asrv(X29, X30, XZR)");
    check(&mut block, |c| c.bic(W29, W30, WZR), 0x0a3f03dd, "bic(W29, W30, WZR)");
    check(&mut block, |c| c.bic(X29, X30, XZR), 0x8a3f03dd, "bic(X29, X30, XZR)");
    check(&mut block, |c| c.bics(W29, W30, WZR), 0x6a3f03dd, "bics(W29, W30, WZR)");
    check(&mut block, |c| c.bics(X29, X30, XZR), 0xea3f03dd, "bics(X29, X30, XZR)");
    check(&mut block, |c| c.clz(W29, W30), 0x5ac013dd, "clz(W29, W30)");
    check(&mut block, |c| c.clz(X29, X30), 0xdac013dd, "clz(X29, X30)");
    check(&mut block, |c| c.lslv(W29, W30, WZR), 0x1adf23dd, "lslv(W29, W30, WZR)");
    check(&mut block, |c| c.lslv(X29, X30, XZR), 0x9adf23dd, "lslv(X29, X30, XZR)");
    check(&mut block, |c| c.lsrv(W29, W30, WZR), 0x1adf27dd, "lsrv(W29, W30, WZR)");
    check(&mut block, |c| c.lsrv(X29, X30, XZR), 0x9adf27dd, "lsrv(X29, X30, XZR)");
    check(&mut block, |c| c.mul(W29, W30, WZR), 0x1b1f7fdd, "mul(W29, W30, WZR)");
    check(&mut block, |c| c.mul(X29, X30, XZR), 0x9b1f7fdd, "mul(X29, X30, XZR)");
    check(&mut block, |c| c.mvn(W29, W30), 0x2a3e03fd, "mvn(W29, W30)");
    check(&mut block, |c| c.mvn(X29, X30), 0xaa3e03fd, "mvn(X29, X30)");
    check(&mut block, |c| c.neg(W29, W30), 0x4b1e03fd, "neg(W29, W30)");
    check(&mut block, |c| c.rev(W29, W30), 0x5ac00bdd, "rev(W29, W30)");
    check(&mut block, |c| c.rev(X29, X30), 0xdac00fdd, "rev(X29, X30)");
    check(&mut block, |c| c.rev16(W29, W30), 0x5ac007dd, "rev16(W29, W30)");
    check(&mut block, |c| c.rorv(W29, W30, WZR), 0x1adf2fdd, "rorv(W29, W30, WZR)");
    check(&mut block, |c| c.rorv(X29, X30, XZR), 0x9adf2fdd, "rorv(X29, X30, XZR)");
    check(&mut block, |c| c.sbc(W29, W30, WZR), 0x5a1f03dd, "sbc(W29, W30, WZR)");
    check(&mut block, |c| c.sbc(X29, X30, XZR), 0xda1f03dd, "sbc(X29, X30, XZR)");
    check(&mut block, |c| c.sbcs(W29, W30, WZR), 0x7a1f03dd, "sbcs(W29, W30, WZR)");
    check(&mut block, |c| c.sbcs(X29, X30, XZR), 0xfa1f03dd, "sbcs(X29, X30, XZR)");
    check(&mut block, |c| c.sdiv(W29, W30, WZR), 0x1adf0fdd, "sdiv(W29, W30, WZR)");
    check(&mut block, |c| c.sdiv(X29, X30, XZR), 0x9adf0fdd, "sdiv(X29, X30, XZR)");
    check(&mut block, |c| c.smulh(X29, X30, XZR), 0x9b5f7fdd, "smulh(X29, X30, XZR)");
    check(&mut block, |c| c.sxtb(W29, W30), 0x13001fdd, "sxtb(W29, W30)");
    check(&mut block, |c| c.sxtb(X29, W30), 0x93401fdd, "sxtb(X29, W30)");
    check(&mut block, |c| c.sxth(W29, W30), 0x13003fdd, "sxth(W29, W30)");
    check(&mut block, |c| c.sxth(X29, W30), 0x93403fdd, "sxth(X29, W30)");
    check(&mut block, |c| c.sxtw(X29, W30), 0x93407fdd, "sxtw(X29, W30)");
    check(&mut block, |c| c.tst(W30, WZR), 0x6a1f03df, "tst(W30, WZR)");
    check(&mut block, |c| c.tst(X30, XZR), 0xea1f03df, "tst(X30, XZR)");
    check(&mut block, |c| c.udiv(W29, W30, WZR), 0x1adf0bdd, "udiv(W29, W30, WZR)");
    check(&mut block, |c| c.udiv(X29, X30, XZR), 0x9adf0bdd, "udiv(X29, X30, XZR)");
    check(&mut block, |c| c.umulh(X29, X30, XZR), 0x9bdf7fdd, "umulh(X29, X30, XZR)");
    check(&mut block, |c| c.lsr(W29, W30, 31), 0x531f7fdd, "lsr(W29, W30, 31)");
    check(&mut block, |c| c.lsr(X29, X30, 63), 0xd37fffdd, "lsr(X29, X30, 63)");
    check(&mut block, |c| c.ror(W29, W30, 31), 0x139e7fdd, "ror(W29, W30, 31)");
    check(&mut block, |c| c.ror(X29, X30, 63), 0x93deffdd, "ror(X29, X30, 63)");
    check(&mut block, |c| c.extr(W29, W30, WZR, 31), 0x139f7fdd, "extr(W29, W30, WZR, 31)");
    check(&mut block, |c| c.extr(X29, X30, XZR, 63), 0x93dfffdd, "extr(X29, X30, XZR, 63)");
    check(&mut block, |c| c.ubfx(W29, W30, 31, 1), 0x531f7fdd, "ubfx(W29, W30, 31, 1)");
    check(&mut block, |c| c.ubfx(X29, X30, 63, 1), 0xd37fffdd, "ubfx(X29, X30, 63, 1)");
    check(&mut block, |c| c.ubfiz(W29, W30, 29, 1), 0x530303dd, "ubfiz(W29, W30, 29, 1)");
    check(&mut block, |c| c.ands_imm(W29, W30, 1 << 29), 0x720303dd, "ands_imm(W29, W30, 1 << 29)");
    check(&mut block, |c| c.orr_imm(W29, W30, 1 << 31), 0x320103dd, "orr_imm(W29, W30, 1 << 31)");
    check(&mut block, |c| c.adds_imm_shift(W29, W30, 4095, 12), 0x317fffdd, "adds_imm_shift(W29, W30, 4095, 12)");
    check(&mut block, |c| c.adds_imm_shift(X29, X30, 4095, 12), 0xb17fffdd, "adds_imm_shift(X29, X30, 4095, 12)");
    check(&mut block, |c| c.subs_imm_shift(W29, W30, 4095, 12), 0x717fffdd, "subs_imm_shift(W29, W30, 4095, 12)");
    check(&mut block, |c| c.subs_imm_shift(X29, X30, 4095, 12), 0xf17fffdd, "subs_imm_shift(X29, X30, 4095, 12)");
}
