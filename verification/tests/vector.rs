use rhazel::{BlockOfCode, CodeGenerator, B29, D0, D2, D29, D31, H29, Q29, S29, V29, V30, V31, W29, W30, X29, X30};

/// Emits one instruction through a fresh generator and compares the word.
fn check(
    block: &mut BlockOfCode,
    emit: impl FnOnce(&mut CodeGenerator<'_>) -> Result<(), String>,
    expected: u32,
    what: &str,
) {
    let offset = block.code_size();
    emit(&mut CodeGenerator::new(block)).unwrap();
    assert_eq!(block.code_size(), offset + 4);
    assert_eq!(block.word_at(offset), expected, "{}", what);
}

#[test]
fn integer_simd_arrangements_match_oaknut_words() {
    let mut block = BlockOfCode::with_size(4096).unwrap();
    // Literal words of the per-arrangement emit
    // templates, not from the encoders under test.
    check(&mut block, |c| c.abs_v(V29.b8(), V30.b8()), 0x0e20bbdd, "abs_v(V29.b8(), V30.b8())");
    check(&mut block, |c| c.abs_v(V29.b16(), V30.b16()), 0x4e20bbdd, "abs_v(V29.b16(), V30.b16())");
    check(&mut block, |c| c.abs_v(V29.h4(), V30.h4()), 0x0e60bbdd, "abs_v(V29.h4(), V30.h4())");
    check(&mut block, |c| c.abs_v(V29.h8(), V30.h8()), 0x4e60bbdd, "abs_v(V29.h8(), V30.h8())");
    check(&mut block, |c| c.abs_v(V29.s2(), V30.s2()), 0x0ea0bbdd, "abs_v(V29.s2(), V30.s2())");
    check(&mut block, |c| c.abs_v(V29.s4(), V30.s4()), 0x4ea0bbdd, "abs_v(V29.s4(), V30.s4())");
    check(&mut block, |c| c.abs_v(V29.d2(), V30.d2()), 0x4ee0bbdd, "abs_v(V29.d2(), V30.d2())");
    check(&mut block, |c| c.addp_scalar(D29, V30.d2()), 0x5ef1bbdd, "addp_scalar(D29, V30.d2())");
    check(&mut block, |c| c.addp_v(V29.b8(), V30.b8(), V31.b8()), 0x0e3fbfdd, "addp_v(V29.b8(), V30.b8(), V31.b8())");
    check(&mut block, |c| c.addp_v(V29.b16(), V30.b16(), V31.b16()), 0x4e3fbfdd, "addp_v(V29.b16(), V30.b16(), V31.b16())");
    check(&mut block, |c| c.addp_v(V29.h4(), V30.h4(), V31.h4()), 0x0e7fbfdd, "addp_v(V29.h4(), V30.h4(), V31.h4())");
    check(&mut block, |c| c.addp_v(V29.h8(), V30.h8(), V31.h8()), 0x4e7fbfdd, "addp_v(V29.h8(), V30.h8(), V31.h8())");
    check(&mut block, |c| c.addp_v(V29.s2(), V30.s2(), V31.s2()), 0x0ebfbfdd, "addp_v(V29.s2(), V30.s2(), V31.s2())");
    check(&mut block, |c| c.addp_v(V29.s4(), V30.s4(), V31.s4()), 0x4ebfbfdd, "addp_v(V29.s4(), V30.s4(), V31.s4())");
    check(&mut block, |c| c.addp_v(V29.d2(), V30.d2(), V31.d2()), 0x4effbfdd, "addp_v(V29.d2(), V30.d2(), V31.d2())");
    check(&mut block, |c| c.addv_scalar(B29, V30.b16()), 0x4e31bbdd, "addv_scalar(B29, V30.b16())");
    check(&mut block, |c| c.addv_scalar(H29, V30.h8()), 0x4e71bbdd, "addv_scalar(H29, V30.h8())");
    check(&mut block, |c| c.addv_scalar(S29, V30.s4()), 0x4eb1bbdd, "addv_scalar(S29, V30.s4())");
    check(&mut block, |c| c.bic_v(V29.b8(), V30.b8(), V31.b8()), 0x0e7f1fdd, "bic_v(V29.b8(), V30.b8(), V31.b8())");
    check(&mut block, |c| c.bic_v(V29.b16(), V30.b16(), V31.b16()), 0x4e7f1fdd, "bic_v(V29.b16(), V30.b16(), V31.b16())");
    check(&mut block, |c| c.clz_v(V29.b8(), V30.b8()), 0x2e204bdd, "clz_v(V29.b8(), V30.b8())");
    check(&mut block, |c| c.clz_v(V29.b16(), V30.b16()), 0x6e204bdd, "clz_v(V29.b16(), V30.b16())");
    check(&mut block, |c| c.clz_v(V29.h4(), V30.h4()), 0x2e604bdd, "clz_v(V29.h4(), V30.h4())");
    check(&mut block, |c| c.clz_v(V29.h8(), V30.h8()), 0x6e604bdd, "clz_v(V29.h8(), V30.h8())");
    check(&mut block, |c| c.clz_v(V29.s2(), V30.s2()), 0x2ea04bdd, "clz_v(V29.s2(), V30.s2())");
    check(&mut block, |c| c.clz_v(V29.s4(), V30.s4()), 0x6ea04bdd, "clz_v(V29.s4(), V30.s4())");
    check(&mut block, |c| c.cmeq_v(V29.b8(), V30.b8(), V31.b8()), 0x2e3f8fdd, "cmeq_v(V29.b8(), V30.b8(), V31.b8())");
    check(&mut block, |c| c.cmeq_v(V29.b16(), V30.b16(), V31.b16()), 0x6e3f8fdd, "cmeq_v(V29.b16(), V30.b16(), V31.b16())");
    check(&mut block, |c| c.cmeq_v(V29.h4(), V30.h4(), V31.h4()), 0x2e7f8fdd, "cmeq_v(V29.h4(), V30.h4(), V31.h4())");
    check(&mut block, |c| c.cmeq_v(V29.h8(), V30.h8(), V31.h8()), 0x6e7f8fdd, "cmeq_v(V29.h8(), V30.h8(), V31.h8())");
    check(&mut block, |c| c.cmeq_v(V29.s2(), V30.s2(), V31.s2()), 0x2ebf8fdd, "cmeq_v(V29.s2(), V30.s2(), V31.s2())");
    check(&mut block, |c| c.cmeq_v(V29.s4(), V30.s4(), V31.s4()), 0x6ebf8fdd, "cmeq_v(V29.s4(), V30.s4(), V31.s4())");
    check(&mut block, |c| c.cmeq_v(V29.d2(), V30.d2(), V31.d2()), 0x6eff8fdd, "cmeq_v(V29.d2(), V30.d2(), V31.d2())");
    check(&mut block, |c| c.cmge_v(V29.b8(), V30.b8(), V31.b8()), 0x0e3f3fdd, "cmge_v(V29.b8(), V30.b8(), V31.b8())");
    check(&mut block, |c| c.cmge_v(V29.b16(), V30.b16(), V31.b16()), 0x4e3f3fdd, "cmge_v(V29.b16(), V30.b16(), V31.b16())");
    check(&mut block, |c| c.cmge_v(V29.h4(), V30.h4(), V31.h4()), 0x0e7f3fdd, "cmge_v(V29.h4(), V30.h4(), V31.h4())");
    check(&mut block, |c| c.cmge_v(V29.h8(), V30.h8(), V31.h8()), 0x4e7f3fdd, "cmge_v(V29.h8(), V30.h8(), V31.h8())");
    check(&mut block, |c| c.cmge_v(V29.s2(), V30.s2(), V31.s2()), 0x0ebf3fdd, "cmge_v(V29.s2(), V30.s2(), V31.s2())");
    check(&mut block, |c| c.cmge_v(V29.s4(), V30.s4(), V31.s4()), 0x4ebf3fdd, "cmge_v(V29.s4(), V30.s4(), V31.s4())");
    check(&mut block, |c| c.cmge_v(V29.d2(), V30.d2(), V31.d2()), 0x4eff3fdd, "cmge_v(V29.d2(), V30.d2(), V31.d2())");
    check(&mut block, |c| c.cmgt_v(V29.b8(), V30.b8(), V31.b8()), 0x0e3f37dd, "cmgt_v(V29.b8(), V30.b8(), V31.b8())");
    check(&mut block, |c| c.cmgt_v(V29.b16(), V30.b16(), V31.b16()), 0x4e3f37dd, "cmgt_v(V29.b16(), V30.b16(), V31.b16())");
    check(&mut block, |c| c.cmgt_v(V29.h4(), V30.h4(), V31.h4()), 0x0e7f37dd, "cmgt_v(V29.h4(), V30.h4(), V31.h4())");
    check(&mut block, |c| c.cmgt_v(V29.h8(), V30.h8(), V31.h8()), 0x4e7f37dd, "cmgt_v(V29.h8(), V30.h8(), V31.h8())");
    check(&mut block, |c| c.cmgt_v(V29.s2(), V30.s2(), V31.s2()), 0x0ebf37dd, "cmgt_v(V29.s2(), V30.s2(), V31.s2())");
    check(&mut block, |c| c.cmgt_v(V29.s4(), V30.s4(), V31.s4()), 0x4ebf37dd, "cmgt_v(V29.s4(), V30.s4(), V31.s4())");
    check(&mut block, |c| c.cmgt_v(V29.d2(), V30.d2(), V31.d2()), 0x4eff37dd, "cmgt_v(V29.d2(), V30.d2(), V31.d2())");
    check(&mut block, |c| c.cnt_v(V29.b16(), V30.b16()), 0x4e205bdd, "cnt_v(V29.b16(), V30.b16())");
    check(&mut block, |c| c.mul_v(V29.b8(), V30.b8(), V31.b8()), 0x0e3f9fdd, "mul_v(V29.b8(), V30.b8(), V31.b8())");
    check(&mut block, |c| c.mul_v(V29.b16(), V30.b16(), V31.b16()), 0x4e3f9fdd, "mul_v(V29.b16(), V30.b16(), V31.b16())");
    check(&mut block, |c| c.mul_v(V29.h4(), V30.h4(), V31.h4()), 0x0e7f9fdd, "mul_v(V29.h4(), V30.h4(), V31.h4())");
    check(&mut block, |c| c.mul_v(V29.h8(), V30.h8(), V31.h8()), 0x4e7f9fdd, "mul_v(V29.h8(), V30.h8(), V31.h8())");
    check(&mut block, |c| c.mul_v(V29.s2(), V30.s2(), V31.s2()), 0x0ebf9fdd, "mul_v(V29.s2(), V30.s2(), V31.s2())");
    check(&mut block, |c| c.mul_v(V29.s4(), V30.s4(), V31.s4()), 0x4ebf9fdd, "mul_v(V29.s4(), V30.s4(), V31.s4())");
    check(&mut block, |c| c.not_v(V29.b16(), V30.b16()), 0x6e205bdd, "not_v(V29.b16(), V30.b16())");
    check(&mut block, |c| c.orr_v(V29.b8(), V30.b8(), V31.b8()), 0x0ebf1fdd, "orr_v(V29.b8(), V30.b8(), V31.b8())");
    check(&mut block, |c| c.orr_v(V29.b16(), V30.b16(), V31.b16()), 0x4ebf1fdd, "orr_v(V29.b16(), V30.b16(), V31.b16())");
    check(&mut block, |c| c.pmul_v(V29.b8(), V30.b8(), V31.b8()), 0x2e3f9fdd, "pmul_v(V29.b8(), V30.b8(), V31.b8())");
    check(&mut block, |c| c.pmul_v(V29.b16(), V30.b16(), V31.b16()), 0x6e3f9fdd, "pmul_v(V29.b16(), V30.b16(), V31.b16())");
    check(&mut block, |c| c.pmull_v(V29.h8(), V30.b8(), V31.b8()), 0x0e3fe3dd, "pmull_v(V29.h8(), V30.b8(), V31.b8())");
    check(&mut block, |c| c.pmull_64(Q29, V30.d1(), V31.d1()), 0x0effe3dd, "pmull_64(Q29, V30.d1(), V31.d1())");
    check(&mut block, |c| c.rbit_v(V29.b16(), V30.b16()), 0x6e605bdd, "rbit_v(V29.b16(), V30.b16())");
    check(&mut block, |c| c.rev16_v(V29.b16(), V30.b16()), 0x4e201bdd, "rev16_v(V29.b16(), V30.b16())");
    check(&mut block, |c| c.rev32_v(V29.b8(), V30.b8()), 0x2e200bdd, "rev32_v(V29.b8(), V30.b8())");
    check(&mut block, |c| c.rev32_v(V29.b16(), V30.b16()), 0x6e200bdd, "rev32_v(V29.b16(), V30.b16())");
    check(&mut block, |c| c.rev32_v(V29.h4(), V30.h4()), 0x2e600bdd, "rev32_v(V29.h4(), V30.h4())");
    check(&mut block, |c| c.rev32_v(V29.h8(), V30.h8()), 0x6e600bdd, "rev32_v(V29.h8(), V30.h8())");
    check(&mut block, |c| c.rev64_v(V29.b8(), V30.b8()), 0x0e200bdd, "rev64_v(V29.b8(), V30.b8())");
    check(&mut block, |c| c.rev64_v(V29.b16(), V30.b16()), 0x4e200bdd, "rev64_v(V29.b16(), V30.b16())");
    check(&mut block, |c| c.rev64_v(V29.h4(), V30.h4()), 0x0e600bdd, "rev64_v(V29.h4(), V30.h4())");
    check(&mut block, |c| c.rev64_v(V29.h8(), V30.h8()), 0x4e600bdd, "rev64_v(V29.h8(), V30.h8())");
    check(&mut block, |c| c.rev64_v(V29.s2(), V30.s2()), 0x0ea00bdd, "rev64_v(V29.s2(), V30.s2())");
    check(&mut block, |c| c.rev64_v(V29.s4(), V30.s4()), 0x4ea00bdd, "rev64_v(V29.s4(), V30.s4())");
    check(&mut block, |c| c.sabd_v(V29.b8(), V30.b8(), V31.b8()), 0x0e3f77dd, "sabd_v(V29.b8(), V30.b8(), V31.b8())");
    check(&mut block, |c| c.sabd_v(V29.b16(), V30.b16(), V31.b16()), 0x4e3f77dd, "sabd_v(V29.b16(), V30.b16(), V31.b16())");
    check(&mut block, |c| c.sabd_v(V29.h4(), V30.h4(), V31.h4()), 0x0e7f77dd, "sabd_v(V29.h4(), V30.h4(), V31.h4())");
    check(&mut block, |c| c.sabd_v(V29.h8(), V30.h8(), V31.h8()), 0x4e7f77dd, "sabd_v(V29.h8(), V30.h8(), V31.h8())");
    check(&mut block, |c| c.sabd_v(V29.s2(), V30.s2(), V31.s2()), 0x0ebf77dd, "sabd_v(V29.s2(), V30.s2(), V31.s2())");
    check(&mut block, |c| c.sabd_v(V29.s4(), V30.s4(), V31.s4()), 0x4ebf77dd, "sabd_v(V29.s4(), V30.s4(), V31.s4())");
    check(&mut block, |c| c.saddlp_v(V29.h8(), V30.b16()), 0x4e202bdd, "saddlp_v(V29.h8(), V30.b16())");
    check(&mut block, |c| c.saddlp_v(V29.s4(), V30.h8()), 0x4e602bdd, "saddlp_v(V29.s4(), V30.h8())");
    check(&mut block, |c| c.saddlp_v(V29.d2(), V30.s4()), 0x4ea02bdd, "saddlp_v(V29.d2(), V30.s4())");
    check(&mut block, |c| c.smax_v(V29.b8(), V30.b8(), V31.b8()), 0x0e3f67dd, "smax_v(V29.b8(), V30.b8(), V31.b8())");
    check(&mut block, |c| c.smax_v(V29.b16(), V30.b16(), V31.b16()), 0x4e3f67dd, "smax_v(V29.b16(), V30.b16(), V31.b16())");
    check(&mut block, |c| c.smax_v(V29.h4(), V30.h4(), V31.h4()), 0x0e7f67dd, "smax_v(V29.h4(), V30.h4(), V31.h4())");
    check(&mut block, |c| c.smax_v(V29.h8(), V30.h8(), V31.h8()), 0x4e7f67dd, "smax_v(V29.h8(), V30.h8(), V31.h8())");
    check(&mut block, |c| c.smax_v(V29.s2(), V30.s2(), V31.s2()), 0x0ebf67dd, "smax_v(V29.s2(), V30.s2(), V31.s2())");
    check(&mut block, |c| c.smax_v(V29.s4(), V30.s4(), V31.s4()), 0x4ebf67dd, "smax_v(V29.s4(), V30.s4(), V31.s4())");
    check(&mut block, |c| c.smaxp_v(V29.b8(), V30.b8(), V31.b8()), 0x0e3fa7dd, "smaxp_v(V29.b8(), V30.b8(), V31.b8())");
    check(&mut block, |c| c.smaxp_v(V29.b16(), V30.b16(), V31.b16()), 0x4e3fa7dd, "smaxp_v(V29.b16(), V30.b16(), V31.b16())");
    check(&mut block, |c| c.smaxp_v(V29.h4(), V30.h4(), V31.h4()), 0x0e7fa7dd, "smaxp_v(V29.h4(), V30.h4(), V31.h4())");
    check(&mut block, |c| c.smaxp_v(V29.h8(), V30.h8(), V31.h8()), 0x4e7fa7dd, "smaxp_v(V29.h8(), V30.h8(), V31.h8())");
    check(&mut block, |c| c.smaxp_v(V29.s2(), V30.s2(), V31.s2()), 0x0ebfa7dd, "smaxp_v(V29.s2(), V30.s2(), V31.s2())");
    check(&mut block, |c| c.smaxp_v(V29.s4(), V30.s4(), V31.s4()), 0x4ebfa7dd, "smaxp_v(V29.s4(), V30.s4(), V31.s4())");
    check(&mut block, |c| c.smin_v(V29.b8(), V30.b8(), V31.b8()), 0x0e3f6fdd, "smin_v(V29.b8(), V30.b8(), V31.b8())");
    check(&mut block, |c| c.smin_v(V29.b16(), V30.b16(), V31.b16()), 0x4e3f6fdd, "smin_v(V29.b16(), V30.b16(), V31.b16())");
    check(&mut block, |c| c.smin_v(V29.h4(), V30.h4(), V31.h4()), 0x0e7f6fdd, "smin_v(V29.h4(), V30.h4(), V31.h4())");
    check(&mut block, |c| c.smin_v(V29.h8(), V30.h8(), V31.h8()), 0x4e7f6fdd, "smin_v(V29.h8(), V30.h8(), V31.h8())");
    check(&mut block, |c| c.smin_v(V29.s2(), V30.s2(), V31.s2()), 0x0ebf6fdd, "smin_v(V29.s2(), V30.s2(), V31.s2())");
    check(&mut block, |c| c.smin_v(V29.s4(), V30.s4(), V31.s4()), 0x4ebf6fdd, "smin_v(V29.s4(), V30.s4(), V31.s4())");
    check(&mut block, |c| c.sminp_v(V29.b8(), V30.b8(), V31.b8()), 0x0e3fafdd, "sminp_v(V29.b8(), V30.b8(), V31.b8())");
    check(&mut block, |c| c.sminp_v(V29.b16(), V30.b16(), V31.b16()), 0x4e3fafdd, "sminp_v(V29.b16(), V30.b16(), V31.b16())");
    check(&mut block, |c| c.sminp_v(V29.h4(), V30.h4(), V31.h4()), 0x0e7fafdd, "sminp_v(V29.h4(), V30.h4(), V31.h4())");
    check(&mut block, |c| c.sminp_v(V29.h8(), V30.h8(), V31.h8()), 0x4e7fafdd, "sminp_v(V29.h8(), V30.h8(), V31.h8())");
    check(&mut block, |c| c.sminp_v(V29.s2(), V30.s2(), V31.s2()), 0x0ebfafdd, "sminp_v(V29.s2(), V30.s2(), V31.s2())");
    check(&mut block, |c| c.sminp_v(V29.s4(), V30.s4(), V31.s4()), 0x4ebfafdd, "sminp_v(V29.s4(), V30.s4(), V31.s4())");
    check(&mut block, |c| c.smull_v(V29.h8(), V30.b8(), V31.b8()), 0x0e3fc3dd, "smull_v(V29.h8(), V30.b8(), V31.b8())");
    check(&mut block, |c| c.smull_v(V29.s4(), V30.h4(), V31.h4()), 0x0e7fc3dd, "smull_v(V29.s4(), V30.h4(), V31.h4())");
    check(&mut block, |c| c.smull_v(V29.d2(), V30.s2(), V31.s2()), 0x0ebfc3dd, "smull_v(V29.d2(), V30.s2(), V31.s2())");
    check(&mut block, |c| c.sqabs_v(V29.b8(), V30.b8()), 0x0e207bdd, "sqabs_v(V29.b8(), V30.b8())");
    check(&mut block, |c| c.sqabs_v(V29.b16(), V30.b16()), 0x4e207bdd, "sqabs_v(V29.b16(), V30.b16())");
    check(&mut block, |c| c.sqabs_v(V29.h4(), V30.h4()), 0x0e607bdd, "sqabs_v(V29.h4(), V30.h4())");
    check(&mut block, |c| c.sqabs_v(V29.h8(), V30.h8()), 0x4e607bdd, "sqabs_v(V29.h8(), V30.h8())");
    check(&mut block, |c| c.sqabs_v(V29.s2(), V30.s2()), 0x0ea07bdd, "sqabs_v(V29.s2(), V30.s2())");
    check(&mut block, |c| c.sqabs_v(V29.s4(), V30.s4()), 0x4ea07bdd, "sqabs_v(V29.s4(), V30.s4())");
    check(&mut block, |c| c.sqabs_v(V29.d2(), V30.d2()), 0x4ee07bdd, "sqabs_v(V29.d2(), V30.d2())");
    check(&mut block, |c| c.sqdmulh_v(V29.h4(), V30.h4(), V31.h4()), 0x0e7fb7dd, "sqdmulh_v(V29.h4(), V30.h4(), V31.h4())");
    check(&mut block, |c| c.sqdmulh_v(V29.h8(), V30.h8(), V31.h8()), 0x4e7fb7dd, "sqdmulh_v(V29.h8(), V30.h8(), V31.h8())");
    check(&mut block, |c| c.sqdmulh_v(V29.s2(), V30.s2(), V31.s2()), 0x0ebfb7dd, "sqdmulh_v(V29.s2(), V30.s2(), V31.s2())");
    check(&mut block, |c| c.sqdmulh_v(V29.s4(), V30.s4(), V31.s4()), 0x4ebfb7dd, "sqdmulh_v(V29.s4(), V30.s4(), V31.s4())");
    check(&mut block, |c| c.sqdmull_v(V29.s4(), V30.h4(), V31.h4()), 0x0e7fd3dd, "sqdmull_v(V29.s4(), V30.h4(), V31.h4())");
    check(&mut block, |c| c.sqdmull_v(V29.d2(), V30.s2(), V31.s2()), 0x0ebfd3dd, "sqdmull_v(V29.d2(), V30.s2(), V31.s2())");
    check(&mut block, |c| c.sqneg_v(V29.b8(), V30.b8()), 0x2e207bdd, "sqneg_v(V29.b8(), V30.b8())");
    check(&mut block, |c| c.sqneg_v(V29.b16(), V30.b16()), 0x6e207bdd, "sqneg_v(V29.b16(), V30.b16())");
    check(&mut block, |c| c.sqneg_v(V29.h4(), V30.h4()), 0x2e607bdd, "sqneg_v(V29.h4(), V30.h4())");
    check(&mut block, |c| c.sqneg_v(V29.h8(), V30.h8()), 0x6e607bdd, "sqneg_v(V29.h8(), V30.h8())");
    check(&mut block, |c| c.sqneg_v(V29.s2(), V30.s2()), 0x2ea07bdd, "sqneg_v(V29.s2(), V30.s2())");
    check(&mut block, |c| c.sqneg_v(V29.s4(), V30.s4()), 0x6ea07bdd, "sqneg_v(V29.s4(), V30.s4())");
    check(&mut block, |c| c.sqneg_v(V29.d2(), V30.d2()), 0x6ee07bdd, "sqneg_v(V29.d2(), V30.d2())");
    check(&mut block, |c| c.sqrdmulh_v(V29.h4(), V30.h4(), V31.h4()), 0x2e7fb7dd, "sqrdmulh_v(V29.h4(), V30.h4(), V31.h4())");
    check(&mut block, |c| c.sqrdmulh_v(V29.h8(), V30.h8(), V31.h8()), 0x6e7fb7dd, "sqrdmulh_v(V29.h8(), V30.h8(), V31.h8())");
    check(&mut block, |c| c.sqrdmulh_v(V29.s2(), V30.s2(), V31.s2()), 0x2ebfb7dd, "sqrdmulh_v(V29.s2(), V30.s2(), V31.s2())");
    check(&mut block, |c| c.sqrdmulh_v(V29.s4(), V30.s4(), V31.s4()), 0x6ebfb7dd, "sqrdmulh_v(V29.s4(), V30.s4(), V31.s4())");
    check(&mut block, |c| c.sqshl_v(V29.b8(), V30.b8(), V31.b8()), 0x0e3f4fdd, "sqshl_v(V29.b8(), V30.b8(), V31.b8())");
    check(&mut block, |c| c.sqshl_v(V29.b16(), V30.b16(), V31.b16()), 0x4e3f4fdd, "sqshl_v(V29.b16(), V30.b16(), V31.b16())");
    check(&mut block, |c| c.sqshl_v(V29.h4(), V30.h4(), V31.h4()), 0x0e7f4fdd, "sqshl_v(V29.h4(), V30.h4(), V31.h4())");
    check(&mut block, |c| c.sqshl_v(V29.h8(), V30.h8(), V31.h8()), 0x4e7f4fdd, "sqshl_v(V29.h8(), V30.h8(), V31.h8())");
    check(&mut block, |c| c.sqshl_v(V29.s2(), V30.s2(), V31.s2()), 0x0ebf4fdd, "sqshl_v(V29.s2(), V30.s2(), V31.s2())");
    check(&mut block, |c| c.sqshl_v(V29.s4(), V30.s4(), V31.s4()), 0x4ebf4fdd, "sqshl_v(V29.s4(), V30.s4(), V31.s4())");
    check(&mut block, |c| c.sqshl_v(V29.d2(), V30.d2(), V31.d2()), 0x4eff4fdd, "sqshl_v(V29.d2(), V30.d2(), V31.d2())");
    check(&mut block, |c| c.sqxtn_v(V29.b8(), V30.h8()), 0x0e214bdd, "sqxtn_v(V29.b8(), V30.h8())");
    check(&mut block, |c| c.sqxtn_v(V29.h4(), V30.s4()), 0x0e614bdd, "sqxtn_v(V29.h4(), V30.s4())");
    check(&mut block, |c| c.sqxtn_v(V29.s2(), V30.d2()), 0x0ea14bdd, "sqxtn_v(V29.s2(), V30.d2())");
    check(&mut block, |c| c.sqxtun_v(V29.b8(), V30.h8()), 0x2e212bdd, "sqxtun_v(V29.b8(), V30.h8())");
    check(&mut block, |c| c.sqxtun_v(V29.h4(), V30.s4()), 0x2e612bdd, "sqxtun_v(V29.h4(), V30.s4())");
    check(&mut block, |c| c.sqxtun_v(V29.s2(), V30.d2()), 0x2ea12bdd, "sqxtun_v(V29.s2(), V30.d2())");
    check(&mut block, |c| c.srhadd_v(V29.b8(), V30.b8(), V31.b8()), 0x0e3f17dd, "srhadd_v(V29.b8(), V30.b8(), V31.b8())");
    check(&mut block, |c| c.srhadd_v(V29.b16(), V30.b16(), V31.b16()), 0x4e3f17dd, "srhadd_v(V29.b16(), V30.b16(), V31.b16())");
    check(&mut block, |c| c.srhadd_v(V29.h4(), V30.h4(), V31.h4()), 0x0e7f17dd, "srhadd_v(V29.h4(), V30.h4(), V31.h4())");
    check(&mut block, |c| c.srhadd_v(V29.h8(), V30.h8(), V31.h8()), 0x4e7f17dd, "srhadd_v(V29.h8(), V30.h8(), V31.h8())");
    check(&mut block, |c| c.srhadd_v(V29.s2(), V30.s2(), V31.s2()), 0x0ebf17dd, "srhadd_v(V29.s2(), V30.s2(), V31.s2())");
    check(&mut block, |c| c.srhadd_v(V29.s4(), V30.s4(), V31.s4()), 0x4ebf17dd, "srhadd_v(V29.s4(), V30.s4(), V31.s4())");
    check(&mut block, |c| c.srshl_v(V29.b8(), V30.b8(), V31.b8()), 0x0e3f57dd, "srshl_v(V29.b8(), V30.b8(), V31.b8())");
    check(&mut block, |c| c.srshl_v(V29.b16(), V30.b16(), V31.b16()), 0x4e3f57dd, "srshl_v(V29.b16(), V30.b16(), V31.b16())");
    check(&mut block, |c| c.srshl_v(V29.h4(), V30.h4(), V31.h4()), 0x0e7f57dd, "srshl_v(V29.h4(), V30.h4(), V31.h4())");
    check(&mut block, |c| c.srshl_v(V29.h8(), V30.h8(), V31.h8()), 0x4e7f57dd, "srshl_v(V29.h8(), V30.h8(), V31.h8())");
    check(&mut block, |c| c.srshl_v(V29.s2(), V30.s2(), V31.s2()), 0x0ebf57dd, "srshl_v(V29.s2(), V30.s2(), V31.s2())");
    check(&mut block, |c| c.srshl_v(V29.s4(), V30.s4(), V31.s4()), 0x4ebf57dd, "srshl_v(V29.s4(), V30.s4(), V31.s4())");
    check(&mut block, |c| c.srshl_v(V29.d2(), V30.d2(), V31.d2()), 0x4eff57dd, "srshl_v(V29.d2(), V30.d2(), V31.d2())");
    check(&mut block, |c| c.sshl_v(V29.b8(), V30.b8(), V31.b8()), 0x0e3f47dd, "sshl_v(V29.b8(), V30.b8(), V31.b8())");
    check(&mut block, |c| c.sshl_v(V29.b16(), V30.b16(), V31.b16()), 0x4e3f47dd, "sshl_v(V29.b16(), V30.b16(), V31.b16())");
    check(&mut block, |c| c.sshl_v(V29.h4(), V30.h4(), V31.h4()), 0x0e7f47dd, "sshl_v(V29.h4(), V30.h4(), V31.h4())");
    check(&mut block, |c| c.sshl_v(V29.h8(), V30.h8(), V31.h8()), 0x4e7f47dd, "sshl_v(V29.h8(), V30.h8(), V31.h8())");
    check(&mut block, |c| c.sshl_v(V29.s2(), V30.s2(), V31.s2()), 0x0ebf47dd, "sshl_v(V29.s2(), V30.s2(), V31.s2())");
    check(&mut block, |c| c.sshl_v(V29.s4(), V30.s4(), V31.s4()), 0x4ebf47dd, "sshl_v(V29.s4(), V30.s4(), V31.s4())");
    check(&mut block, |c| c.sshl_v(V29.d2(), V30.d2(), V31.d2()), 0x4eff47dd, "sshl_v(V29.d2(), V30.d2(), V31.d2())");
    check(&mut block, |c| c.suqadd_v(V29.b8(), V30.b8()), 0x0e203bdd, "suqadd_v(V29.b8(), V30.b8())");
    check(&mut block, |c| c.suqadd_v(V29.b16(), V30.b16()), 0x4e203bdd, "suqadd_v(V29.b16(), V30.b16())");
    check(&mut block, |c| c.suqadd_v(V29.h4(), V30.h4()), 0x0e603bdd, "suqadd_v(V29.h4(), V30.h4())");
    check(&mut block, |c| c.suqadd_v(V29.h8(), V30.h8()), 0x4e603bdd, "suqadd_v(V29.h8(), V30.h8())");
    check(&mut block, |c| c.suqadd_v(V29.s2(), V30.s2()), 0x0ea03bdd, "suqadd_v(V29.s2(), V30.s2())");
    check(&mut block, |c| c.suqadd_v(V29.s4(), V30.s4()), 0x4ea03bdd, "suqadd_v(V29.s4(), V30.s4())");
    check(&mut block, |c| c.suqadd_v(V29.d2(), V30.d2()), 0x4ee03bdd, "suqadd_v(V29.d2(), V30.d2())");
    check(&mut block, |c| c.trn1_v(V29.b8(), V30.b8(), V31.b8()), 0x0e1f2bdd, "trn1_v(V29.b8(), V30.b8(), V31.b8())");
    check(&mut block, |c| c.trn1_v(V29.b16(), V30.b16(), V31.b16()), 0x4e1f2bdd, "trn1_v(V29.b16(), V30.b16(), V31.b16())");
    check(&mut block, |c| c.trn1_v(V29.h4(), V30.h4(), V31.h4()), 0x0e5f2bdd, "trn1_v(V29.h4(), V30.h4(), V31.h4())");
    check(&mut block, |c| c.trn1_v(V29.h8(), V30.h8(), V31.h8()), 0x4e5f2bdd, "trn1_v(V29.h8(), V30.h8(), V31.h8())");
    check(&mut block, |c| c.trn1_v(V29.s2(), V30.s2(), V31.s2()), 0x0e9f2bdd, "trn1_v(V29.s2(), V30.s2(), V31.s2())");
    check(&mut block, |c| c.trn1_v(V29.s4(), V30.s4(), V31.s4()), 0x4e9f2bdd, "trn1_v(V29.s4(), V30.s4(), V31.s4())");
    check(&mut block, |c| c.trn1_v(V29.d2(), V30.d2(), V31.d2()), 0x4edf2bdd, "trn1_v(V29.d2(), V30.d2(), V31.d2())");
    check(&mut block, |c| c.trn2_v(V29.b8(), V30.b8(), V31.b8()), 0x0e1f6bdd, "trn2_v(V29.b8(), V30.b8(), V31.b8())");
    check(&mut block, |c| c.trn2_v(V29.b16(), V30.b16(), V31.b16()), 0x4e1f6bdd, "trn2_v(V29.b16(), V30.b16(), V31.b16())");
    check(&mut block, |c| c.trn2_v(V29.h4(), V30.h4(), V31.h4()), 0x0e5f6bdd, "trn2_v(V29.h4(), V30.h4(), V31.h4())");
    check(&mut block, |c| c.trn2_v(V29.h8(), V30.h8(), V31.h8()), 0x4e5f6bdd, "trn2_v(V29.h8(), V30.h8(), V31.h8())");
    check(&mut block, |c| c.trn2_v(V29.s2(), V30.s2(), V31.s2()), 0x0e9f6bdd, "trn2_v(V29.s2(), V30.s2(), V31.s2())");
    check(&mut block, |c| c.trn2_v(V29.s4(), V30.s4(), V31.s4()), 0x4e9f6bdd, "trn2_v(V29.s4(), V30.s4(), V31.s4())");
    check(&mut block, |c| c.trn2_v(V29.d2(), V30.d2(), V31.d2()), 0x4edf6bdd, "trn2_v(V29.d2(), V30.d2(), V31.d2())");
    check(&mut block, |c| c.uaddlp_v(V29.h8(), V30.b16()), 0x6e202bdd, "uaddlp_v(V29.h8(), V30.b16())");
    check(&mut block, |c| c.uaddlp_v(V29.s4(), V30.h8()), 0x6e602bdd, "uaddlp_v(V29.s4(), V30.h8())");
    check(&mut block, |c| c.uaddlp_v(V29.d2(), V30.s4()), 0x6ea02bdd, "uaddlp_v(V29.d2(), V30.s4())");
    check(&mut block, |c| c.umax_v(V29.b8(), V30.b8(), V31.b8()), 0x2e3f67dd, "umax_v(V29.b8(), V30.b8(), V31.b8())");
    check(&mut block, |c| c.umax_v(V29.b16(), V30.b16(), V31.b16()), 0x6e3f67dd, "umax_v(V29.b16(), V30.b16(), V31.b16())");
    check(&mut block, |c| c.umax_v(V29.h4(), V30.h4(), V31.h4()), 0x2e7f67dd, "umax_v(V29.h4(), V30.h4(), V31.h4())");
    check(&mut block, |c| c.umax_v(V29.h8(), V30.h8(), V31.h8()), 0x6e7f67dd, "umax_v(V29.h8(), V30.h8(), V31.h8())");
    check(&mut block, |c| c.umax_v(V29.s2(), V30.s2(), V31.s2()), 0x2ebf67dd, "umax_v(V29.s2(), V30.s2(), V31.s2())");
    check(&mut block, |c| c.umax_v(V29.s4(), V30.s4(), V31.s4()), 0x6ebf67dd, "umax_v(V29.s4(), V30.s4(), V31.s4())");
    check(&mut block, |c| c.umaxp_v(V29.b8(), V30.b8(), V31.b8()), 0x2e3fa7dd, "umaxp_v(V29.b8(), V30.b8(), V31.b8())");
    check(&mut block, |c| c.umaxp_v(V29.b16(), V30.b16(), V31.b16()), 0x6e3fa7dd, "umaxp_v(V29.b16(), V30.b16(), V31.b16())");
    check(&mut block, |c| c.umaxp_v(V29.h4(), V30.h4(), V31.h4()), 0x2e7fa7dd, "umaxp_v(V29.h4(), V30.h4(), V31.h4())");
    check(&mut block, |c| c.umaxp_v(V29.h8(), V30.h8(), V31.h8()), 0x6e7fa7dd, "umaxp_v(V29.h8(), V30.h8(), V31.h8())");
    check(&mut block, |c| c.umaxp_v(V29.s2(), V30.s2(), V31.s2()), 0x2ebfa7dd, "umaxp_v(V29.s2(), V30.s2(), V31.s2())");
    check(&mut block, |c| c.umaxp_v(V29.s4(), V30.s4(), V31.s4()), 0x6ebfa7dd, "umaxp_v(V29.s4(), V30.s4(), V31.s4())");
    check(&mut block, |c| c.umin_v(V29.b8(), V30.b8(), V31.b8()), 0x2e3f6fdd, "umin_v(V29.b8(), V30.b8(), V31.b8())");
    check(&mut block, |c| c.umin_v(V29.b16(), V30.b16(), V31.b16()), 0x6e3f6fdd, "umin_v(V29.b16(), V30.b16(), V31.b16())");
    check(&mut block, |c| c.umin_v(V29.h4(), V30.h4(), V31.h4()), 0x2e7f6fdd, "umin_v(V29.h4(), V30.h4(), V31.h4())");
    check(&mut block, |c| c.umin_v(V29.h8(), V30.h8(), V31.h8()), 0x6e7f6fdd, "umin_v(V29.h8(), V30.h8(), V31.h8())");
    check(&mut block, |c| c.umin_v(V29.s2(), V30.s2(), V31.s2()), 0x2ebf6fdd, "umin_v(V29.s2(), V30.s2(), V31.s2())");
    check(&mut block, |c| c.umin_v(V29.s4(), V30.s4(), V31.s4()), 0x6ebf6fdd, "umin_v(V29.s4(), V30.s4(), V31.s4())");
    check(&mut block, |c| c.uminp_v(V29.b8(), V30.b8(), V31.b8()), 0x2e3fafdd, "uminp_v(V29.b8(), V30.b8(), V31.b8())");
    check(&mut block, |c| c.uminp_v(V29.b16(), V30.b16(), V31.b16()), 0x6e3fafdd, "uminp_v(V29.b16(), V30.b16(), V31.b16())");
    check(&mut block, |c| c.uminp_v(V29.h4(), V30.h4(), V31.h4()), 0x2e7fafdd, "uminp_v(V29.h4(), V30.h4(), V31.h4())");
    check(&mut block, |c| c.uminp_v(V29.h8(), V30.h8(), V31.h8()), 0x6e7fafdd, "uminp_v(V29.h8(), V30.h8(), V31.h8())");
    check(&mut block, |c| c.uminp_v(V29.s2(), V30.s2(), V31.s2()), 0x2ebfafdd, "uminp_v(V29.s2(), V30.s2(), V31.s2())");
    check(&mut block, |c| c.uminp_v(V29.s4(), V30.s4(), V31.s4()), 0x6ebfafdd, "uminp_v(V29.s4(), V30.s4(), V31.s4())");
    check(&mut block, |c| c.umull_v(V29.h8(), V30.b8(), V31.b8()), 0x2e3fc3dd, "umull_v(V29.h8(), V30.b8(), V31.b8())");
    check(&mut block, |c| c.umull_v(V29.s4(), V30.h4(), V31.h4()), 0x2e7fc3dd, "umull_v(V29.s4(), V30.h4(), V31.h4())");
    check(&mut block, |c| c.umull_v(V29.d2(), V30.s2(), V31.s2()), 0x2ebfc3dd, "umull_v(V29.d2(), V30.s2(), V31.s2())");
    check(&mut block, |c| c.uqshl_v(V29.b8(), V30.b8(), V31.b8()), 0x2e3f4fdd, "uqshl_v(V29.b8(), V30.b8(), V31.b8())");
    check(&mut block, |c| c.uqshl_v(V29.b16(), V30.b16(), V31.b16()), 0x6e3f4fdd, "uqshl_v(V29.b16(), V30.b16(), V31.b16())");
    check(&mut block, |c| c.uqshl_v(V29.h4(), V30.h4(), V31.h4()), 0x2e7f4fdd, "uqshl_v(V29.h4(), V30.h4(), V31.h4())");
    check(&mut block, |c| c.uqshl_v(V29.h8(), V30.h8(), V31.h8()), 0x6e7f4fdd, "uqshl_v(V29.h8(), V30.h8(), V31.h8())");
    check(&mut block, |c| c.uqshl_v(V29.s2(), V30.s2(), V31.s2()), 0x2ebf4fdd, "uqshl_v(V29.s2(), V30.s2(), V31.s2())");
    check(&mut block, |c| c.uqshl_v(V29.s4(), V30.s4(), V31.s4()), 0x6ebf4fdd, "uqshl_v(V29.s4(), V30.s4(), V31.s4())");
    check(&mut block, |c| c.uqshl_v(V29.d2(), V30.d2(), V31.d2()), 0x6eff4fdd, "uqshl_v(V29.d2(), V30.d2(), V31.d2())");
    check(&mut block, |c| c.uqxtn_v(V29.b8(), V30.h8()), 0x2e214bdd, "uqxtn_v(V29.b8(), V30.h8())");
    check(&mut block, |c| c.uqxtn_v(V29.h4(), V30.s4()), 0x2e614bdd, "uqxtn_v(V29.h4(), V30.s4())");
    check(&mut block, |c| c.uqxtn_v(V29.s2(), V30.d2()), 0x2ea14bdd, "uqxtn_v(V29.s2(), V30.d2())");
    check(&mut block, |c| c.urecpe_v(V29.s4(), V30.s4()), 0x4ea1cbdd, "urecpe_v(V29.s4(), V30.s4())");
    check(&mut block, |c| c.urhadd_v(V29.b8(), V30.b8(), V31.b8()), 0x2e3f17dd, "urhadd_v(V29.b8(), V30.b8(), V31.b8())");
    check(&mut block, |c| c.urhadd_v(V29.b16(), V30.b16(), V31.b16()), 0x6e3f17dd, "urhadd_v(V29.b16(), V30.b16(), V31.b16())");
    check(&mut block, |c| c.urhadd_v(V29.h4(), V30.h4(), V31.h4()), 0x2e7f17dd, "urhadd_v(V29.h4(), V30.h4(), V31.h4())");
    check(&mut block, |c| c.urhadd_v(V29.h8(), V30.h8(), V31.h8()), 0x6e7f17dd, "urhadd_v(V29.h8(), V30.h8(), V31.h8())");
    check(&mut block, |c| c.urhadd_v(V29.s2(), V30.s2(), V31.s2()), 0x2ebf17dd, "urhadd_v(V29.s2(), V30.s2(), V31.s2())");
    check(&mut block, |c| c.urhadd_v(V29.s4(), V30.s4(), V31.s4()), 0x6ebf17dd, "urhadd_v(V29.s4(), V30.s4(), V31.s4())");
    check(&mut block, |c| c.urshl_v(V29.b8(), V30.b8(), V31.b8()), 0x2e3f57dd, "urshl_v(V29.b8(), V30.b8(), V31.b8())");
    check(&mut block, |c| c.urshl_v(V29.b16(), V30.b16(), V31.b16()), 0x6e3f57dd, "urshl_v(V29.b16(), V30.b16(), V31.b16())");
    check(&mut block, |c| c.urshl_v(V29.h4(), V30.h4(), V31.h4()), 0x2e7f57dd, "urshl_v(V29.h4(), V30.h4(), V31.h4())");
    check(&mut block, |c| c.urshl_v(V29.h8(), V30.h8(), V31.h8()), 0x6e7f57dd, "urshl_v(V29.h8(), V30.h8(), V31.h8())");
    check(&mut block, |c| c.urshl_v(V29.s2(), V30.s2(), V31.s2()), 0x2ebf57dd, "urshl_v(V29.s2(), V30.s2(), V31.s2())");
    check(&mut block, |c| c.urshl_v(V29.s4(), V30.s4(), V31.s4()), 0x6ebf57dd, "urshl_v(V29.s4(), V30.s4(), V31.s4())");
    check(&mut block, |c| c.urshl_v(V29.d2(), V30.d2(), V31.d2()), 0x6eff57dd, "urshl_v(V29.d2(), V30.d2(), V31.d2())");
    check(&mut block, |c| c.ursqrte_v(V29.s4(), V30.s4()), 0x6ea1cbdd, "ursqrte_v(V29.s4(), V30.s4())");
    check(&mut block, |c| c.ushl_v(V29.b8(), V30.b8(), V31.b8()), 0x2e3f47dd, "ushl_v(V29.b8(), V30.b8(), V31.b8())");
    check(&mut block, |c| c.ushl_v(V29.b16(), V30.b16(), V31.b16()), 0x6e3f47dd, "ushl_v(V29.b16(), V30.b16(), V31.b16())");
    check(&mut block, |c| c.ushl_v(V29.h4(), V30.h4(), V31.h4()), 0x2e7f47dd, "ushl_v(V29.h4(), V30.h4(), V31.h4())");
    check(&mut block, |c| c.ushl_v(V29.h8(), V30.h8(), V31.h8()), 0x6e7f47dd, "ushl_v(V29.h8(), V30.h8(), V31.h8())");
    check(&mut block, |c| c.ushl_v(V29.s2(), V30.s2(), V31.s2()), 0x2ebf47dd, "ushl_v(V29.s2(), V30.s2(), V31.s2())");
    check(&mut block, |c| c.ushl_v(V29.s4(), V30.s4(), V31.s4()), 0x6ebf47dd, "ushl_v(V29.s4(), V30.s4(), V31.s4())");
    check(&mut block, |c| c.ushl_v(V29.d2(), V30.d2(), V31.d2()), 0x6eff47dd, "ushl_v(V29.d2(), V30.d2(), V31.d2())");
    check(&mut block, |c| c.usqadd_v(V29.b8(), V30.b8()), 0x2e203bdd, "usqadd_v(V29.b8(), V30.b8())");
    check(&mut block, |c| c.usqadd_v(V29.b16(), V30.b16()), 0x6e203bdd, "usqadd_v(V29.b16(), V30.b16())");
    check(&mut block, |c| c.usqadd_v(V29.h4(), V30.h4()), 0x2e603bdd, "usqadd_v(V29.h4(), V30.h4())");
    check(&mut block, |c| c.usqadd_v(V29.h8(), V30.h8()), 0x6e603bdd, "usqadd_v(V29.h8(), V30.h8())");
    check(&mut block, |c| c.usqadd_v(V29.s2(), V30.s2()), 0x2ea03bdd, "usqadd_v(V29.s2(), V30.s2())");
    check(&mut block, |c| c.usqadd_v(V29.s4(), V30.s4()), 0x6ea03bdd, "usqadd_v(V29.s4(), V30.s4())");
    check(&mut block, |c| c.usqadd_v(V29.d2(), V30.d2()), 0x6ee03bdd, "usqadd_v(V29.d2(), V30.d2())");
    check(&mut block, |c| c.uzp1_v(V29.b8(), V30.b8(), V31.b8()), 0x0e1f1bdd, "uzp1_v(V29.b8(), V30.b8(), V31.b8())");
    check(&mut block, |c| c.uzp1_v(V29.b16(), V30.b16(), V31.b16()), 0x4e1f1bdd, "uzp1_v(V29.b16(), V30.b16(), V31.b16())");
    check(&mut block, |c| c.uzp1_v(V29.h4(), V30.h4(), V31.h4()), 0x0e5f1bdd, "uzp1_v(V29.h4(), V30.h4(), V31.h4())");
    check(&mut block, |c| c.uzp1_v(V29.h8(), V30.h8(), V31.h8()), 0x4e5f1bdd, "uzp1_v(V29.h8(), V30.h8(), V31.h8())");
    check(&mut block, |c| c.uzp1_v(V29.s2(), V30.s2(), V31.s2()), 0x0e9f1bdd, "uzp1_v(V29.s2(), V30.s2(), V31.s2())");
    check(&mut block, |c| c.uzp1_v(V29.s4(), V30.s4(), V31.s4()), 0x4e9f1bdd, "uzp1_v(V29.s4(), V30.s4(), V31.s4())");
    check(&mut block, |c| c.uzp1_v(V29.d2(), V30.d2(), V31.d2()), 0x4edf1bdd, "uzp1_v(V29.d2(), V30.d2(), V31.d2())");
    check(&mut block, |c| c.uzp2_v(V29.b8(), V30.b8(), V31.b8()), 0x0e1f5bdd, "uzp2_v(V29.b8(), V30.b8(), V31.b8())");
    check(&mut block, |c| c.uzp2_v(V29.b16(), V30.b16(), V31.b16()), 0x4e1f5bdd, "uzp2_v(V29.b16(), V30.b16(), V31.b16())");
    check(&mut block, |c| c.uzp2_v(V29.h4(), V30.h4(), V31.h4()), 0x0e5f5bdd, "uzp2_v(V29.h4(), V30.h4(), V31.h4())");
    check(&mut block, |c| c.uzp2_v(V29.h8(), V30.h8(), V31.h8()), 0x4e5f5bdd, "uzp2_v(V29.h8(), V30.h8(), V31.h8())");
    check(&mut block, |c| c.uzp2_v(V29.s2(), V30.s2(), V31.s2()), 0x0e9f5bdd, "uzp2_v(V29.s2(), V30.s2(), V31.s2())");
    check(&mut block, |c| c.uzp2_v(V29.s4(), V30.s4(), V31.s4()), 0x4e9f5bdd, "uzp2_v(V29.s4(), V30.s4(), V31.s4())");
    check(&mut block, |c| c.uzp2_v(V29.d2(), V30.d2(), V31.d2()), 0x4edf5bdd, "uzp2_v(V29.d2(), V30.d2(), V31.d2())");
    check(&mut block, |c| c.zip2_v(V29.b8(), V30.b8(), V31.b8()), 0x0e1f7bdd, "zip2_v(V29.b8(), V30.b8(), V31.b8())");
    check(&mut block, |c| c.zip2_v(V29.b16(), V30.b16(), V31.b16()), 0x4e1f7bdd, "zip2_v(V29.b16(), V30.b16(), V31.b16())");
    check(&mut block, |c| c.zip2_v(V29.h4(), V30.h4(), V31.h4()), 0x0e5f7bdd, "zip2_v(V29.h4(), V30.h4(), V31.h4())");
    check(&mut block, |c| c.zip2_v(V29.h8(), V30.h8(), V31.h8()), 0x4e5f7bdd, "zip2_v(V29.h8(), V30.h8(), V31.h8())");
    check(&mut block, |c| c.zip2_v(V29.s2(), V30.s2(), V31.s2()), 0x0e9f7bdd, "zip2_v(V29.s2(), V30.s2(), V31.s2())");
    check(&mut block, |c| c.zip2_v(V29.s4(), V30.s4(), V31.s4()), 0x4e9f7bdd, "zip2_v(V29.s4(), V30.s4(), V31.s4())");
    check(&mut block, |c| c.zip2_v(V29.d2(), V30.d2(), V31.d2()), 0x4edf7bdd, "zip2_v(V29.d2(), V30.d2(), V31.d2())");
    check(&mut block, |c| c.umov(W29, V30.b16(), 15), 0x0e1f3fdd, "umov(W29, V30.b16(), 15)");
    check(&mut block, |c| c.umov(X29, V30.d2(), 1), 0x4e183fdd, "umov(X29, V30.d2(), 1)");
    check(&mut block, |c| c.mov_to_element(V29.b16(), 15, W30), 0x4e1f1fdd, "mov_to_element(V29.b16(), 15, W30)");
    check(&mut block, |c| c.mov_to_element(V29.d2(), 1, X30), 0x4e181fdd, "mov_to_element(V29.d2(), 1, X30)");
    check(&mut block, |c| c.mov_d1_from_d0(V29.d2(), V30.d2()), 0x6e1807dd, "mov_d1_from_d0(V29.d2(), V30.d2())");
    check(&mut block, |c| c.dup_from_gp(V29.b16(), W30), 0x4e010fdd, "dup_from_gp(V29.b16(), W30)");
    check(&mut block, |c| c.dup_from_gp(V29.d2(), X30), 0x4e080fdd, "dup_from_gp(V29.d2(), X30)");
    check(&mut block, |c| c.dup_element(V29.b8(), V30, 15), 0x0e1f07dd, "dup_element(V29.b8(), V30, 15)");
    check(&mut block, |c| c.dup_element(V29.d2(), V30, 1), 0x4e1807dd, "dup_element(V29.d2(), V30, 1)");
    check(&mut block, |c| c.tbl_v(V29.b8(), V30.b16(), V31.b8(), 4), 0x0e1f63dd, "tbl_v(V29.b8(), V30.b16(), V31.b8(), 4)");
    check(&mut block, |c| c.tbx_v(V29.b8(), V30.b16(), V31.b8(), 4), 0x0e1f73dd, "tbx_v(V29.b8(), V30.b16(), V31.b8(), 4)");
    check(&mut block, |c| c.tbl_v(V29.b16(), V30.b16(), V31.b16(), 4), 0x4e1f63dd, "tbl_v(V29.b16(), V30.b16(), V31.b16(), 4)");
    check(&mut block, |c| c.tbx_v(V29.b16(), V30.b16(), V31.b16(), 4), 0x4e1f73dd, "tbx_v(V29.b16(), V30.b16(), V31.b16(), 4)");
    check(&mut block, |c| c.shl_v(V29.d2(), V30.d2(), 63), 0x4f7f57dd, "shl_v(V29.d2(), V30.d2(), 63)");
    check(&mut block, |c| c.sqshlu_v(V29.d2(), V30.d2(), 63), 0x6f7f67dd, "sqshlu_v(V29.d2(), V30.d2(), 63)");
}

#[test]
fn movi_rep_matches_oaknut_literal_words() {
    let mut block = BlockOfCode::with_size(4096).unwrap();
    // Independent words of the DReg/RepImm encoding.
    for (rd, mask, expected) in [
        (D0, 0x00, 0x2f00_e400),
        (D2, 0x0f, 0x2f00_e5e2),
        (D2, 0xf0, 0x2f07_e602),
        (D31, 0xff, 0x2f07_e7ff),
        (D0, 0x81, 0x2f04_e420),
    ] {
        let offset = block.code_size();
        CodeGenerator::new(&mut block).movi_rep(rd, mask).unwrap();
        assert_eq!(block.code_size(), offset + 4);
        assert_eq!(block.word_at(offset), expected);
    }
}
