use rhazel::{BlockOfCode, CodeGenerator, Q7, SP, W7, W9, X7, X8, X9, XZR};

fn words(block: &BlockOfCode) -> Vec<u32> {
    (0..block.code_size())
        .step_by(4)
        .map(|offset| block.word_at(offset))
        .collect()
}

#[test]
fn register_offset_types_select_oaknut_extension_bits_without_scaling() {
    let mut block = BlockOfCode::with_size(4096).unwrap();
    let mut code = CodeGenerator::new(&mut block);
    code.ldr_reg(W7, X8, X9).unwrap();
    code.ldr_reg(W7, X8, W9).unwrap();
    code.ldr_reg(X7, X8, X9).unwrap();
    code.ldr_reg(X7, X8, W9).unwrap();
    code.ldr_q_reg(Q7, X8, X9).unwrap();
    code.ldr_q_reg(Q7, X8, W9).unwrap();
    code.str_reg(W7, X8, X9).unwrap();
    code.str_reg(W7, X8, W9).unwrap();
    code.str_reg(X7, X8, X9).unwrap();
    code.str_reg(X7, X8, W9).unwrap();
    code.str_q_reg(Q7, X8, X9).unwrap();
    code.str_q_reg(Q7, X8, W9).unwrap();
    drop(code);
    // Register-offset templates with S=0, option=011/010.
    assert_eq!(
        words(&block),
        [
            0xb869_6907,
            0xb869_4907,
            0xf869_6907,
            0xf869_4907,
            0x3ce9_6907,
            0x3ce9_4907,
            0xb829_6907,
            0xb829_4907,
            0xf829_6907,
            0xf829_4907,
            0x3ca9_6907,
            0x3ca9_4907,
        ]
    );
}

#[test]
fn narrow_memory_and_acquire_release_match_oaknut_templates() {
    let mut block = BlockOfCode::with_size(4096).unwrap();
    let mut code = CodeGenerator::new(&mut block);
    code.ldrb_reg(W7, X8, X9).unwrap();
    code.ldrb_reg(W7, X8, W9).unwrap();
    code.ldrh_reg(W7, X8, X9).unwrap();
    code.ldrh_reg(W7, X8, W9).unwrap();
    code.strb_reg(W7, X8, X9).unwrap();
    code.strb_reg(W7, X8, W9).unwrap();
    code.strh_reg(W7, X8, X9).unwrap();
    code.strh_reg(W7, X8, W9).unwrap();
    code.ldarb(W7, X8).unwrap();
    code.ldarh(W7, X8).unwrap();
    code.stlrb(W7, X8).unwrap();
    code.stlrh(W7, X8).unwrap();
    code.stlr(W7, X8).unwrap();
    code.stlr(X7, X8).unwrap();
    drop(code);
    assert_eq!(
        words(&block),
        [
            0x3869_6907,
            0x3869_4907,
            0x7869_6907,
            0x7869_4907,
            0x3829_6907,
            0x3829_4907,
            0x7829_6907,
            0x7829_4907,
            0x08df_fd07,
            0x48df_fd07,
            0x089f_fd07,
            0x489f_fd07,
            0x889f_fd07,
            0xc89f_fd07,
        ]
    );
}

#[test]
fn unscaled_offsets_and_sp_keep_a32_pc_upper_descriptor_layout() {
    let mut block = BlockOfCode::with_size(4096).unwrap();
    let mut code = CodeGenerator::new(&mut block);
    code.stur(X7, X8, 60).unwrap();
    code.ldur(X7, X8, 60).unwrap();
    code.stur(XZR, SP, -256).unwrap();
    code.ldur(X7, SP, 255).unwrap();
    code.add_uxtw(X7, SP, W9).unwrap();
    drop(code);
    assert_eq!(
        words(&block),
        [0xf803_c107, 0xf843_c107, 0xf810_03ff, 0xf84f_f3e7, 0x8b29_43e7]
    );
}
