use rhazel::inst;
use rhazel::{BlockOfCode, CodeGenerator, Cond, Label, W0, X0, X1};

const RET: u32 = 0xd65f_03c0;

#[test]
fn append_generator_label_operations_and_mutable_deref_still_work() {
    let mut block = BlockOfCode::with_size(4096).unwrap();
    let mut label = Label::new();
    {
        let mut code = CodeGenerator::new(&mut block);
        code.b(&mut label).unwrap();
        code.b_cond(Cond::EQ, &mut label).unwrap();
        code.cbz(W0, &mut label).unwrap();
        code.cbz(X0, &mut label).unwrap();
        code.cbnz(W0, &mut label).unwrap();
        code.cbnz(X0, &mut label).unwrap();
        code.tbnz(X0, 0, &mut label).unwrap();
        code.l(&mut label).unwrap();
        assert_eq!(code.code_size(), 32);
        code.code.write_u32(RET).unwrap();
    }
    let expected: [u32; 9] = [
        0x1400_0008,
        0x5400_00e0,
        0x3400_00c0,
        0xb400_00a0,
        0x3500_0080,
        0xb500_0060,
        0x3600_0040,
        0x1400_0001,
        RET,
    ];
    assert_eq!(block.code_size(), 36);
    for (i, expected) in expected.into_iter().enumerate() {
        assert_eq!(block.word_at(i * 4), expected);
    }
}

#[test]
fn backward_branches_use_the_bound_offset() {
    let mut block = BlockOfCode::with_size(4096).unwrap();
    let mut label = Label::new();
    let mut code = CodeGenerator::new(&mut block);
    code.nop().unwrap();
    code.l(&mut label).unwrap();
    assert_eq!(label.offset(), Some(4));
    assert!(label.is_bound());
    code.nop().unwrap();
    code.b(&mut label).unwrap();
    code.cbnz(X1, &mut label).unwrap();
    code.tbnz(X1, 63, &mut label).unwrap();
    drop(code);
    assert_eq!(block.word_at(8), inst::b(-4));
    assert_eq!(block.word_at(8), 0x17ff_ffff);
    assert_eq!(block.word_at(12), inst::cbnz_x(1, -8));
    assert_eq!(block.word_at(16), inst::tbnz(1, 63, -12));
    assert_eq!(block.code_size(), 20);
}

#[test]
fn resolved_forward_branch_equals_direct_encoding() {
    let mut block = BlockOfCode::with_size(4096).unwrap();
    let mut label = Label::new();
    let mut code = CodeGenerator::new(&mut block);
    code.b_cond(Cond::GE, &mut label).unwrap();
    for _ in 0..9 {
        code.nop().unwrap();
    }
    code.l(&mut label).unwrap();
    drop(code);
    assert_eq!(block.word_at(0), inst::b_cond(Cond::GE, 40));
    assert!(label.is_bound());
}

#[test]
fn far_backward_tbnz_uses_tbz_and_b() {
    let mut block = BlockOfCode::with_size(0x20000).unwrap();
    let mut label = Label::new();
    let mut code = CodeGenerator::new(&mut block);
    code.l(&mut label).unwrap();
    for _ in 0..0x3000 {
        code.nop().unwrap();
    }
    code.tbnz(X0, 5, &mut label).unwrap();
    drop(code);
    let pc = 0x3000 * 4;
    assert_eq!(block.word_at(pc), inst::tbz(0, 5, 8));
    assert_eq!(block.word_at(pc + 4), inst::b(-(pc as i32) - 4));
}

#[test]
fn full_buffer_rejects_emission_without_writing() {
    let mut block = BlockOfCode::with_size(8).unwrap();
    let mut label = Label::new();
    let mut code = CodeGenerator::new(&mut block);
    code.nop().unwrap();
    // Only one slot is left: TBZ fits, the B does not.
    assert_eq!(code.tbnz(X0, 1, &mut label).unwrap_err(), "ARM64 code buffer is full");
    assert_eq!(code.code_size(), 8);
    assert!(code.nop().is_err());
    drop(code);
    assert_eq!(block.word_at(4), inst::tbz(0, 1, 8));
    assert_eq!(label.offset(), None);
}

#[test]
fn conditional_branch_out_of_range_is_refused() {
    let mut block = BlockOfCode::with_size(0x20_0000).unwrap();
    let mut label = Label::new();
    let mut code = CodeGenerator::new(&mut block);
    code.l(&mut label).unwrap();
    for _ in 0..0x4_0001 {
        code.nop().unwrap();
    }
    let before = code.code_size();
    assert_eq!(
        code.cbz(X0, &mut label).unwrap_err(),
        "ARM64 branch target out of range"
    );
    assert_eq!(code.code_size(), before);
    code.b(&mut label).unwrap();
    drop(code);
    assert_eq!(block.word_at(before), inst::b(-(before as i32)));
}

#[test]
fn forward_conditional_branch_too_far_fails_to_bind() {
    let mut block = BlockOfCode::with_size(0x20_0000).unwrap();
    let mut label = Label::new();
    let mut code = CodeGenerator::new(&mut block);
    code.cbz(X0, &mut label).unwrap();
    for _ in 0..0x4_0000 {
        code.nop().unwrap();
    }
    assert_eq!(
        code.l(&mut label).unwrap_err(),
        "ARM64 label fixup out of range"
    );
    assert!(!label.is_bound());
    drop(code);
    assert_eq!(block.word_at(0), inst::cbz_x(0, 0));
}

#[test]
fn a_default_label_is_unbound() {
    let label = Label::default();
    assert!(!label.is_bound());
    assert_eq!(label.offset(), None);
}
