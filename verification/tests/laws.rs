use rhazel::inst;
use rhazel::{BlockOfCode, CodeGenerator, W3, X0, X9};

fn words(block: &BlockOfCode) -> Vec<u32> {
    (0..block.code_size()).step_by(4).map(|o| block.word_at(o)).collect()
}

/// What a `MOVZ`/`MOVK` word leaves in its register when it held `old`.
fn run_move_wide(word: u32, old: u64) -> u64 {
    let sh = ((word >> 21) & 3) * 16;
    let imm = ((word >> 5) & 0xffff) as u64;
    let v = if (word >> 29) & 3 == 2 {
        imm << sh
    } else {
        (old & !(0xffffu64 << sh)) | (imm << sh)
    };
    if word >> 31 == 0 {
        v & 0xffff_ffff
    } else {
        v
    }
}

#[test]
fn mov_imm_emits_movz_then_movk_for_nonzero_half_words() {
    let mut block = BlockOfCode::with_size(4096).unwrap();
    {
        let mut code = CodeGenerator::new(&mut block);
        code.mov_imm(X0, 0x1234_0000_5678).unwrap();
    }
    assert_eq!(words(&block), vec![0xd28a_cf00, 0xf2c2_4680]);
}

#[test]
fn mov_imm_materializes_the_value_whatever_the_register_held() {
    let values: [u64; 8] = [
        0,
        1,
        0xffff,
        0x1_0000,
        0x8000_0000,
        0xdead_beef_cafe_f00d,
        0xffff_ffff_ffff_ffff,
        0x0001_0000_0000_0001,
    ];
    for &imm in &values {
        for &init in &[0u64, u64::MAX, 0x5555_aaaa_5555_aaaa] {
            let mut block = BlockOfCode::with_size(64).unwrap();
            {
                let mut code = CodeGenerator::new(&mut block);
                code.mov_imm(X9, imm).unwrap();
                code.mov_imm(W3, imm).unwrap();
            }
            let ws = words(&block);
            let (x_words, w_words): (Vec<u32>, Vec<u32>) =
                ws.iter().partition(|&&w| w & 0x1f == 9);
            assert!(w_words.iter().all(|&w| w & 0x1f == 3));
            let x = x_words.iter().fold(init, |v, &w| run_move_wide(w, v));
            let w = w_words.iter().fold(init, |v, &w| run_move_wide(w, v));
            assert_eq!(x, imm, "X9 <- {imm:#x}");
            assert_eq!(w, imm & 0xffff_ffff, "W3 <- {imm:#x}");
        }
    }
}

#[test]
fn logical_immediates_take_their_least_field() {
    assert_eq!(inst::encode_bit_mask(1, 32), Some(0));
    assert_eq!(inst::encode_bit_mask(1, 64), Some(0x1000));
    assert_eq!(inst::encode_bit_mask(0x5555_5555_5555_5555, 64), Some(0x3c));
    assert_eq!(inst::encode_bit_mask(0xaaaa_aaaa_aaaa_aaaa, 64), Some(0x7c));
    assert_eq!(inst::encode_bit_mask(0xffff_ffff, 32), None);
    assert_eq!(inst::encode_bit_mask(0, 64), None);
    assert_eq!(inst::encode_bit_mask(u64::MAX, 64), None);
    assert_eq!(inst::encode_bit_mask(0x1234_5678, 32), None);
}

#[test]
fn every_decodable_field_encodes_back_to_its_value() {
    for datasize in [32u64, 64] {
        for f in (0u64..0x2000).step_by(37) {
            if let Some(v) = inst::decode_bit_mask_exec(f, datasize) {
                let g = inst::encode_bit_mask(v, datasize).expect("encodable");
                assert!(g <= f);
                assert_eq!(inst::decode_bit_mask_exec(g, datasize), Some(v));
            }
        }
    }
}

#[test]
fn register_fields_read_back_from_encoded_words() {
    for rd in [0u8, 1, 17, 30, 31] {
        for rn in [0u8, 5, 31] {
            for rm in [0u8, 16, 31] {
                let w = inst::add_x_reg(rd, rn, rm);
                assert_eq!(w & 0x1f, rd as u32);
                assert_eq!((w >> 5) & 0x1f, rn as u32);
                assert_eq!((w >> 16) & 0x1f, rm as u32);
                assert_eq!(w & 0xffe0_fc00, 0x8b00_0000);
            }
        }
    }
}

#[test]
fn a_full_buffer_keeps_its_words_and_cursor() {
    let mut block = BlockOfCode::with_size(10).unwrap();
    assert_eq!(block.total_size(), 8);
    assert_eq!(block.write_u32(0x1111_1111), Ok(0));
    assert_eq!(block.write_u32(0x2222_2222), Ok(4));
    assert_eq!(
        block.write_u32(0x3333_3333),
        Err(String::from("ARM64 code buffer is full"))
    );
    assert_eq!(block.code_size(), 8);
    assert_eq!(words(&block), vec![0x1111_1111, 0x2222_2222]);
}

#[test]
fn with_base_records_the_address_of_the_first_byte() {
    let block = BlockOfCode::with_base(0x4000_0000, 4096);
    assert_eq!(block.code_base_ptr(), 0x4000_0000);
    assert_eq!(block.code_size(), 0);
    assert_eq!(block.total_size(), 4096);
    assert_eq!(block.word_at(4092), 0);
}
