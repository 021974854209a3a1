//! Emitted sequences run on a small interpreter of the AArch64 instructions
//! they use, and their results are compared with the intended arithmetic.

use rhazel::{BlockOfCode, CodeGenerator, D0, D2, D3, D4, D5, V0, V1, V2, V3, V4, V5, W0, X0, X1};

/// Register state of the interpreter: general registers and the low 128
/// bits of the vector registers.
struct Machine {
    x: [u64; 32],
    v: [u128; 32],
}

const LOW64: u128 = 0xffff_ffff_ffff_ffff;

fn lanes(value: u128, esize: u32, count: u32) -> Vec<u128> {
    let mask = (1u128 << esize) - 1;
    (0..count).map(|i| (value >> (i * esize)) & mask).collect()
}

fn pack(lanes: &[u128], esize: u32) -> u128 {
    let mask = (1u128 << esize) - 1;
    lanes
        .iter()
        .enumerate()
        .fold(0, |acc, (i, l)| acc | ((l & mask) << (i as u32 * esize)))
}

fn expand_rep_mask(imm8: u32) -> u64 {
    (0..8).fold(0u64, |value, byte| {
        value | if imm8 & (1 << byte) != 0 { 0xff << (byte * 8) } else { 0 }
    })
}

impl Machine {
    fn new() -> Self {
        Machine { x: [0; 32], v: [0; 32] }
    }

    /// Runs from byte `offset` until `RET`; returns X0.
    fn run(&mut self, block: &BlockOfCode, mut offset: usize) -> u64 {
        loop {
            let w = block.word_at(offset);
            offset += 4;
            let d = (w & 0x1f) as usize;
            let n = ((w >> 5) & 0x1f) as usize;
            let m = ((w >> 16) & 0x1f) as usize;
            if w == 0xd65f_03c0 {
                return self.x[0];
            } else if w & 0xffff_fc00 == 0x9340_7c00 {
                // SXTW Xd, Wn
                self.x[d] = self.x[n] as u32 as i32 as i64 as u64;
            } else if w & 0xffe0_fc00 == 0x9ac0_2800 {
                // ASRV Xd, Xn, Xm
                self.x[d] = ((self.x[n] as i64) >> (self.x[m] & 63)) as u64;
            } else if w & 0xffe0_ffe0 == 0x2a00_03e0 {
                // MOV Wd, Wm
                self.x[d] = self.x[m] & 0xffff_ffff;
            } else if w & 0xfff8_fc00 == 0x2f00_e400 {
                // MOVI Dd, #rep
                let imm8 = ((w >> 16) & 7) << 5 | ((w >> 5) & 0x1f);
                self.v[d] = expand_rep_mask(imm8) as u128;
            } else if w & 0xffff_fc00 == 0x9e66_0000 {
                // FMOV Xd, Dn
                self.x[d] = (self.v[n] & LOW64) as u64;
            } else if w & 0xffff_fc00 == 0x9e67_0000 {
                // FMOV Dd, Xn
                self.v[d] = self.x[n] as u128;
            } else if w & 0xff80_fc00 == 0x2f00_a400 {
                // UXTL (USHLL #0), lower half
                let esize = (w >> 16) & 0x7f;
                let src = lanes(self.v[n], esize, 64 / esize);
                self.v[d] = pack(&src, 2 * esize);
            } else if w & 0xffe0_8400 == 0x2e00_0000 {
                // EXT Vd.8B, Vn.8B, Vm.8B, #index
                let index = (w >> 11) & 0xf;
                let cat = (self.v[n] & LOW64) | ((self.v[m] & LOW64) << 64);
                self.v[d] = (cat >> (8 * index)) & LOW64;
            } else if w & 0xffe0_fc00 == 0x2e20_1c00 {
                // EOR Vd.8B
                self.v[d] = (self.v[n] ^ self.v[m]) & LOW64;
            } else if w & 0xffe0_fc00 == 0x0e20_1c00 {
                // AND Vd.8B
                self.v[d] = (self.v[n] & self.v[m]) & LOW64;
            } else if w & 0xffe0_fc00 == 0x2ea0_8400 {
                // SUB Vd.2S
                let a = lanes(self.v[n], 32, 2);
                let b = lanes(self.v[m], 32, 2);
                let r: Vec<u128> = a.iter().zip(b.iter()).map(|(a, b)| a.wrapping_sub(*b)).collect();
                self.v[d] = pack(&r, 32);
            } else if w & 0xffff_fc00 == 0x0e61_2800 {
                // XTN Vd.4H, Vn.4S
                self.v[d] = pack(&lanes(self.v[n], 32, 4), 16);
            } else if w & 0xffe0_fc00 == 0x2e20_7400 {
                // UABD Vd.8B
                let a = lanes(self.v[n], 8, 8);
                let b = lanes(self.v[m], 8, 8);
                let r: Vec<u128> = a.iter().zip(b.iter()).map(|(a, b)| a.abs_diff(*b)).collect();
                self.v[d] = pack(&r, 8);
            } else if w & 0xffff_fc00 == 0x2e30_3800 {
                // UADDLV Hd, Vn.8B
                self.v[d] = lanes(self.v[n], 8, 8).iter().sum::<u128>() & 0xffff;
            } else {
                panic!("instruction {w:#010x} is outside the interpreter");
            }
        }
    }
}

#[test]
fn sign_extended_variable_shift_keeps_64_bit_shift_range() {
    let mut block = BlockOfCode::with_size(4096).unwrap();
    let mut code = CodeGenerator::new(&mut block);
    // ArithmeticShiftRight32 with carry clamps at 63 and uses X operands
    // here, then narrows the result with MOV W. A W ASRV would wrap shift
    // amounts 32..63 modulo 32.
    code.sxtw(X0, W0).unwrap();
    code.asrv(X0, X0, X1).unwrap();
    code.mov(W0, W0).unwrap();
    code.ret().unwrap();
    drop(code);
    for input in [0u32, 1, 0x7fff_ffff, 0x8000_0000, 0xffff_ffff] {
        for shift in [0u64, 1, 31, 32, 33, 63] {
            let mut machine = Machine::new();
            machine.x[0] = input as u64;
            machine.x[1] = shift;
            assert_eq!(
                machine.run(&block, 0) as u32,
                ((input as i32 as i64) >> shift) as u32
            );
        }
    }
}

#[test]
fn movi_rep_native_expands_every_byte_mask() {
    let mut block = BlockOfCode::with_size(4096).unwrap();
    let mut offsets = Vec::new();
    for mask in 0..=u8::MAX {
        offsets.push(block.code_size());
        let mut code = CodeGenerator::new(&mut block);
        code.movi_rep(D0, mask).unwrap();
        code.fmov_to_gp(X0, D0).unwrap();
        code.ret().unwrap();
    }
    for (mask, offset) in offsets.into_iter().enumerate() {
        let expected = (0..8).fold(0u64, |value, byte| {
            value
                | if mask & (1 << byte) != 0 {
                    0xff << (byte * 8)
                } else {
                    0
                }
        });
        assert_eq!(Machine::new().run(&block, offset), expected, "mask {mask:#04x}");
    }
}

#[test]
fn packed_rep_masks_native_results_match_eden() {
    // The packed scratch sequences of the emitters; emitter tests check the
    // mask words.
    for add_is_hi in [false, true] {
        let mut block = BlockOfCode::with_size(4096).unwrap();
        {
            let mut code = CodeGenerator::new(&mut block);
            code.fmov_from_gp(D4, X0).unwrap();
            code.fmov_from_gp(D5, X1).unwrap();
            code.uxtl(V0.s4(), V4.h4()).unwrap();
            code.uxtl(V1.s4(), V5.h4()).unwrap();
            code.ext(V1.b8(), V1.b8(), V1.b8(), 4).unwrap();
            code.movi_rep(D2, if add_is_hi { 0xf0 } else { 0x0f }).unwrap();
            code.eor_v(V1.b8(), V1.b8(), V2.b8()).unwrap();
            code.sub_v(V1.s2(), V1.s2(), V2.s2()).unwrap();
            code.sub_v(V3.s2(), V0.s2(), V1.s2()).unwrap();
            code.xtn(V3.h4(), V3.s4()).unwrap();
            code.fmov_to_gp(X0, D3).unwrap();
            code.ret().unwrap();
        }
        for (a, b) in [(0u32, 1u32), (0x1020_3040, 0x0102_0304), (u32::MAX, u32::MAX)] {
            let (alo, ahi) = (a as u16, (a >> 16) as u16);
            let (blo, bhi) = (b as u16, (b >> 16) as u16);
            let (lo, hi) = if add_is_hi {
                (alo.wrapping_sub(bhi), ahi.wrapping_add(blo))
            } else {
                (alo.wrapping_add(bhi), ahi.wrapping_sub(blo))
            };
            let expected = u32::from(lo) | (u32::from(hi) << 16);
            let mut machine = Machine::new();
            machine.x[0] = a.into();
            machine.x[1] = b.into();
            assert_eq!(machine.run(&block, 0) as u32, expected);
        }
    }

    let mut block = BlockOfCode::with_size(4096).unwrap();
    {
        let mut code = CodeGenerator::new(&mut block);
        code.fmov_from_gp(D4, X0).unwrap();
        code.fmov_from_gp(D5, X1).unwrap();
        code.movi_rep(D2, 0x0f).unwrap();
        code.uabd(V3.b8(), V4.b8(), V5.b8()).unwrap();
        code.and_v(V3.b8(), V3.b8(), V2.b8()).unwrap();
        code.uaddlv(V3.h(), V3.b8()).unwrap();
        code.fmov_to_gp(X0, D3).unwrap();
        code.ret().unwrap();
    }
    for (a, b, expected) in [
        (0x20, 0, 32),
        (0xffff_ffff, 0, 1020),
        (0xffff_ffff_0000_0020, 0, 32),
        (0, 0xffff_ffff_0000_0020, 32),
    ] {
        let mut machine = Machine::new();
        machine.x[0] = a;
        machine.x[1] = b;
        assert_eq!(machine.run(&block, 0), expected);
    }
}
