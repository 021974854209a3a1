//! The typed mnemonic front end: one method per mnemonic, emitting into a
//! [`BlockOfCode`].
//!
//! Where one mnemonic covers several operand classes, the method is generic
//! over the operand traits in [`crate::reg`], so `code.adds(W0, W1, W2)` and
//! `code.adds(X0, X1, X2)` read alike while the type selects the encoding.
//! Forms that differ in operand kind rather than width keep a suffix, e.g.
//! `cmp` / `cmp_imm`, and the conditional branch is `b_cond`.
//!
//! Every mnemonic appends exactly the word of its encoder in [`crate::inst`]
//! when the buffer has room, and fails without writing when it has none.

pub mod a32_memory;
pub mod data_processing;
pub mod scalar_fp;
pub mod vector;

use crate::block_of_code::{
    emits, full_message, lemma_writes_concat, lemma_writes_empty, lemma_writes_prefix_fails, same, writes,
    BlockOfCode,
};
use crate::cond::Cond;
use crate::enums::{BarrierOp, SystemReg};
use crate::inst;
use crate::label::{FixupKind, Label};
use crate::reg::{
    BReg, BaseReg, DReg, FpReg, GpReg, GpRegSp, HReg, LdStKind, LdStReg, QReg, Register, VReg16B, VReg2D,
    VReg4H, VReg4S, VReg8H, VRegArranged, VRegBytes, SReg, WReg, XReg,
};
use vstd::prelude::*;

verus! {

/// Emits instructions into a borrowed [`BlockOfCode`].
pub struct CodeGenerator<'a> {
    /// The buffer the generator appends to.
    pub code: &'a mut BlockOfCode,
}

/// `imm_bytes` is an unsigned offset a `LDR`/`STR` of the register class
/// `kind` can encode: a multiple of the access size (1, 2, 4, 8 or 16 bytes)
/// whose quotient fits 12 bits.
pub open spec fn ldst_offset_ok(kind: LdStKind, imm_bytes: u32) -> bool {
    match kind {
        LdStKind::W => imm_bytes % 4 == 0 && imm_bytes / 4 < 4096,
        LdStKind::X => imm_bytes % 8 == 0 && imm_bytes / 8 < 4096,
        LdStKind::B => imm_bytes < 4096,
        LdStKind::H => imm_bytes % 2 == 0 && imm_bytes / 2 < 4096,
        LdStKind::S => imm_bytes % 4 == 0 && imm_bytes / 4 < 4096,
        LdStKind::D => imm_bytes % 8 == 0 && imm_bytes / 8 < 4096,
        LdStKind::Q => imm_bytes % 16 == 0 && imm_bytes / 16 < 4096,
    }
}

/// The `STR (unsigned offset)` word for a register of class `kind`.
pub open spec fn str_word(kind: LdStKind, rt: u8, rn: u8, imm_bytes: u32) -> u32 {
    match kind {
        LdStKind::W => inst::str_w_unsigned(rt, rn, imm_bytes),
        LdStKind::X => inst::str_x_unsigned(rt, rn, imm_bytes),
        LdStKind::B => inst::str_b_unsigned(rt, rn, imm_bytes),
        LdStKind::H => inst::str_h_unsigned(rt, rn, imm_bytes),
        LdStKind::S => inst::str_s_unsigned(rt, rn, imm_bytes),
        LdStKind::D => inst::str_d_unsigned(rt, rn, imm_bytes),
        LdStKind::Q => inst::str_q_unsigned(rt, rn, imm_bytes),
    }
}

/// The `LDR (unsigned offset)` word for a register of class `kind`.
pub open spec fn ldr_word(kind: LdStKind, rt: u8, rn: u8, imm_bytes: u32) -> u32 {
    match kind {
        LdStKind::W => inst::ldr_w_unsigned(rt, rn, imm_bytes),
        LdStKind::X => inst::ldr_x_unsigned(rt, rn, imm_bytes),
        LdStKind::B => inst::ldr_b_unsigned(rt, rn, imm_bytes),
        LdStKind::H => inst::ldr_h_unsigned(rt, rn, imm_bytes),
        LdStKind::S => inst::ldr_s_unsigned(rt, rn, imm_bytes),
        LdStKind::D => inst::ldr_d_unsigned(rt, rn, imm_bytes),
        LdStKind::Q => inst::ldr_q_unsigned(rt, rn, imm_bytes),
    }
}

/// Bit 26 (`V`) of a load/store word: the transfer register is an FP/SIMD
/// register rather than a general-purpose one.
pub open spec fn ldst_word_is_fp(word: u32) -> bool {
    (word >> 26u32) & 1 == 1
}

/// log2 of the bytes a load/store word moves: its `size` field (bits
/// [31:30]), or 4 for the 128-bit FP/SIMD form (`size` 0 with `opc<1>`,
/// bit 23, set).
pub open spec fn ldst_word_log2_bytes(word: u32) -> u32 {
    if (word >> 26u32) & 1 == 1 && word >> 30u32 == 0 && (word >> 23u32) & 1 == 1 {
        4
    } else {
        word >> 30u32
    }
}

/// `word` moves `1 << log2` bytes of an FP/SIMD register (`fp`) or of a
/// general-purpose register.
pub open spec fn moves(word: u32, fp: bool, log2: u32) -> bool {
    ldst_word_is_fp(word) == fp && ldst_word_log2_bytes(word) == log2
}

/// The class bits of a load/store word over `base` are `base`'s: the
/// registers and the 12-bit offset field lie below them.
proof fn lemma_ldst_class_bits(base: u32, rt: u8, rn: u8, f: u32)
    requires
        rt < 32,
        rn < 32,
        f < 4096,
    ensures
        ldst_word_is_fp(inst::rr(base, rt, rn) | inst::place(f, 10)) == ldst_word_is_fp(base),
        ldst_word_log2_bytes(inst::rr(base, rt, rn) | inst::place(f, 10)) == ldst_word_log2_bytes(base),
{
    let t = rt as u32;
    let n = rn as u32;
    let w = base | (n << 5u32) | t | (f << 10u32);
    assert(inst::rr(base, rt, rn) | inst::place(f, 10) == w);
    assert((w >> 26u32) & 1 == (base >> 26u32) & 1 && w >> 30u32 == base >> 30u32 && (w >> 23u32) & 1
        == (base >> 23u32) & 1) by (bit_vector)
        requires
            w == base | (n << 5u32) | t | (f << 10u32),
            t < 32,
            n < 32,
            f < 4096,
    ;
}

/// A load or store transfers the register its operand type names: `STR`
/// and `LDR` of a `W` or `X` register move 4 or 8 bytes of a general-purpose
/// register (as its `sf` says), and of a `B`, `H`, `S`, `D` or `Q` register
/// 1, 2, 4, 8 or 16 bytes of an FP/SIMD register (`1 <<` its width order).
pub proof fn lemma_ldst_transfers_the_operand_register(rt: u8, rn: u8, imm_bytes: u32)
    requires
        rt < 32,
        rn < 32,
    ensures
        ldst_offset_ok(<WReg as LdStReg>::spec_kind(), imm_bytes) ==> moves(str_word(<WReg as LdStReg>::spec_kind(), rt, rn, imm_bytes), false, 2) && moves(ldr_word(<WReg as LdStReg>::spec_kind(), rt, rn, imm_bytes), false, 2),
        ldst_word_log2_bytes(str_word(<WReg as LdStReg>::spec_kind(), rt, rn, imm_bytes)) == (if <WReg as GpReg>::spec_sf() { 3u32 } else { 2u32 }) || !ldst_offset_ok(<WReg as LdStReg>::spec_kind(), imm_bytes),
        ldst_offset_ok(<XReg as LdStReg>::spec_kind(), imm_bytes) ==> moves(str_word(<XReg as LdStReg>::spec_kind(), rt, rn, imm_bytes), false, 3) && moves(ldr_word(<XReg as LdStReg>::spec_kind(), rt, rn, imm_bytes), false, 3),
        ldst_word_log2_bytes(str_word(<XReg as LdStReg>::spec_kind(), rt, rn, imm_bytes)) == (if <XReg as GpReg>::spec_sf() { 3u32 } else { 2u32 }) || !ldst_offset_ok(<XReg as LdStReg>::spec_kind(), imm_bytes),
        ldst_offset_ok(<BReg as LdStReg>::spec_kind(), imm_bytes) ==> moves(str_word(<BReg as LdStReg>::spec_kind(), rt, rn, imm_bytes), true, 0) && moves(ldr_word(<BReg as LdStReg>::spec_kind(), rt, rn, imm_bytes), true, 0),
        ldst_word_log2_bytes(str_word(<BReg as LdStReg>::spec_kind(), rt, rn, imm_bytes)) == <BReg as FpReg>::spec_size() as u32 || !ldst_offset_ok(<BReg as LdStReg>::spec_kind(), imm_bytes),
        ldst_offset_ok(<HReg as LdStReg>::spec_kind(), imm_bytes) ==> moves(str_word(<HReg as LdStReg>::spec_kind(), rt, rn, imm_bytes), true, 1) && moves(ldr_word(<HReg as LdStReg>::spec_kind(), rt, rn, imm_bytes), true, 1),
        ldst_word_log2_bytes(str_word(<HReg as LdStReg>::spec_kind(), rt, rn, imm_bytes)) == <HReg as FpReg>::spec_size() as u32 || !ldst_offset_ok(<HReg as LdStReg>::spec_kind(), imm_bytes),
        ldst_offset_ok(<SReg as LdStReg>::spec_kind(), imm_bytes) ==> moves(str_word(<SReg as LdStReg>::spec_kind(), rt, rn, imm_bytes), true, 2) && moves(ldr_word(<SReg as LdStReg>::spec_kind(), rt, rn, imm_bytes), true, 2),
        ldst_word_log2_bytes(str_word(<SReg as LdStReg>::spec_kind(), rt, rn, imm_bytes)) == <SReg as FpReg>::spec_size() as u32 || !ldst_offset_ok(<SReg as LdStReg>::spec_kind(), imm_bytes),
        ldst_offset_ok(<DReg as LdStReg>::spec_kind(), imm_bytes) ==> moves(str_word(<DReg as LdStReg>::spec_kind(), rt, rn, imm_bytes), true, 3) && moves(ldr_word(<DReg as LdStReg>::spec_kind(), rt, rn, imm_bytes), true, 3),
        ldst_word_log2_bytes(str_word(<DReg as LdStReg>::spec_kind(), rt, rn, imm_bytes)) == <DReg as FpReg>::spec_size() as u32 || !ldst_offset_ok(<DReg as LdStReg>::spec_kind(), imm_bytes),
        ldst_offset_ok(<QReg as LdStReg>::spec_kind(), imm_bytes) ==> moves(str_word(<QReg as LdStReg>::spec_kind(), rt, rn, imm_bytes), true, 4) && moves(ldr_word(<QReg as LdStReg>::spec_kind(), rt, rn, imm_bytes), true, 4),
        ldst_word_log2_bytes(str_word(<QReg as LdStReg>::spec_kind(), rt, rn, imm_bytes)) == <QReg as FpReg>::spec_size() as u32 || !ldst_offset_ok(<QReg as LdStReg>::spec_kind(), imm_bytes),
{
    if ldst_offset_ok(LdStKind::W, imm_bytes) {
        lemma_ldst_class_bits(0xb9000000u32, rt, rn, imm_bytes / 4);
        lemma_ldst_class_bits(0xb9400000u32, rt, rn, imm_bytes / 4);
        assert(moves(0xb9000000u32, false, 2) && moves(0xb9400000u32, false, 2)) by (bit_vector);
    }
    if ldst_offset_ok(LdStKind::X, imm_bytes) {
        lemma_ldst_class_bits(0xf9000000u32, rt, rn, imm_bytes / 8);
        lemma_ldst_class_bits(0xf9400000u32, rt, rn, imm_bytes / 8);
        assert(moves(0xf9000000u32, false, 3) && moves(0xf9400000u32, false, 3)) by (bit_vector);
    }
    if ldst_offset_ok(LdStKind::B, imm_bytes) {
        lemma_ldst_class_bits(0x3d000000u32, rt, rn, imm_bytes);
        lemma_ldst_class_bits(0x3d400000u32, rt, rn, imm_bytes);
        assert(moves(0x3d000000u32, true, 0) && moves(0x3d400000u32, true, 0)) by (bit_vector);
    }
    if ldst_offset_ok(LdStKind::H, imm_bytes) {
        lemma_ldst_class_bits(0x7d000000u32, rt, rn, imm_bytes / 2);
        lemma_ldst_class_bits(0x7d400000u32, rt, rn, imm_bytes / 2);
        assert(moves(0x7d000000u32, true, 1) && moves(0x7d400000u32, true, 1)) by (bit_vector);
    }
    if ldst_offset_ok(LdStKind::S, imm_bytes) {
        lemma_ldst_class_bits(0xbd000000u32, rt, rn, imm_bytes / 4);
        lemma_ldst_class_bits(0xbd400000u32, rt, rn, imm_bytes / 4);
        assert(moves(0xbd000000u32, true, 2) && moves(0xbd400000u32, true, 2)) by (bit_vector);
    }
    if ldst_offset_ok(LdStKind::D, imm_bytes) {
        lemma_ldst_class_bits(0xfd000000u32, rt, rn, imm_bytes / 8);
        lemma_ldst_class_bits(0xfd400000u32, rt, rn, imm_bytes / 8);
        assert(moves(0xfd000000u32, true, 3) && moves(0xfd400000u32, true, 3)) by (bit_vector);
    }
    if ldst_offset_ok(LdStKind::Q, imm_bytes) {
        lemma_ldst_class_bits(0x3d800000u32, rt, rn, imm_bytes / 16);
        lemma_ldst_class_bits(0x3dc00000u32, rt, rn, imm_bytes / 16);
        assert(moves(0x3d800000u32, true, 4) && moves(0x3dc00000u32, true, 4)) by (bit_vector);
    }
}

/// The `MSR` word writing `Xt` to `sysreg`.
pub open spec fn msr_word(sysreg: SystemReg, rt: u8) -> u32 {
    match sysreg {
        SystemReg::FPCR => inst::msr_fpcr(rt),
        SystemReg::FPSR => inst::msr_fpsr(rt),
        SystemReg::NZCV => inst::msr_nzcv(rt),
    }
}

/// The `MRS` word reading `sysreg` into `Xt`.
pub open spec fn mrs_word(sysreg: SystemReg, rt: u8) -> u32 {
    match sysreg {
        SystemReg::FPCR => inst::mrs_fpcr(rt),
        SystemReg::FPSR => inst::mrs_fpsr(rt),
        SystemReg::NZCV => inst::mrs_nzcv(rt),
    }
}

/// `MRS`/`MSR` of a named system register address that register by its
/// architectural `op0, op1, CRn, CRm, op2`, read into (`MRS`) or write from
/// (`MSR`) `Xt`.
pub proof fn lemma_system_register_moves(rt: u8)
    requires
        rt < 32,
    ensures
        (mrs_word(SystemReg::FPCR, rt) >> 5u32) & 0xffff == inst::sysreg_number(3, 3, 4, 4, 0),
        (msr_word(SystemReg::FPCR, rt) >> 5u32) & 0xffff == inst::sysreg_number(3, 3, 4, 4, 0),
        (mrs_word(SystemReg::FPSR, rt) >> 5u32) & 0xffff == inst::sysreg_number(3, 3, 4, 4, 1),
        (msr_word(SystemReg::FPSR, rt) >> 5u32) & 0xffff == inst::sysreg_number(3, 3, 4, 4, 1),
        (mrs_word(SystemReg::NZCV, rt) >> 5u32) & 0xffff == inst::sysreg_number(3, 3, 4, 2, 0),
        (msr_word(SystemReg::NZCV, rt) >> 5u32) & 0xffff == inst::sysreg_number(3, 3, 4, 2, 0),
        forall|sr: SystemReg|
            (#[trigger] mrs_word(sr, rt) >> 21u32) & 1 == 1 && mrs_word(sr, rt) & 0x1f == rt as u32,
        forall|sr: SystemReg|
            (#[trigger] msr_word(sr, rt) >> 21u32) & 1 == 0 && msr_word(sr, rt) & 0x1f == rt as u32,
{
    inst::lemma_system_register_words(rt);
}

/// The slot index of the instruction at byte offset `p`.
pub open spec fn slot(p: usize) -> int {
    (p / 4) as int
}

/// A byte offset the offset field `kind` can hold.
pub open spec fn fits(kind: FixupKind, offset: int) -> bool {
    match kind {
        FixupKind::Branch26 => inst::fits_imm26(offset),
        FixupKind::Imm19At5 => inst::fits_imm19(offset),
    }
}

/// `word` with its offset field `kind` set to `offset` bytes.
pub open spec fn resolve(kind: FixupKind, word: u32, offset: int) -> u32 {
    match kind {
        FixupKind::Branch26 => inst::with_imm26(word, offset as i32),
        FixupKind::Imm19At5 => inst::with_imm19(word, offset as i32),
    }
}

/// The byte offset the offset field `kind` of `word` holds.
pub open spec fn branch_offset(kind: FixupKind, word: u32) -> int {
    match kind {
        FixupKind::Branch26 => inst::imm26_offset(word),
        FixupKind::Imm19At5 => inst::imm19_offset(word),
    }
}

/// A branch emitted as `word` (offset field `kind` still zero) toward
/// `l0`, taking the buffer from `c0` to `c1` and the label to `l1`: to a
/// bound label the word goes out with the distance filled in, or nothing
/// is written if the distance does not fit; to an unbound label it goes out
/// as is and, once written, waits as a pending branch.
pub open spec fn branch_emitted(
    c0: BlockOfCode,
    c1: BlockOfCode,
    l0: Label,
    l1: Label,
    word: u32,
    kind: FixupKind,
    ok: bool,
) -> bool {
    let pc = 4 * c0.len();
    match l0.target() {
        Some(t) => {
            &&& l1.target() == l0.target()
            &&& l1.pending() == l0.pending()
            &&& if fits(kind, t - pc) {
                emits(c0, c1, resolve(kind, word, t - pc), ok)
            } else {
                !ok && same(c0, c1)
            }
        },
        None => {
            &&& emits(c0, c1, word, ok)
            &&& l1.target() is None
            &&& l1.pending() == if ok {
                l0.pending().push((pc as usize, kind))
            } else {
                l0.pending()
            }
        },
    }
}

/// The error a branch reports when its label is bound beyond the reach of
/// its offset field.
pub open spec fn range_message() -> Seq<char> {
    "ARM64 branch target out of range"@
}

/// The error binding a label reports when a pending branch cannot be
/// filled in.
pub open spec fn fixup_message() -> Seq<char> {
    "ARM64 label fixup out of range"@
}

/// The error a branch toward `l0` emitted into `c0` with offset field
/// `kind` reports: out of range when the label is bound beyond the field's
/// reach, else a full buffer.
pub open spec fn branch_error(c0: BlockOfCode, l0: Label, kind: FixupKind) -> Seq<char> {
    match l0.target() {
        Some(t) => if fits(kind, t - 4 * c0.len()) {
            full_message()
        } else {
            range_message()
        },
        None => full_message(),
    }
}

/// A pending branch that binding a label at the cursor of a buffer of
/// `len` instructions can fill in: it sits in an emitted slot and the
/// distance fits its field.
pub open spec fn fixup_ok(fixup: (usize, FixupKind), len: nat) -> bool {
    &&& fixup.0 % 4 == 0
    &&& fixup.0 / 4 < len
    &&& fits(fixup.1, 4 * len - fixup.0)
}

/// The slots `mem` after filling in the pending branches `fx`, in order,
/// with their distances to `target`.
pub open spec fn apply_fixups(mem: Seq<u32>, fx: Seq<(usize, FixupKind)>, target: int) -> Seq<u32>
    decreases fx.len(),
{
    if fx.len() == 0 {
        mem
    } else {
        let m = apply_fixups(mem, fx.drop_last(), target);
        let (p, k) = fx.last();
        m.update(slot(p), resolve(k, m[slot(p)], target - p))
    }
}

/// Filling in pending branches that sit in slots of `mem` keeps its
/// length.
pub proof fn lemma_apply_fixups_len(mem: Seq<u32>, fx: Seq<(usize, FixupKind)>, target: int)
    requires
        forall|j: int| 0 <= j < fx.len() ==> slot(#[trigger] fx[j].0) < mem.len(),
    ensures
        apply_fixups(mem, fx, target).len() == mem.len(),
    decreases fx.len(),
{
    if fx.len() > 0 {
        lemma_apply_fixups_len(mem, fx.drop_last(), target);
    }
}

/// Filling in pending branches that sit in slots of `mem` leaves every
/// other slot alone.
pub proof fn lemma_apply_fixups_frame(mem: Seq<u32>, fx: Seq<(usize, FixupKind)>, target: int, s: int)
    requires
        forall|j: int| 0 <= j < fx.len() ==> slot(#[trigger] fx[j].0) < mem.len(),
        forall|j: int| 0 <= j < fx.len() ==> slot(#[trigger] fx[j].0) != s,
        0 <= s < mem.len(),
    ensures
        apply_fixups(mem, fx, target)[s] == mem[s],
    decreases fx.len(),
{
    if fx.len() > 0 {
        lemma_apply_fixups_frame(mem, fx.drop_last(), target, s);
        lemma_apply_fixups_len(mem, fx.drop_last(), target);
    }
}

/// Once a label is bound, every branch that waited for it branches to it:
/// when the pending branches sit in distinct slots, each slot ends up
/// holding its old word with the offset field set to the distance from the
/// branch to the label, and the other bits unchanged.
pub proof fn lemma_bound_label_resolves_branches(
    mem: Seq<u32>,
    fx: Seq<(usize, FixupKind)>,
    len: nat,
    i: int,
)
    requires
        0 <= i < fx.len(),
        len <= mem.len(),
        forall|j: int| 0 <= j < fx.len() ==> fixup_ok(#[trigger] fx[j], len),
        forall|j: int, k: int| 0 <= j < k < fx.len() ==> fx[j].0 != fx[k].0,
    ensures
        ({
            let (p, kind) = fx[i];
            let w = apply_fixups(mem, fx, 4 * len as int)[slot(p)];
            &&& w == resolve(kind, mem[slot(p)], 4 * len - p)
            &&& branch_offset(kind, w) == 4 * len - p
        }),
    decreases fx.len(),
{
    let (p, kind) = fx[i];
    let t = 4 * len as int;
    let init = fx.drop_last();
    assert(fixup_ok(fx[i], len));
    assert forall|j: int| 0 <= j < init.len() implies slot(#[trigger] init[j].0) < mem.len() by {
        assert(fixup_ok(fx[j], len));
    }
    lemma_apply_fixups_len(mem, init, t);
    if i == fx.len() - 1 {
        assert forall|j: int| 0 <= j < init.len() implies slot(#[trigger] init[j].0) != slot(p) by {
            assert(fixup_ok(fx[j], len));
        }
        lemma_apply_fixups_frame(mem, init, t, slot(p));
    } else {
        assert forall|j: int| 0 <= j < init.len() implies fixup_ok(#[trigger] init[j], len) by {
            assert(fixup_ok(fx[j], len));
        }
        lemma_bound_label_resolves_branches(mem, init, len, i);
        assert(fixup_ok(fx[fx.len() - 1], len));
        assert(slot(fx.last().0) != slot(p));
    }
    match kind {
        FixupKind::Branch26 => inst::lemma_with_imm26(mem[slot(p)], (t - p) as i32),
        FixupKind::Imm19At5 => inst::lemma_with_imm19(mem[slot(p)], (t - p) as i32),
    }
}

/// Bits `16 * k` up to `16 * k + 15` of `imm`.
pub open spec fn chunk(imm: u64, k: u64) -> u16 {
    ((imm >> (16 * k)) & 0xffff) as u16
}

/// The `MOVZ`/`MOVK` sequence `MOV(Rd, imm)` emits: `MOVZ` of the low
/// half-word, then a `MOVK` for every non-zero higher half-word (all three
/// for `X`, the second for `W`).
pub open spec fn mov_imm_words(sf: bool, rd: u8, imm: u64) -> Seq<u32> {
    let k1 = if chunk(imm, 1) != 0 {
        seq![if sf { inst::movk_x(rd, chunk(imm, 1), 16) } else { inst::movk_w(rd, chunk(imm, 1), 16) }]
    } else {
        Seq::<u32>::empty()
    };
    if sf {
        let k2 = if chunk(imm, 2) != 0 {
            seq![inst::movk_x(rd, chunk(imm, 2), 32)]
        } else {
            Seq::<u32>::empty()
        };
        let k3 = if chunk(imm, 3) != 0 {
            seq![inst::movk_x(rd, chunk(imm, 3), 48)]
        } else {
            Seq::<u32>::empty()
        };
        seq![inst::movz_x(rd, chunk(imm, 0), 0)] + k1 + k2 + k3
    } else {
        seq![inst::movz_w(rd, chunk(imm, 0), 0)] + k1
    }
}

/// The value a `MOVZ`/`MOVK` word (32- or 64-bit) leaves in its destination
/// register when the register held `old`: `MOVZ` writes its half-word and
/// clears the rest, `MOVK` replaces one half-word and keeps the rest; a
/// 32-bit form clears the upper half.
pub open spec fn move_wide_result(word: u32, old: u64) -> u64 {
    let sh = (((word >> 21u32) & 3) * 16) as u64;
    let imm = ((word >> 5u32) & 0xffff) as u64;
    let v = if (word >> 29u32) & 3 == 2 {
        imm << sh
    } else {
        (old & !(0xffffu64 << sh)) | (imm << sh)
    };
    if word >> 31u32 == 0 {
        v & 0xffff_ffff
    } else {
        v
    }
}

/// The register value after the `MOVZ`/`MOVK` words `ws` run in order from
/// `init`.
pub open spec fn run_move_wide(ws: Seq<u32>, init: u64) -> u64
    decreases ws.len(),
{
    if ws.len() == 0 {
        init
    } else {
        move_wide_result(ws.last(), run_move_wide(ws.drop_last(), init))
    }
}

/// `v` with the half-word at bit `sh` replaced by `c`.
pub open spec fn with_half_word(v: u64, c: u64, sh: u64) -> u64 {
    (v & !(0xffffu64 << sh)) | (c << sh)
}

/// What each `MOVZ`/`MOVK` form does to its destination register.
proof fn lemma_move_wide_forms(rd: u8, c: u16, v: u64)
    requires
        rd < 32,
    ensures
        move_wide_result(inst::movz_x(rd, c, 0), v) == c as u64,
        move_wide_result(inst::movz_w(rd, c, 0), v) == c as u64,
        move_wide_result(inst::movk_x(rd, c, 16), v) == with_half_word(v, c as u64, 16),
        move_wide_result(inst::movk_x(rd, c, 32), v) == with_half_word(v, c as u64, 32),
        move_wide_result(inst::movk_x(rd, c, 48), v) == with_half_word(v, c as u64, 48),
        move_wide_result(inst::movk_w(rd, c, 16), v) == with_half_word(v, c as u64, 16) & 0xffff_ffff,
        inst::movz_x(rd, c, 0) & 0x1f == rd,
        inst::movz_w(rd, c, 0) & 0x1f == rd,
        inst::movk_x(rd, c, 16) & 0x1f == rd,
        inst::movk_x(rd, c, 32) & 0x1f == rd,
        inst::movk_x(rd, c, 48) & 0x1f == rd,
        inst::movk_w(rd, c, 16) & 0x1f == rd,
{
    let r = rd as u32;
    let cc = c as u32;
    let c64 = c as u64;
    assert(cc == c64);
    assert(inst::movz_x(rd, c, 0) == 0xd280_0000u32 | (0u32 << 21u32) | (cc << 5u32) | r);
    assert(inst::movz_w(rd, c, 0) == 0x5280_0000u32 | (0u32 << 21u32) | (cc << 5u32) | r);
    assert(inst::movk_x(rd, c, 16) == 0xf280_0000u32 | (1u32 << 21u32) | (cc << 5u32) | r);
    assert(inst::movk_x(rd, c, 32) == 0xf280_0000u32 | (2u32 << 21u32) | (cc << 5u32) | r);
    assert(inst::movk_x(rd, c, 48) == 0xf280_0000u32 | (3u32 << 21u32) | (cc << 5u32) | r);
    assert(inst::movk_w(rd, c, 16) == 0x7280_0000u32 | (1u32 << 21u32) | (cc << 5u32) | r);
    assert(move_wide_result(0xd280_0000u32 | (0u32 << 21u32) | (cc << 5u32) | r, v) == c64
        && move_wide_result(0x5280_0000u32 | (0u32 << 21u32) | (cc << 5u32) | r, v) == c64
        && move_wide_result(0xf280_0000u32 | (1u32 << 21u32) | (cc << 5u32) | r, v) == with_half_word(v, c64, 16)
        && move_wide_result(0xf280_0000u32 | (2u32 << 21u32) | (cc << 5u32) | r, v) == with_half_word(v, c64, 32)
        && move_wide_result(0xf280_0000u32 | (3u32 << 21u32) | (cc << 5u32) | r, v) == with_half_word(v, c64, 48)
        && move_wide_result(0x7280_0000u32 | (1u32 << 21u32) | (cc << 5u32) | r, v) == with_half_word(v, c64, 16) & 0xffff_ffff
        && (0xd280_0000u32 | (0u32 << 21u32) | (cc << 5u32) | r) & 0x1f == r
        && (0x5280_0000u32 | (0u32 << 21u32) | (cc << 5u32) | r) & 0x1f == r
        && (0xf280_0000u32 | (1u32 << 21u32) | (cc << 5u32) | r) & 0x1f == r
        && (0xf280_0000u32 | (2u32 << 21u32) | (cc << 5u32) | r) & 0x1f == r
        && (0xf280_0000u32 | (3u32 << 21u32) | (cc << 5u32) | r) & 0x1f == r
        && (0x7280_0000u32 | (1u32 << 21u32) | (cc << 5u32) | r) & 0x1f == r) by (bit_vector)
        requires
            r < 32,
            cc < 0x10000,
            cc == c64,
    ;
}

/// Running `ws` followed by at most one more word.
proof fn lemma_run_move_wide_step(ws: Seq<u32>, k: Seq<u32>, init: u64)
    requires
        k.len() <= 1,
    ensures
        run_move_wide(ws + k, init) == if k.len() == 0 {
            run_move_wide(ws, init)
        } else {
            move_wide_result(k[0], run_move_wide(ws, init))
        },
{
    if k.len() == 0 {
        assert(ws + k =~= ws);
    } else {
        assert((ws + k).drop_last() =~= ws);
    }
}

/// Running the words of `MOV(Rd, imm)` leaves `imm` in an `X` register and
/// its low 32 bits in a `W` register, whatever the register held before;
/// every word writes `Rd`.
pub proof fn lemma_mov_imm_materializes(sf: bool, rd: u8, imm: u64, init: u64)
    requires
        rd < 32,
    ensures
        run_move_wide(mov_imm_words(sf, rd, imm), init) == if sf {
            imm
        } else {
            imm & 0xffff_ffff
        },
        forall|i: int|
            0 <= i < mov_imm_words(sf, rd, imm).len() ==> #[trigger] mov_imm_words(sf, rd, imm)[i]
                & 0x1f == rd,
{
    let h0 = chunk(imm, 0);
    let h1 = chunk(imm, 1);
    let h2 = chunk(imm, 2);
    let h3 = chunk(imm, 3);
    let c0 = h0 as u64;
    let c1 = h1 as u64;
    let c2 = h2 as u64;
    let c3 = h3 as u64;
    assert(c0 == imm & 0xffff && c1 == (imm >> 16u64) & 0xffff && c2 == (imm >> 32u64) & 0xffff
        && c3 == (imm >> 48u64) & 0xffff) by (bit_vector)
        requires
            c0 == ((imm >> (16 * 0u64)) & 0xffff) as u16 as u64,
            c1 == ((imm >> (16 * 1u64)) & 0xffff) as u16 as u64,
            c2 == ((imm >> (16 * 2u64)) & 0xffff) as u16 as u64,
            c3 == ((imm >> (16 * 3u64)) & 0xffff) as u16 as u64,
    ;
    let x1 = with_half_word(c0, c1, 16);
    let x2 = with_half_word(x1, c2, 32);
    let x3 = with_half_word(x2, c3, 48);
    assert({
        &&& with_half_word(c0, 0, 16) == c0
        &&& with_half_word(x1, 0, 32) == x1
        &&& with_half_word(x2, 0, 48) == x2
        &&& x3 == imm
        &&& x1 & 0xffff_ffff == imm & 0xffff_ffff
        &&& c0 & 0xffff_ffff == c0
    }) by (bit_vector)
        requires
            c0 == imm & 0xffff,
            c1 == (imm >> 16u64) & 0xffff,
            c2 == (imm >> 32u64) & 0xffff,
            c3 == (imm >> 48u64) & 0xffff,
            x1 == with_half_word(c0, c1, 16),
            x2 == with_half_word(x1, c2, 32),
            x3 == with_half_word(x2, c3, 48),
    ;
    lemma_move_wide_forms(rd, h0, init);
    lemma_move_wide_forms(rd, h1, c0);
    lemma_move_wide_forms(rd, h2, x1);
    lemma_move_wide_forms(rd, h3, x2);
    let mz = if sf { inst::movz_x(rd, h0, 0) } else { inst::movz_w(rd, h0, 0) };
    let s0 = seq![mz];
    assert(s0.drop_last() =~= Seq::<u32>::empty());
    assert(run_move_wide(Seq::<u32>::empty(), init) == init);
    assert(run_move_wide(s0, init) == move_wide_result(mz, init));
    assert(run_move_wide(s0, init) == c0);
    let k1 = if h1 != 0 {
        seq![if sf { inst::movk_x(rd, h1, 16) } else { inst::movk_w(rd, h1, 16) }]
    } else {
        Seq::<u32>::empty()
    };
    lemma_run_move_wide_step(s0, k1, init);
    if sf {
        let k2 = if h2 != 0 {
            seq![inst::movk_x(rd, h2, 32)]
        } else {
            Seq::<u32>::empty()
        };
        let k3 = if h3 != 0 {
            seq![inst::movk_x(rd, h3, 48)]
        } else {
            Seq::<u32>::empty()
        };
        assert(run_move_wide(s0 + k1, init) == x1);
        lemma_run_move_wide_step(s0 + k1, k2, init);
        assert(run_move_wide(s0 + k1 + k2, init) == x2);
        lemma_run_move_wide_step(s0 + k1 + k2, k3, init);
        assert(run_move_wide(s0 + k1 + k2 + k3, init) == x3);
        assert(mov_imm_words(sf, rd, imm) == s0 + k1 + k2 + k3);
    } else {
        assert(run_move_wide(s0 + k1, init) == x1 & 0xffff_ffff || run_move_wide(s0 + k1, init) == c0);
        assert(mov_imm_words(sf, rd, imm) == s0 + k1);
    }
}

/// The `LSL #12` flag of an arithmetic immediate shifted by `shift`, which
/// is 0 or 12.
pub(crate) fn arith_imm_shift12(shift: u8) -> (r: bool)
    requires
        shift == 0 || shift == 12,
    ensures
        r == (shift == 12),
{
    match shift {
        0 => false,
        _ => true,
    }
}

/// The byte offset from `from` to `to` when it is a multiple of 4 in
/// `[-limit, limit)`.
fn offset_between(from: usize, to: usize, limit: usize) -> (r: Option<i32>)
    requires
        limit <= 0x800_0000,
    ensures
        r is Some <==> ((to - from) % 4 == 0 && -limit <= to - from < limit),
        r is Some ==> r->0 == to - from,
{
    if to >= from {
        let d = to - from;
        if d < limit && d % 4 == 0 {
            Some(d as i32)
        } else {
            None
        }
    } else {
        let d = from - to;
        if d <= limit && d % 4 == 0 {
            Some(-(d as i32))
        } else {
            None
        }
    }
}

impl<'a> CodeGenerator<'a> {
    /// A generator appending to `code`.
    pub fn new(code: &'a mut BlockOfCode) -> (g: Self)
        ensures
            *g.code == *old(code),
            *final(code) == *final(g.code),
    {
        CodeGenerator { code }
    }

    /// Bytes emitted so far into the buffer.
    pub fn code_size(&self) -> (r: usize)
        ensures
            r == 4 * old(self.code).len(),
    {
        self.code.code_size()
    }

    /// Appends `word`.
    fn emit(&mut self, word: u32) -> (r: Result<(), String>)
        ensures
            emits(*old(self).code, *final(self).code, word, r is Ok),
            r is Err ==> r->Err_0@ == full_message(),
            *final(final(self).code) == *final(old(self).code),
    {
        match self.code.write_u32(word) {
            Ok(_) => Ok(()),
            Err(e) => Err(e),
        }
    }

    /// Emits the branch `word`, whose offset field `kind` is zero, toward
    /// `label`.
    fn branch_to(&mut self, label: &mut Label, word: u32, kind: FixupKind) -> (r: Result<
        (),
        String,
    >)
        ensures
            branch_emitted(*old(self).code, *final(self).code, *old(label), *final(label), word, kind, r is Ok),
            r is Err ==> r->Err_0@ == branch_error(*old(self).code, *old(label), kind),
            *final(final(self).code) == *final(old(self).code),
    {
        let pc = self.code.code_size();
        match label.offset() {
            Some(t) => {
                let limit: usize = match kind {
                    FixupKind::Branch26 => 0x800_0000,
                    FixupKind::Imm19At5 => 0x10_0000,
                };
                match offset_between(pc, t, limit) {
                    Some(off) => {
                        let w = match kind {
                            FixupKind::Branch26 => inst::with_imm26(word, off),
                            FixupKind::Imm19At5 => inst::with_imm19(word, off),
                        };
                        self.emit(w)
                    },
                    None => Err(String::from_str("ARM64 branch target out of range")),
                }
            },
            None => {
                let r = self.emit(word);
                match r {
                    Ok(()) => {
                        label.add_fixup(pc, kind);
                    },
                    Err(_) => {},
                }
                r
            },
        }
    }

    /// Binds `label` here, at the cursor, and fills in every branch that
    /// waits for it. Fails, changing nothing, when a pending branch is not
    /// in an emitted slot of this buffer or the distance does not fit its
    /// field.
    pub fn l(&mut self, label: &mut Label) -> (r: Result<(), String>)
        requires
            old(label).target() is None,
        ensures
            r is Ok <==> (forall|i: int|
                0 <= i < old(label).pending().len() ==> fixup_ok(
                    #[trigger] old(label).pending()[i],
                    old(self).code.len(),
                )),
            r is Ok ==> {
                &&& final(label).target() == Some((4 * old(self).code.len()) as usize)
                &&& final(label).pending() == Seq::<(usize, FixupKind)>::empty()
                &&& final(self).code.mem() == apply_fixups(
                    old(self).code.mem(),
                    old(label).pending(),
                    4 * old(self).code.len() as int,
                )
                &&& final(self).code.len() == old(self).code.len()
                &&& final(self).code.base() == old(self).code.base()
            },
            r is Err ==> {
                &&& r->Err_0@ == fixup_message()
                &&& same(*old(self).code, *final(self).code)
                &&& final(label).target() == old(label).target()
                &&& final(label).pending() == old(label).pending()
            },
            *final(final(self).code) == *final(old(self).code),
    {
        let pc = self.code.code_size();
        let n = label.fixup_count();
        let ghost len = self.code.len();
        let ghost fx = label.pending();
        let mut i: usize = 0;
        while i < n
            invariant
                i <= n,
                n == fx.len(),
                fx == label.pending(),
                pc == 4 * len,
                len == self.code.len(),
                forall|j: int| 0 <= j < i ==> fixup_ok(#[trigger] fx[j], len),
            decreases n - i,
        {
            let (p, k) = label.fixup(i);
            let limit: usize = match k {
                FixupKind::Branch26 => 0x800_0000,
                FixupKind::Imm19At5 => 0x10_0000,
            };
            if !(p % 4 == 0 && p < pc && pc - p < limit) {
                assert(!fixup_ok(fx[i as int], len));
                return Err(String::from_str("ARM64 label fixup out of range"));
            }
            i = i + 1;
        }
        let fixups = label.bind(pc);
        let ghost mem0 = self.code.mem();
        let mut j: usize = 0;
        while j < n
            invariant
                j <= n,
                n == fx.len(),
                fx == fixups@,
                pc == 4 * len,
                len == self.code.len(),
                forall|i: int| 0 <= i < n ==> fixup_ok(#[trigger] fx[i], len),
                self.code.mem() == apply_fixups(mem0, fx.take(j as int), pc as int),
                len <= mem0.len(),
                self.code.base() == old(self).code.base(),
                mem0 == old(self).code.mem(),
                *final(self.code) == *final(old(self).code),
            decreases n - j,
        {
            let (p, k) = fixups[j];
            assert(fixup_ok(fx[j as int], len));
            proof {
                assert forall|i: int| 0 <= i < fx.take(j as int).len() implies slot(
                    #[trigger] fx.take(j as int)[i].0,
                ) < mem0.len() by {
                    assert(fixup_ok(fx[i], len));
                }
                lemma_apply_fixups_len(mem0, fx.take(j as int), pc as int);
            }
            let w = self.code.word_at(p);
            let w2 = match k {
                FixupKind::Branch26 => inst::with_imm26(w, (pc - p) as i32),
                FixupKind::Imm19At5 => inst::with_imm19(w, (pc - p) as i32),
            };
            self.code.set_word(p / 4, w2);
            assert(fx.take(j + 1).drop_last() =~= fx.take(j as int));
            j = j + 1;
        }
        assert(fx.take(n as int) =~= fx);
        Ok(())
    }

    /// Appends `ws` in order, stopping at the first that does not fit.
    fn emit_all(&mut self, ws: &Vec<u32>) -> (r: Result<(), String>)
        ensures
            writes(*old(self).code, *final(self).code, ws@, r is Ok),
            r is Err ==> r->Err_0@ == full_message(),
            *final(final(self).code) == *final(old(self).code),
    {
        let ghost c0 = *self.code;
        let _ = self.code.code_size();
        proof {
            lemma_writes_empty(c0);
            assert(ws@.take(0) =~= Seq::<u32>::empty());
        }
        let mut i: usize = 0;
        while i < ws.len()
            invariant
                i <= ws.len(),
                c0 == *old(self).code,
                c0.len() <= c0.capacity(),
                writes(c0, *self.code, ws@.take(i as int), true),
                *final(self.code) == *final(old(self).code),
            decreases ws.len() - i,
        {
            let ghost cur = *self.code;
            let r = self.emit(ws[i]);
            proof {
                lemma_writes_concat(c0, cur, *self.code, ws@.take(i as int), seq![ws@[i as int]], true, r is Ok);
                assert(ws@.take(i as int) + seq![ws@[i as int]] =~= ws@.take(i + 1));
            }
            match r {
                Ok(()) => {},
                Err(e) => {
                    proof {
                        lemma_writes_prefix_fails(c0, *self.code, ws@, i + 1);
                    }
                    return Err(e);
                },
            }
            i = i + 1;
        }
        assert(ws@.take(ws.len() as int) =~= ws@);
        Ok(())
    }

    /// `MOV(Rd, imm)`: `MOVZ` of the low half-word, then a `MOVK` for every
    /// non-zero higher half-word (see `lemma_mov_imm_materializes`). A `W`
    /// destination takes the low 32 bits of `imm`.
    pub fn mov_imm<R: GpReg>(&mut self, rd: R, imm: u64) -> (r: Result<(), String>)
        ensures
            writes(*old(self).code, *final(self).code, mov_imm_words(R::sf(), rd.num(), imm), r is Ok),
            r is Err ==> r->Err_0@ == full_message(),
            *final(final(self).code) == *final(old(self).code),
    {
        let n = rd.index();
        let h0 = (imm & 0xffff) as u16;
        let h1 = ((imm >> 16u64) & 0xffff) as u16;
        let h2 = ((imm >> 32u64) & 0xffff) as u16;
        let h3 = ((imm >> 48u64) & 0xffff) as u16;
        assert(h0 == chunk(imm, 0) && h1 == chunk(imm, 1) && h2 == chunk(imm, 2) && h3 == chunk(imm, 3)) by {
            assert(imm >> (16 * 0u64) == imm >> 0u64);
            assert(imm >> 0u64 == imm) by (bit_vector);
        }
        let mut ws: Vec<u32> = Vec::new();
        if R::sf() {
            ws.push(inst::movz_x(n, h0, 0));
            if h1 != 0 {
                ws.push(inst::movk_x(n, h1, 16));
            }
            if h2 != 0 {
                ws.push(inst::movk_x(n, h2, 32));
            }
            if h3 != 0 {
                ws.push(inst::movk_x(n, h3, 48));
            }
        } else {
            ws.push(inst::movz_w(n, h0, 0));
            if h1 != 0 {
                ws.push(inst::movk_w(n, h1, 16));
            }
        }
        assert(ws@ =~= mov_imm_words(R::sf(), rd.num(), imm));
        self.emit_all(&ws)
    }

    /// `AND(Rd, Rn, #imm)` with a logical immediate; a `W` form takes the low
    /// 32 bits of `imm`.
    pub fn and_imm<R: GpReg>(&mut self, rd: R, rn: R, imm: u64) -> (r: Result<(), String>)
        requires
            if R::sf() {
                inst::bit_mask_encodable(imm, 64)
            } else {
                inst::bit_mask_encodable(imm as u32 as u64, 32)
            },
        ensures
            emits(*old(self).code, *final(self).code, if R::sf() { inst::and_x_imm(rd.num(), rn.num(), imm) } else { inst::and_w_imm(rd.num(), rn.num(), imm as u32) }, r is Ok),
            r is Err ==> r->Err_0@ == full_message(),
            *final(final(self).code) == *final(old(self).code),
    {
        self.emit(
            if R::sf() {
                inst::and_x_imm(rd.index(), rn.index(), imm)
            } else {
                inst::and_w_imm(rd.index(), rn.index(), imm as u32)
            },
        )
    }

    /// `TST(Rn, #imm)` with a logical immediate; a `W` form takes the low 32
    /// bits of `imm`.
    pub fn tst_imm<R: GpReg>(&mut self, rn: R, imm: u64) -> (r: Result<(), String>)
        requires
            if R::sf() {
                inst::bit_mask_encodable(imm, 64)
            } else {
                inst::bit_mask_encodable(imm as u32 as u64, 32)
            },
        ensures
            emits(*old(self).code, *final(self).code, if R::sf() { inst::tst_x_imm(rn.num(), imm) } else { inst::tst_w_imm(rn.num(), imm as u32) }, r is Ok),
            r is Err ==> r->Err_0@ == full_message(),
            *final(final(self).code) == *final(old(self).code),
    {
        self.emit(
            if R::sf() {
                inst::tst_x_imm(rn.index(), imm)
            } else {
                inst::tst_w_imm(rn.index(), imm as u32)
            },
        )
    }

    /// `B(label)`.
    pub fn b(&mut self, label: &mut Label) -> (r: Result<(), String>)
        ensures
            branch_emitted(*old(self).code, *final(self).code, *old(label), *final(label), inst::b(0), FixupKind::Branch26, r is Ok),
            r is Err ==> r->Err_0@ == branch_error(*old(self).code, *old(label), FixupKind::Branch26),
            *final(final(self).code) == *final(old(self).code),
    {
        self.branch_to(label, inst::b(0), FixupKind::Branch26)
    }

    /// `B(cond, label)`.
    pub fn b_cond(&mut self, cond: Cond, label: &mut Label) -> (r: Result<(), String>)
        ensures
            branch_emitted(*old(self).code, *final(self).code, *old(label), *final(label), inst::b_cond(cond, 0), FixupKind::Imm19At5, r is Ok),
            r is Err ==> r->Err_0@ == branch_error(*old(self).code, *old(label), FixupKind::Imm19At5),
            *final(final(self).code) == *final(old(self).code),
    {
        self.branch_to(label, inst::b_cond(cond, 0), FixupKind::Imm19At5)
    }

    /// `CBZ(Rt, label)`.
    pub fn cbz<R: GpReg>(&mut self, rt: R, label: &mut Label) -> (r: Result<(), String>)
        ensures
            branch_emitted(*old(self).code, *final(self).code, *old(label), *final(label), if R::sf() { inst::cbz_x(rt.num(), 0) } else { inst::cbz_w(rt.num(), 0) }, FixupKind::Imm19At5, r is Ok),
            r is Err ==> r->Err_0@ == branch_error(*old(self).code, *old(label), FixupKind::Imm19At5),
            *final(final(self).code) == *final(old(self).code),
    {
        let word = if R::sf() {
            inst::cbz_x(rt.index(), 0)
        } else {
            inst::cbz_w(rt.index(), 0)
        };
        self.branch_to(label, word, FixupKind::Imm19At5)
    }

    /// `CBNZ(Rt, label)`.
    pub fn cbnz<R: GpReg>(&mut self, rt: R, label: &mut Label) -> (r: Result<(), String>)
        ensures
            branch_emitted(*old(self).code, *final(self).code, *old(label), *final(label), if R::sf() { inst::cbnz_x(rt.num(), 0) } else { inst::cbnz_w(rt.num(), 0) }, FixupKind::Imm19At5, r is Ok),
            r is Err ==> r->Err_0@ == branch_error(*old(self).code, *old(label), FixupKind::Imm19At5),
            *final(final(self).code) == *final(old(self).code),
    {
        let word = if R::sf() {
            inst::cbnz_x(rt.index(), 0)
        } else {
            inst::cbnz_w(rt.index(), 0)
        };
        self.branch_to(label, word, FixupKind::Imm19At5)
    }

    /// `TBNZ(Xt, #bit, label)`. A label bound within the ±32 KiB reach of
    /// `TBNZ` gets a single `TBNZ`; any other target gets `TBZ Xt, #bit, +8`
    /// followed by `B label`, so a forward target is always reachable.
    pub fn tbnz(&mut self, rt: XReg, bit: u8, label: &mut Label) -> (r: Result<(), String>)
        requires
            bit < 64,
        ensures
            ({
                let c0 = *old(self).code;
                let c1 = *final(self).code;
                let pc = 4 * c0.len();
                let skip = inst::tbz(rt.num(), bit, 8);
                match old(label).target() {
                    Some(t) => {
                        &&& final(label).target() == old(label).target()
                        &&& final(label).pending() == old(label).pending()
                        &&& if inst::fits_imm14(t - pc) {
                            emits(c0, c1, inst::tbnz(rt.num(), bit, (t - pc) as i32), r is Ok)
                        } else if inst::fits_imm26(t - pc - 4) {
                            writes(c0, c1, seq![skip, inst::b((t - pc - 4) as i32)], r is Ok)
                        } else {
                            !(r is Ok) && same(c0, c1)
                        }
                    },
                    None => {
                        &&& writes(c0, c1, seq![skip, inst::b(0)], r is Ok)
                        &&& final(label).target() is None
                        &&& final(label).pending() == if r is Ok {
                            old(label).pending().push(((pc + 4) as usize, FixupKind::Branch26))
                        } else {
                            old(label).pending()
                        }
                    },
                }
            }),
            r is Err ==> r->Err_0@ == match old(label).target() {
                Some(t) => if inst::fits_imm14(t - 4 * old(self).code.len()) || inst::fits_imm26(
                    t - 4 * old(self).code.len() - 4,
                ) {
                    full_message()
                } else {
                    range_message()
                },
                None => full_message(),
            },
            *final(final(self).code) == *final(old(self).code),
    {
        let pc = self.code.code_size();
        let rn = rt.index();
        match label.offset() {
            Some(t) => {
                match offset_between(pc, t, 0x8000) {
                    Some(off) => {
                        return self.emit(inst::tbnz(rn, bit, off));
                    },
                    None => {},
                }
                let far = if t >= 4 {
                    offset_between(pc, t - 4, 0x800_0000)
                } else if pc <= 0x800_0000 {
                    offset_between(pc + 4, t, 0x800_0000)
                } else {
                    None
                };
                match far {
                    Some(off) => {
                        let ghost c0 = *self.code;
                        let r1 = self.emit(inst::tbz(rn, bit, 8));
                        let ghost c1 = *self.code;
                        let r2 = match r1 {
                            Ok(()) => self.emit(inst::b(off)),
                            Err(e) => Err(e),
                        };
                        proof {
                            assert(seq![inst::tbz(rn, bit, 8)] + seq![inst::b(off)] =~= seq![
                                inst::tbz(rn, bit, 8),
                                inst::b(off),
                            ]);
                            lemma_writes_concat(c0, c1, *self.code, seq![inst::tbz(rn, bit, 8)], seq![inst::b(off)], r1 is Ok, r2 is Ok);
                        }
                        r2
                    },
                    None => Err(String::from_str("ARM64 branch target out of range")),
                }
            },
            None => {
                let ghost c0 = *self.code;
                let r1 = self.emit(inst::tbz(rn, bit, 8));
                let ghost c1 = *self.code;
                let r2 = match r1 {
                    Ok(()) => self.emit(inst::b(0)),
                    Err(e) => Err(e),
                };
                proof {
                    assert(seq![inst::tbz(rn, bit, 8)] + seq![inst::b(0)] =~= seq![
                        inst::tbz(rn, bit, 8),
                        inst::b(0),
                    ]);
                    lemma_writes_concat(c0, c1, *self.code, seq![inst::tbz(rn, bit, 8)], seq![inst::b(0)], r1 is Ok, r2 is Ok);
                }
                match r2 {
                    Ok(()) => {
                        label.add_fixup(pc + 4, FixupKind::Branch26);
                    },
                    Err(_) => {},
                }
                r2
            },
        }
    }

    /// `ADDS(Rd, Rn, Rm)`.
    pub fn adds<R: GpReg>(&mut self, rd: R, rn: R, rm: R) -> (r: Result<(), String>)
        ensures
            emits(*old(self).code, *final(self).code, if R::sf() { inst::adds_x_reg(rd.num(), rn.num(), rm.num()) } else { inst::adds_w_reg(rd.num(), rn.num(), rm.num()) }, r is Ok),
            r is Err ==> r->Err_0@ == full_message(),
            *final(final(self).code) == *final(old(self).code),
    {
        self.emit(if R::sf() { inst::adds_x_reg(rd.index(), rn.index(), rm.index()) } else { inst::adds_w_reg(rd.index(), rn.index(), rm.index()) })
    }

    /// `SUBS(Rd, Rn, Rm)`.
    pub fn subs<R: GpReg>(&mut self, rd: R, rn: R, rm: R) -> (r: Result<(), String>)
        ensures
            emits(*old(self).code, *final(self).code, if R::sf() { inst::subs_x_reg(rd.num(), rn.num(), rm.num()) } else { inst::subs_w_reg(rd.num(), rn.num(), rm.num()) }, r is Ok),
            r is Err ==> r->Err_0@ == full_message(),
            *final(final(self).code) == *final(old(self).code),
    {
        self.emit(if R::sf() { inst::subs_x_reg(rd.index(), rn.index(), rm.index()) } else { inst::subs_w_reg(rd.index(), rn.index(), rm.index()) })
    }

    /// `EOR(Rd, Rn, Rm)`.
    pub fn eor<R: GpReg>(&mut self, rd: R, rn: R, rm: R) -> (r: Result<(), String>)
        ensures
            emits(*old(self).code, *final(self).code, if R::sf() { inst::eor_x_reg(rd.num(), rn.num(), rm.num()) } else { inst::eor_w_reg(rd.num(), rn.num(), rm.num()) }, r is Ok),
            r is Err ==> r->Err_0@ == full_message(),
            *final(final(self).code) == *final(old(self).code),
    {
        self.emit(if R::sf() { inst::eor_x_reg(rd.index(), rn.index(), rm.index()) } else { inst::eor_w_reg(rd.index(), rn.index(), rm.index()) })
    }

    /// `ADD(Rd, Rn, Rm)`.
    pub fn add<R: GpReg>(&mut self, rd: R, rn: R, rm: R) -> (r: Result<(), String>)
        ensures
            emits(*old(self).code, *final(self).code, if R::sf() { inst::add_x_reg(rd.num(), rn.num(), rm.num()) } else { inst::add_w_reg(rd.num(), rn.num(), rm.num()) }, r is Ok),
            r is Err ==> r->Err_0@ == full_message(),
            *final(final(self).code) == *final(old(self).code),
    {
        self.emit(if R::sf() { inst::add_x_reg(rd.index(), rn.index(), rm.index()) } else { inst::add_w_reg(rd.index(), rn.index(), rm.index()) })
    }

    /// `SUB(Rd, Rn, Rm)`.
    pub fn sub<R: GpReg>(&mut self, rd: R, rn: R, rm: R) -> (r: Result<(), String>)
        ensures
            emits(*old(self).code, *final(self).code, if R::sf() { inst::sub_x_reg(rd.num(), rn.num(), rm.num()) } else { inst::sub_w_reg(rd.num(), rn.num(), rm.num()) }, r is Ok),
            r is Err ==> r->Err_0@ == full_message(),
            *final(final(self).code) == *final(old(self).code),
    {
        self.emit(if R::sf() { inst::sub_x_reg(rd.index(), rn.index(), rm.index()) } else { inst::sub_w_reg(rd.index(), rn.index(), rm.index()) })
    }

    /// `AND(Rd, Rn, Rm)`.
    pub fn and<R: GpReg>(&mut self, rd: R, rn: R, rm: R) -> (r: Result<(), String>)
        ensures
            emits(*old(self).code, *final(self).code, if R::sf() { inst::and_x_reg(rd.num(), rn.num(), rm.num()) } else { inst::and_w_reg(rd.num(), rn.num(), rm.num()) }, r is Ok),
            r is Err ==> r->Err_0@ == full_message(),
            *final(final(self).code) == *final(old(self).code),
    {
        self.emit(if R::sf() { inst::and_x_reg(rd.index(), rn.index(), rm.index()) } else { inst::and_w_reg(rd.index(), rn.index(), rm.index()) })
    }

    /// `ORR(Rd, Rn, Rm)`.
    pub fn orr<R: GpReg>(&mut self, rd: R, rn: R, rm: R) -> (r: Result<(), String>)
        ensures
            emits(*old(self).code, *final(self).code, if R::sf() { inst::orr_x(rd.num(), rn.num(), rm.num()) } else { inst::orr_w(rd.num(), rn.num(), rm.num()) }, r is Ok),
            r is Err ==> r->Err_0@ == full_message(),
            *final(final(self).code) == *final(old(self).code),
    {
        self.emit(if R::sf() { inst::orr_x(rd.index(), rn.index(), rm.index()) } else { inst::orr_w(rd.index(), rn.index(), rm.index()) })
    }

    /// `NOP()`.
    pub fn nop(&mut self) -> (r: Result<(), String>)
        ensures
            emits(*old(self).code, *final(self).code, inst::nop(), r is Ok),
            r is Err ==> r->Err_0@ == full_message(),
            *final(final(self).code) == *final(old(self).code),
    {
        self.emit(inst::nop())
    }

    /// `RET()`.
    pub fn ret(&mut self) -> (r: Result<(), String>)
        ensures
            emits(*old(self).code, *final(self).code, inst::ret(), r is Ok),
            r is Err ==> r->Err_0@ == full_message(),
            *final(final(self).code) == *final(old(self).code),
    {
        self.emit(inst::ret())
    }

    /// `BLR(Xn)`.
    pub fn blr(&mut self, rn: XReg) -> (r: Result<(), String>)
        ensures
            emits(*old(self).code, *final(self).code, inst::blr(rn.num()), r is Ok),
            r is Err ==> r->Err_0@ == full_message(),
            *final(final(self).code) == *final(old(self).code),
    {
        self.emit(inst::blr(rn.index()))
    }

    /// `BR(Xn)`.
    pub fn br(&mut self, rn: XReg) -> (r: Result<(), String>)
        ensures
            emits(*old(self).code, *final(self).code, inst::br(rn.num()), r is Ok),
            r is Err ==> r->Err_0@ == full_message(),
            *final(final(self).code) == *final(old(self).code),
    {
        self.emit(inst::br(rn.index()))
    }

    /// `STR(Rt, [Xn|SP, #imm])` for every GP and FP/SIMD register width.
    pub fn str<R: LdStReg, B: BaseReg>(&mut self, rt: R, rn: B, imm_bytes: u32) -> (r: Result<(), String>)
        requires
            ldst_offset_ok(R::kind(), imm_bytes),
        ensures
            emits(*old(self).code, *final(self).code, str_word(R::kind(), rt.num(), rn.num(), imm_bytes), r is Ok),
            r is Err ==> r->Err_0@ == full_message(),
            *final(final(self).code) == *final(old(self).code),
    {
        self.emit(match R::kind() { LdStKind::W => inst::str_w_unsigned(rt.index(), rn.index(), imm_bytes), LdStKind::X => inst::str_x_unsigned(rt.index(), rn.index(), imm_bytes), LdStKind::B => inst::str_b_unsigned(rt.index(), rn.index(), imm_bytes), LdStKind::H => inst::str_h_unsigned(rt.index(), rn.index(), imm_bytes), LdStKind::S => inst::str_s_unsigned(rt.index(), rn.index(), imm_bytes), LdStKind::D => inst::str_d_unsigned(rt.index(), rn.index(), imm_bytes), LdStKind::Q => inst::str_q_unsigned(rt.index(), rn.index(), imm_bytes), })
    }

    /// `LDR(Rt, [Xn|SP, #imm])` for every GP and FP/SIMD register width.
    pub fn ldr<R: LdStReg, B: BaseReg>(&mut self, rt: R, rn: B, imm_bytes: u32) -> (r: Result<(), String>)
        requires
            ldst_offset_ok(R::kind(), imm_bytes),
        ensures
            emits(*old(self).code, *final(self).code, ldr_word(R::kind(), rt.num(), rn.num(), imm_bytes), r is Ok),
            r is Err ==> r->Err_0@ == full_message(),
            *final(final(self).code) == *final(old(self).code),
    {
        self.emit(match R::kind() { LdStKind::W => inst::ldr_w_unsigned(rt.index(), rn.index(), imm_bytes), LdStKind::X => inst::ldr_x_unsigned(rt.index(), rn.index(), imm_bytes), LdStKind::B => inst::ldr_b_unsigned(rt.index(), rn.index(), imm_bytes), LdStKind::H => inst::ldr_h_unsigned(rt.index(), rn.index(), imm_bytes), LdStKind::S => inst::ldr_s_unsigned(rt.index(), rn.index(), imm_bytes), LdStKind::D => inst::ldr_d_unsigned(rt.index(), rn.index(), imm_bytes), LdStKind::Q => inst::ldr_q_unsigned(rt.index(), rn.index(), imm_bytes), })
    }

    /// `ADD(Rd|SP, Rn|SP, #imm)`.
    pub fn add_imm<D: GpRegSp, R: GpRegSp>(&mut self, rd: D, rn: R, imm: u32) -> (r: Result<(), String>)
        requires
            D::sf() == R::sf(),
            imm < 4096,
        ensures
            emits(*old(self).code, *final(self).code, if R::sf() { inst::add_x_imm(rd.num(), rn.num(), imm) } else { inst::add_w_imm(rd.num(), rn.num(), imm) }, r is Ok),
            r is Err ==> r->Err_0@ == full_message(),
            *final(final(self).code) == *final(old(self).code),
    {
        self.emit(if R::sf() { inst::add_x_imm(rd.index(), rn.index(), imm) } else { inst::add_w_imm(rd.index(), rn.index(), imm) })
    }

    /// `SUB(Rd|SP, Rn|SP, #imm)`.
    pub fn sub_imm<D: GpRegSp, R: GpRegSp>(&mut self, rd: D, rn: R, imm: u32) -> (r: Result<(), String>)
        requires
            D::sf() == R::sf(),
            imm < 4096,
        ensures
            emits(*old(self).code, *final(self).code, if R::sf() { inst::sub_x_imm(rd.num(), rn.num(), imm) } else { inst::sub_w_imm(rd.num(), rn.num(), imm) }, r is Ok),
            r is Err ==> r->Err_0@ == full_message(),
            *final(final(self).code) == *final(old(self).code),
    {
        self.emit(if R::sf() { inst::sub_x_imm(rd.index(), rn.index(), imm) } else { inst::sub_w_imm(rd.index(), rn.index(), imm) })
    }

    /// `ADD(Rd|SP, Rn|SP, #imm12, LSL #shift)` with `shift` 0 or 12.
    pub fn add_imm_shift<D: GpRegSp, R: GpRegSp>(&mut self, rd: D, rn: R, imm12: u32, shift: u8) -> (r: Result<(), String>)
        requires
            D::sf() == R::sf(),
            imm12 < 4096,
            shift == 0 || shift == 12,
        ensures
            emits(*old(self).code, *final(self).code, if R::sf() { inst::add_x_imm_shift(rd.num(), rn.num(), imm12, shift == 12) } else { inst::add_w_imm_shift(rd.num(), rn.num(), imm12, shift == 12) }, r is Ok),
            r is Err ==> r->Err_0@ == full_message(),
            *final(final(self).code) == *final(old(self).code),
    {
        self.emit(if R::sf() { inst::add_x_imm_shift(rd.index(), rn.index(), imm12, arith_imm_shift12(shift)) } else { inst::add_w_imm_shift(rd.index(), rn.index(), imm12, arith_imm_shift12(shift)) })
    }

    /// `SUB(Rd|SP, Rn|SP, #imm12, LSL #shift)` with `shift` 0 or 12.
    pub fn sub_imm_shift<D: GpRegSp, R: GpRegSp>(&mut self, rd: D, rn: R, imm12: u32, shift: u8) -> (r: Result<(), String>)
        requires
            D::sf() == R::sf(),
            imm12 < 4096,
            shift == 0 || shift == 12,
        ensures
            emits(*old(self).code, *final(self).code, if R::sf() { inst::sub_x_imm_shift(rd.num(), rn.num(), imm12, shift == 12) } else { inst::sub_w_imm_shift(rd.num(), rn.num(), imm12, shift == 12) }, r is Ok),
            r is Err ==> r->Err_0@ == full_message(),
            *final(final(self).code) == *final(old(self).code),
    {
        self.emit(if R::sf() { inst::sub_x_imm_shift(rd.index(), rn.index(), imm12, arith_imm_shift12(shift)) } else { inst::sub_w_imm_shift(rd.index(), rn.index(), imm12, arith_imm_shift12(shift)) })
    }

    /// `LDAR(Rt, [Xn|SP])`.
    pub fn ldar<R: GpReg, B: BaseReg>(&mut self, rt: R, rn: B) -> (r: Result<(), String>)
        ensures
            emits(*old(self).code, *final(self).code, if R::sf() { inst::ldar_x(rt.num(), rn.num()) } else { inst::ldar_w(rt.num(), rn.num()) }, r is Ok),
            r is Err ==> r->Err_0@ == full_message(),
            *final(final(self).code) == *final(old(self).code),
    {
        self.emit(if R::sf() { inst::ldar_x(rt.index(), rn.index()) } else { inst::ldar_w(rt.index(), rn.index()) })
    }

    /// `LDAXR(Rt, [Xn|SP])`.
    pub fn ldaxr<R: GpReg, B: BaseReg>(&mut self, rt: R, rn: B) -> (r: Result<(), String>)
        ensures
            emits(*old(self).code, *final(self).code, if R::sf() { inst::ldaxr_x(rt.num(), rn.num()) } else { inst::ldaxr_w(rt.num(), rn.num()) }, r is Ok),
            r is Err ==> r->Err_0@ == full_message(),
            *final(final(self).code) == *final(old(self).code),
    {
        self.emit(if R::sf() { inst::ldaxr_x(rt.index(), rn.index()) } else { inst::ldaxr_w(rt.index(), rn.index()) })
    }

    /// `STLXR(Ws, Rt, [Xn|SP])`.
    pub fn stlxr<R: GpReg, B: BaseReg>(&mut self, rs: WReg, rt: R, rn: B) -> (r: Result<(), String>)
        ensures
            emits(*old(self).code, *final(self).code, if R::sf() { inst::stlxr_x(rs.num(), rt.num(), rn.num()) } else { inst::stlxr_w(rs.num(), rt.num(), rn.num()) }, r is Ok),
            r is Err ==> r->Err_0@ == full_message(),
            *final(final(self).code) == *final(old(self).code),
    {
        self.emit(if R::sf() { inst::stlxr_x(rs.index(), rt.index(), rn.index()) } else { inst::stlxr_w(rs.index(), rt.index(), rn.index()) })
    }

    /// `LDRB(Wt, [Xn|SP, #imm])`.
    pub fn ldrb<B: BaseReg>(&mut self, wt: WReg, rn: B, imm_bytes: u32) -> (r: Result<(), String>)
        requires
            imm_bytes < 4096,
        ensures
            emits(*old(self).code, *final(self).code, inst::ldrb_w_unsigned(wt.num(), rn.num(), imm_bytes), r is Ok),
            r is Err ==> r->Err_0@ == full_message(),
            *final(final(self).code) == *final(old(self).code),
    {
        self.emit(inst::ldrb_w_unsigned(wt.index(), rn.index(), imm_bytes))
    }

    /// `STRB(Wt, [Xn|SP, #imm])`.
    pub fn strb<B: BaseReg>(&mut self, wt: WReg, rn: B, imm_bytes: u32) -> (r: Result<(), String>)
        requires
            imm_bytes < 4096,
        ensures
            emits(*old(self).code, *final(self).code, inst::strb_w_unsigned(wt.num(), rn.num(), imm_bytes), r is Ok),
            r is Err ==> r->Err_0@ == full_message(),
            *final(final(self).code) == *final(old(self).code),
    {
        self.emit(inst::strb_w_unsigned(wt.index(), rn.index(), imm_bytes))
    }

    /// `LDP(Rt, Rt2, [Xn|SP, #imm])`.
    pub fn ldp<R: GpReg, B: BaseReg>(&mut self, rt: R, rt2: R, rn: B, imm_bytes: i32) -> (r: Result<(), String>)
        requires
            imm_bytes % (if R::sf() { 8i32 } else { 4i32 }) == 0,
            -64 * (if R::sf() { 8i32 } else { 4i32 }) <= imm_bytes < 64 * (if R::sf() { 8i32 } else { 4i32 }),
        ensures
            emits(*old(self).code, *final(self).code, if R::sf() { inst::ldp_x_offset(rt.num(), rt2.num(), rn.num(), imm_bytes) } else { inst::ldp_w_offset(rt.num(), rt2.num(), rn.num(), imm_bytes) }, r is Ok),
            r is Err ==> r->Err_0@ == full_message(),
            *final(final(self).code) == *final(old(self).code),
    {
        self.emit(if R::sf() { inst::ldp_x_offset(rt.index(), rt2.index(), rn.index(), imm_bytes) } else { inst::ldp_w_offset(rt.index(), rt2.index(), rn.index(), imm_bytes) })
    }

    /// `STP(Rt, Rt2, [Xn|SP, #imm])`.
    pub fn stp<R: GpReg, B: BaseReg>(&mut self, rt: R, rt2: R, rn: B, imm_bytes: i32) -> (r: Result<(), String>)
        requires
            imm_bytes % (if R::sf() { 8i32 } else { 4i32 }) == 0,
            -64 * (if R::sf() { 8i32 } else { 4i32 }) <= imm_bytes < 64 * (if R::sf() { 8i32 } else { 4i32 }),
        ensures
            emits(*old(self).code, *final(self).code, if R::sf() { inst::stp_x_offset(rt.num(), rt2.num(), rn.num(), imm_bytes) } else { inst::stp_w_offset(rt.num(), rt2.num(), rn.num(), imm_bytes) }, r is Ok),
            r is Err ==> r->Err_0@ == full_message(),
            *final(final(self).code) == *final(old(self).code),
    {
        self.emit(if R::sf() { inst::stp_x_offset(rt.index(), rt2.index(), rn.index(), imm_bytes) } else { inst::stp_w_offset(rt.index(), rt2.index(), rn.index(), imm_bytes) })
    }

    /// `ADD(Xd|SP, Xn|SP, Xm)`, the extended-register form (`UXTX #0`).
    pub fn add_ext<D: BaseReg, N: BaseReg>(&mut self, rd: D, rn: N, rm: XReg) -> (r: Result<(), String>)
        ensures
            emits(*old(self).code, *final(self).code, inst::add_x_reg_sp(rd.num(), rn.num(), rm.num()), r is Ok),
            r is Err ==> r->Err_0@ == full_message(),
            *final(final(self).code) == *final(old(self).code),
    {
        self.emit(inst::add_x_reg_sp(rd.index(), rn.index(), rm.index()))
    }

    /// `LSL(Rd, Rn, #shift)`.
    pub fn lsl<R: GpReg>(&mut self, rd: R, rn: R, shift: u8) -> (r: Result<(), String>)
        requires
            shift < if R::sf() { 64u8 } else { 32u8 },
        ensures
            emits(*old(self).code, *final(self).code, if R::sf() { inst::lsl_x_imm(rd.num(), rn.num(), shift) } else { inst::lsl_w_imm(rd.num(), rn.num(), shift) }, r is Ok),
            r is Err ==> r->Err_0@ == full_message(),
            *final(final(self).code) == *final(old(self).code),
    {
        self.emit(if R::sf() { inst::lsl_x_imm(rd.index(), rn.index(), shift) } else { inst::lsl_w_imm(rd.index(), rn.index(), shift) })
    }

    /// `ASR(Rd, Rn, #shift)`.
    pub fn asr<R: GpReg>(&mut self, rd: R, rn: R, shift: u8) -> (r: Result<(), String>)
        requires
            shift < if R::sf() { 64u8 } else { 32u8 },
        ensures
            emits(*old(self).code, *final(self).code, if R::sf() { inst::asr_x_imm(rd.num(), rn.num(), shift) } else { inst::asr_w_imm(rd.num(), rn.num(), shift) }, r is Ok),
            r is Err ==> r->Err_0@ == full_message(),
            *final(final(self).code) == *final(old(self).code),
    {
        self.emit(if R::sf() { inst::asr_x_imm(rd.index(), rn.index(), shift) } else { inst::asr_w_imm(rd.index(), rn.index(), shift) })
    }

    /// `BRK(#imm16)`.
    pub fn brk(&mut self, imm16: u16) -> (r: Result<(), String>)
        ensures
            emits(*old(self).code, *final(self).code, inst::brk(imm16), r is Ok),
            r is Err ==> r->Err_0@ == full_message(),
            *final(final(self).code) == *final(old(self).code),
    {
        self.emit(inst::brk(imm16))
    }

    /// `DSB(option)`.
    pub fn dsb(&mut self, option: BarrierOp) -> (r: Result<(), String>)
        ensures
            emits(*old(self).code, *final(self).code, inst::dsb(option.crm_value()), r is Ok),
            r is Err ==> r->Err_0@ == full_message(),
            *final(final(self).code) == *final(old(self).code),
    {
        self.emit(inst::dsb(option.crm()))
    }

    /// `DMB(option)`.
    pub fn dmb(&mut self, option: BarrierOp) -> (r: Result<(), String>)
        ensures
            emits(*old(self).code, *final(self).code, inst::dmb(option.crm_value()), r is Ok),
            r is Err ==> r->Err_0@ == full_message(),
            *final(final(self).code) == *final(old(self).code),
    {
        self.emit(inst::dmb(option.crm()))
    }

    /// `MSR(SystemReg, Xt)`.
    pub fn msr(&mut self, sysreg: SystemReg, rt: XReg) -> (r: Result<(), String>)
        ensures
            emits(*old(self).code, *final(self).code, msr_word(sysreg, rt.num()), r is Ok),
            r is Err ==> r->Err_0@ == full_message(),
            *final(final(self).code) == *final(old(self).code),
    {
        self.emit(match sysreg { SystemReg::FPCR => inst::msr_fpcr(rt.index()), SystemReg::FPSR => inst::msr_fpsr(rt.index()), SystemReg::NZCV => inst::msr_nzcv(rt.index()), })
    }

    /// `MRS(Xt, SystemReg)`.
    pub fn mrs(&mut self, rt: XReg, sysreg: SystemReg) -> (r: Result<(), String>)
        ensures
            emits(*old(self).code, *final(self).code, mrs_word(sysreg, rt.num()), r is Ok),
            r is Err ==> r->Err_0@ == full_message(),
            *final(final(self).code) == *final(old(self).code),
    {
        self.emit(match sysreg { SystemReg::FPCR => inst::mrs_fpcr(rt.index()), SystemReg::FPSR => inst::mrs_fpsr(rt.index()), SystemReg::NZCV => inst::mrs_nzcv(rt.index()), })
    }

    /// `BFI(Rd, Rn, #lsb, #width)`.
    pub fn bfi<R: GpReg>(&mut self, rd: R, rn: R, lsb: u8, width: u8) -> (r: Result<(), String>)
        requires
            1 <= width,
            lsb + width <= if R::sf() { 64u8 } else { 32u8 },
        ensures
            emits(*old(self).code, *final(self).code, if R::sf() { inst::bfi_x(rd.num(), rn.num(), lsb, width) } else { inst::bfi_w(rd.num(), rn.num(), lsb, width) }, r is Ok),
            r is Err ==> r->Err_0@ == full_message(),
            *final(final(self).code) == *final(old(self).code),
    {
        self.emit(if R::sf() { inst::bfi_x(rd.index(), rn.index(), lsb, width) } else { inst::bfi_w(rd.index(), rn.index(), lsb, width) })
    }

    /// `CMP(Rn, Rm)`.
    pub fn cmp<R: GpReg>(&mut self, rn: R, rm: R) -> (r: Result<(), String>)
        ensures
            emits(*old(self).code, *final(self).code, if R::sf() { inst::cmp_x_reg(rn.num(), rm.num()) } else { inst::cmp_w_reg(rn.num(), rm.num()) }, r is Ok),
            r is Err ==> r->Err_0@ == full_message(),
            *final(final(self).code) == *final(old(self).code),
    {
        self.emit(if R::sf() { inst::cmp_x_reg(rn.index(), rm.index()) } else { inst::cmp_w_reg(rn.index(), rm.index()) })
    }

    /// `CMP(Rn, #imm)`.
    pub fn cmp_imm<R: GpReg>(&mut self, rn: R, imm: u32) -> (r: Result<(), String>)
        requires
            imm < 4096,
        ensures
            emits(*old(self).code, *final(self).code, if R::sf() { inst::cmp_x_imm(rn.num(), imm) } else { inst::cmp_w_imm(rn.num(), imm) }, r is Ok),
            r is Err ==> r->Err_0@ == full_message(),
            *final(final(self).code) == *final(old(self).code),
    {
        self.emit(if R::sf() { inst::cmp_x_imm(rn.index(), imm) } else { inst::cmp_w_imm(rn.index(), imm) })
    }

    /// `MOV(Rd, Rm)`.
    pub fn mov<R: GpReg>(&mut self, rd: R, rm: R) -> (r: Result<(), String>)
        ensures
            emits(*old(self).code, *final(self).code, if R::sf() { inst::mov_x(rd.num(), rm.num()) } else { inst::mov_w(rd.num(), rm.num()) }, r is Ok),
            r is Err ==> r->Err_0@ == full_message(),
            *final(final(self).code) == *final(old(self).code),
    {
        self.emit(if R::sf() { inst::mov_x(rd.index(), rm.index()) } else { inst::mov_w(rd.index(), rm.index()) })
    }

    /// `MOVZ(Rd, #imm16, LSL #shift)`.
    pub fn movz<R: GpReg>(&mut self, rd: R, imm16: u16, shift: u8) -> (r: Result<(), String>)
        requires
            shift % 16 == 0,
            shift < if R::sf() { 64u8 } else { 32u8 },
        ensures
            emits(*old(self).code, *final(self).code, if R::sf() { inst::movz_x(rd.num(), imm16, shift) } else { inst::movz_w(rd.num(), imm16, shift) }, r is Ok),
            r is Err ==> r->Err_0@ == full_message(),
            *final(final(self).code) == *final(old(self).code),
    {
        self.emit(if R::sf() { inst::movz_x(rd.index(), imm16, shift) } else { inst::movz_w(rd.index(), imm16, shift) })
    }

    /// `MOVK(Rd, #imm16, LSL #shift)`.
    pub fn movk<R: GpReg>(&mut self, rd: R, imm16: u16, shift: u8) -> (r: Result<(), String>)
        requires
            shift % 16 == 0,
            shift < if R::sf() { 64u8 } else { 32u8 },
        ensures
            emits(*old(self).code, *final(self).code, if R::sf() { inst::movk_x(rd.num(), imm16, shift) } else { inst::movk_w(rd.num(), imm16, shift) }, r is Ok),
            r is Err ==> r->Err_0@ == full_message(),
            *final(final(self).code) == *final(old(self).code),
    {
        self.emit(if R::sf() { inst::movk_x(rd.index(), imm16, shift) } else { inst::movk_w(rd.index(), imm16, shift) })
    }

    /// `CINC(Rd, Rn, cond)`.
    pub fn cinc<R: GpReg>(&mut self, rd: R, rn: R, cond: Cond) -> (r: Result<(), String>)
        ensures
            emits(*old(self).code, *final(self).code, if R::sf() { inst::cinc_x(rd.num(), rn.num(), cond) } else { inst::cinc_w(rd.num(), rn.num(), cond) }, r is Ok),
            r is Err ==> r->Err_0@ == full_message(),
            *final(final(self).code) == *final(old(self).code),
    {
        self.emit(if R::sf() { inst::cinc_x(rd.index(), rn.index(), cond) } else { inst::cinc_w(rd.index(), rn.index(), cond) })
    }

    /// `CSEL(Rd, Rn, Rm, cond)`.
    pub fn csel<R: GpReg>(&mut self, rd: R, rn: R, rm: R, cond: Cond) -> (r: Result<(), String>)
        ensures
            emits(*old(self).code, *final(self).code, if R::sf() { inst::csel_x(rd.num(), rn.num(), rm.num(), cond) } else { inst::csel_w(rd.num(), rn.num(), rm.num(), cond) }, r is Ok),
            r is Err ==> r->Err_0@ == full_message(),
            *final(final(self).code) == *final(old(self).code),
    {
        self.emit(if R::sf() { inst::csel_x(rd.index(), rn.index(), rm.index(), cond) } else { inst::csel_w(rd.index(), rn.index(), rm.index(), cond) })
    }

    /// `CRC32B(Wd, Wn, Wm)`.
    pub fn crc32b(&mut self, wd: WReg, wn: WReg, rm: WReg) -> (r: Result<(), String>)
        ensures
            emits(*old(self).code, *final(self).code, inst::crc32b_w(wd.num(), wn.num(), rm.num()), r is Ok),
            r is Err ==> r->Err_0@ == full_message(),
            *final(final(self).code) == *final(old(self).code),
    {
        self.emit(inst::crc32b_w(wd.index(), wn.index(), rm.index()))
    }

    /// `CRC32H(Wd, Wn, Wm)`.
    pub fn crc32h(&mut self, wd: WReg, wn: WReg, rm: WReg) -> (r: Result<(), String>)
        ensures
            emits(*old(self).code, *final(self).code, inst::crc32h_w(wd.num(), wn.num(), rm.num()), r is Ok),
            r is Err ==> r->Err_0@ == full_message(),
            *final(final(self).code) == *final(old(self).code),
    {
        self.emit(inst::crc32h_w(wd.index(), wn.index(), rm.index()))
    }

    /// `CRC32W(Wd, Wn, Wm)`.
    pub fn crc32w(&mut self, wd: WReg, wn: WReg, rm: WReg) -> (r: Result<(), String>)
        ensures
            emits(*old(self).code, *final(self).code, inst::crc32w_w(wd.num(), wn.num(), rm.num()), r is Ok),
            r is Err ==> r->Err_0@ == full_message(),
            *final(final(self).code) == *final(old(self).code),
    {
        self.emit(inst::crc32w_w(wd.index(), wn.index(), rm.index()))
    }

    /// `CRC32X(Wd, Wn, Xm)`.
    pub fn crc32x(&mut self, wd: WReg, wn: WReg, rm: XReg) -> (r: Result<(), String>)
        ensures
            emits(*old(self).code, *final(self).code, inst::crc32x_x(wd.num(), wn.num(), rm.num()), r is Ok),
            r is Err ==> r->Err_0@ == full_message(),
            *final(final(self).code) == *final(old(self).code),
    {
        self.emit(inst::crc32x_x(wd.index(), wn.index(), rm.index()))
    }

    /// `CRC32CB(Wd, Wn, Wm)`.
    pub fn crc32cb(&mut self, wd: WReg, wn: WReg, rm: WReg) -> (r: Result<(), String>)
        ensures
            emits(*old(self).code, *final(self).code, inst::crc32cb_w(wd.num(), wn.num(), rm.num()), r is Ok),
            r is Err ==> r->Err_0@ == full_message(),
            *final(final(self).code) == *final(old(self).code),
    {
        self.emit(inst::crc32cb_w(wd.index(), wn.index(), rm.index()))
    }

    /// `CRC32CH(Wd, Wn, Wm)`.
    pub fn crc32ch(&mut self, wd: WReg, wn: WReg, rm: WReg) -> (r: Result<(), String>)
        ensures
            emits(*old(self).code, *final(self).code, inst::crc32ch_w(wd.num(), wn.num(), rm.num()), r is Ok),
            r is Err ==> r->Err_0@ == full_message(),
            *final(final(self).code) == *final(old(self).code),
    {
        self.emit(inst::crc32ch_w(wd.index(), wn.index(), rm.index()))
    }

    /// `CRC32CW(Wd, Wn, Wm)`.
    pub fn crc32cw(&mut self, wd: WReg, wn: WReg, rm: WReg) -> (r: Result<(), String>)
        ensures
            emits(*old(self).code, *final(self).code, inst::crc32cw_w(wd.num(), wn.num(), rm.num()), r is Ok),
            r is Err ==> r->Err_0@ == full_message(),
            *final(final(self).code) == *final(old(self).code),
    {
        self.emit(inst::crc32cw_w(wd.index(), wn.index(), rm.index()))
    }

    /// `CRC32CX(Wd, Wn, Xm)`.
    pub fn crc32cx(&mut self, wd: WReg, wn: WReg, rm: XReg) -> (r: Result<(), String>)
        ensures
            emits(*old(self).code, *final(self).code, inst::crc32cx_x(wd.num(), wn.num(), rm.num()), r is Ok),
            r is Err ==> r->Err_0@ == full_message(),
            *final(final(self).code) == *final(old(self).code),
    {
        self.emit(inst::crc32cx_x(wd.index(), wn.index(), rm.index()))
    }

    /// `AESD(Vd.16B, Vn.16B)`.
    pub fn aesd(&mut self, rd: VReg16B, rn: VReg16B) -> (r: Result<(), String>)
        ensures
            emits(*old(self).code, *final(self).code, inst::aesd_v16b(rd.num(), rn.num()), r is Ok),
            r is Err ==> r->Err_0@ == full_message(),
            *final(final(self).code) == *final(old(self).code),
    {
        self.emit(inst::aesd_v16b(rd.index(), rn.index()))
    }

    /// `AESE(Vd.16B, Vn.16B)`.
    pub fn aese(&mut self, rd: VReg16B, rn: VReg16B) -> (r: Result<(), String>)
        ensures
            emits(*old(self).code, *final(self).code, inst::aese_v16b(rd.num(), rn.num()), r is Ok),
            r is Err ==> r->Err_0@ == full_message(),
            *final(final(self).code) == *final(old(self).code),
    {
        self.emit(inst::aese_v16b(rd.index(), rn.index()))
    }

    /// `AESIMC(Vd.16B, Vn.16B)`.
    pub fn aesimc(&mut self, rd: VReg16B, rn: VReg16B) -> (r: Result<(), String>)
        ensures
            emits(*old(self).code, *final(self).code, inst::aesimc_v16b(rd.num(), rn.num()), r is Ok),
            r is Err ==> r->Err_0@ == full_message(),
            *final(final(self).code) == *final(old(self).code),
    {
        self.emit(inst::aesimc_v16b(rd.index(), rn.index()))
    }

    /// `AESMC(Vd.16B, Vn.16B)`.
    pub fn aesmc(&mut self, rd: VReg16B, rn: VReg16B) -> (r: Result<(), String>)
        ensures
            emits(*old(self).code, *final(self).code, inst::aesmc_v16b(rd.num(), rn.num()), r is Ok),
            r is Err ==> r->Err_0@ == full_message(),
            *final(final(self).code) == *final(old(self).code),
    {
        self.emit(inst::aesmc_v16b(rd.index(), rn.index()))
    }

    /// `SHA256H(Qd, Qn, Vm.4S)`.
    pub fn sha256h(&mut self, qd: QReg, qn: QReg, vm: VReg4S) -> (r: Result<(), String>)
        ensures
            emits(*old(self).code, *final(self).code, inst::sha256h_q(qd.num(), qn.num(), vm.num()), r is Ok),
            r is Err ==> r->Err_0@ == full_message(),
            *final(final(self).code) == *final(old(self).code),
    {
        self.emit(inst::sha256h_q(qd.index(), qn.index(), vm.index()))
    }

    /// `SHA256H2(Qd, Qn, Vm.4S)`.
    pub fn sha256h2(&mut self, qd: QReg, qn: QReg, vm: VReg4S) -> (r: Result<(), String>)
        ensures
            emits(*old(self).code, *final(self).code, inst::sha256h2_q(qd.num(), qn.num(), vm.num()), r is Ok),
            r is Err ==> r->Err_0@ == full_message(),
            *final(final(self).code) == *final(old(self).code),
    {
        self.emit(inst::sha256h2_q(qd.index(), qn.index(), vm.index()))
    }

    /// `SHA256SU0(Vd.4S, Vn.4S)`.
    pub fn sha256su0(&mut self, rd: VReg4S, rn: VReg4S) -> (r: Result<(), String>)
        ensures
            emits(*old(self).code, *final(self).code, inst::sha256su0_v4s(rd.num(), rn.num()), r is Ok),
            r is Err ==> r->Err_0@ == full_message(),
            *final(final(self).code) == *final(old(self).code),
    {
        self.emit(inst::sha256su0_v4s(rd.index(), rn.index()))
    }

    /// `SHA256SU1(Vd.4S, Vn.4S, Vm.4S)`.
    pub fn sha256su1(&mut self, rd: VReg4S, rn: VReg4S, rm: VReg4S) -> (r: Result<(), String>)
        ensures
            emits(*old(self).code, *final(self).code, inst::sha256su1_v4s(rd.num(), rn.num(), rm.num()), r is Ok),
            r is Err ==> r->Err_0@ == full_message(),
            *final(final(self).code) == *final(old(self).code),
    {
        self.emit(inst::sha256su1_v4s(rd.index(), rn.index(), rm.index()))
    }

    /// `MOVI(Dd, #0)`.
    pub fn movi_zero(&mut self, rd: DReg) -> (r: Result<(), String>)
        ensures
            emits(*old(self).code, *final(self).code, inst::movi_d_imm0(rd.num()), r is Ok),
            r is Err ==> r->Err_0@ == full_message(),
            *final(final(self).code) == *final(old(self).code),
    {
        self.emit(inst::movi_d_imm0(rd.index()))
    }

    /// `ADD(Vd.T, Vn.T, Vm.T)`.
    pub fn add_v<V: VRegArranged>(&mut self, rd: V, rn: V, rm: V) -> (r: Result<(), String>)
        requires
            inst::arrangement(V::size(), V::q()),
        ensures
            emits(*old(self).code, *final(self).code, inst::add_v(rd.num(), rn.num(), rm.num(), V::size(), V::q()), r is Ok),
            r is Err ==> r->Err_0@ == full_message(),
            *final(final(self).code) == *final(old(self).code),
    {
        self.emit(inst::add_v(rd.index(), rn.index(), rm.index(), V::size(), V::q()))
    }

    /// `SUB(Vd.T, Vn.T, Vm.T)`.
    pub fn sub_v<V: VRegArranged>(&mut self, rd: V, rn: V, rm: V) -> (r: Result<(), String>)
        requires
            inst::arrangement(V::size(), V::q()),
        ensures
            emits(*old(self).code, *final(self).code, inst::sub_v(rd.num(), rn.num(), rm.num(), V::size(), V::q()), r is Ok),
            r is Err ==> r->Err_0@ == full_message(),
            *final(final(self).code) == *final(old(self).code),
    {
        self.emit(inst::sub_v(rd.index(), rn.index(), rm.index(), V::size(), V::q()))
    }

    /// `CMHI(Vd.T, Vn.T, Vm.T)`.
    pub fn cmhi<V: VRegArranged>(&mut self, rd: V, rn: V, rm: V) -> (r: Result<(), String>)
        requires
            inst::arrangement(V::size(), V::q()),
        ensures
            emits(*old(self).code, *final(self).code, inst::cmhi_v(rd.num(), rn.num(), rm.num(), V::size(), V::q()), r is Ok),
            r is Err ==> r->Err_0@ == full_message(),
            *final(final(self).code) == *final(old(self).code),
    {
        self.emit(inst::cmhi_v(rd.index(), rn.index(), rm.index(), V::size(), V::q()))
    }

    /// `SHADD(Vd.T, Vn.T, Vm.T)`.
    pub fn shadd<V: VRegArranged>(&mut self, rd: V, rn: V, rm: V) -> (r: Result<(), String>)
        requires
            inst::arrangement(V::size(), V::q()),
            V::size() != 64,
        ensures
            emits(*old(self).code, *final(self).code, inst::shadd_v(rd.num(), rn.num(), rm.num(), V::size(), V::q()), r is Ok),
            r is Err ==> r->Err_0@ == full_message(),
            *final(final(self).code) == *final(old(self).code),
    {
        self.emit(inst::shadd_v(rd.index(), rn.index(), rm.index(), V::size(), V::q()))
    }

    /// `SHSUB(Vd.T, Vn.T, Vm.T)`.
    pub fn shsub<V: VRegArranged>(&mut self, rd: V, rn: V, rm: V) -> (r: Result<(), String>)
        requires
            inst::arrangement(V::size(), V::q()),
            V::size() != 64,
        ensures
            emits(*old(self).code, *final(self).code, inst::shsub_v(rd.num(), rn.num(), rm.num(), V::size(), V::q()), r is Ok),
            r is Err ==> r->Err_0@ == full_message(),
            *final(final(self).code) == *final(old(self).code),
    {
        self.emit(inst::shsub_v(rd.index(), rn.index(), rm.index(), V::size(), V::q()))
    }

    /// `UHADD(Vd.T, Vn.T, Vm.T)`.
    pub fn uhadd<V: VRegArranged>(&mut self, rd: V, rn: V, rm: V) -> (r: Result<(), String>)
        requires
            inst::arrangement(V::size(), V::q()),
            V::size() != 64,
        ensures
            emits(*old(self).code, *final(self).code, inst::uhadd_v(rd.num(), rn.num(), rm.num(), V::size(), V::q()), r is Ok),
            r is Err ==> r->Err_0@ == full_message(),
            *final(final(self).code) == *final(old(self).code),
    {
        self.emit(inst::uhadd_v(rd.index(), rn.index(), rm.index(), V::size(), V::q()))
    }

    /// `UHSUB(Vd.T, Vn.T, Vm.T)`.
    pub fn uhsub<V: VRegArranged>(&mut self, rd: V, rn: V, rm: V) -> (r: Result<(), String>)
        requires
            inst::arrangement(V::size(), V::q()),
            V::size() != 64,
        ensures
            emits(*old(self).code, *final(self).code, inst::uhsub_v(rd.num(), rn.num(), rm.num(), V::size(), V::q()), r is Ok),
            r is Err ==> r->Err_0@ == full_message(),
            *final(final(self).code) == *final(old(self).code),
    {
        self.emit(inst::uhsub_v(rd.index(), rn.index(), rm.index(), V::size(), V::q()))
    }

    /// `UABD(Vd.T, Vn.T, Vm.T)`.
    pub fn uabd<V: VRegArranged>(&mut self, rd: V, rn: V, rm: V) -> (r: Result<(), String>)
        requires
            inst::arrangement(V::size(), V::q()),
            V::size() != 64,
        ensures
            emits(*old(self).code, *final(self).code, inst::uabd_v(rd.num(), rn.num(), rm.num(), V::size(), V::q()), r is Ok),
            r is Err ==> r->Err_0@ == full_message(),
            *final(final(self).code) == *final(old(self).code),
    {
        self.emit(inst::uabd_v(rd.index(), rn.index(), rm.index(), V::size(), V::q()))
    }

    /// `ZIP1(Vd.T, Vn.T, Vm.T)`.
    pub fn zip1<V: VRegArranged>(&mut self, rd: V, rn: V, rm: V) -> (r: Result<(), String>)
        requires
            inst::arrangement(V::size(), V::q()),
        ensures
            emits(*old(self).code, *final(self).code, inst::zip1_v(rd.num(), rn.num(), rm.num(), V::size(), V::q()), r is Ok),
            r is Err ==> r->Err_0@ == full_message(),
            *final(final(self).code) == *final(old(self).code),
    {
        self.emit(inst::zip1_v(rd.index(), rn.index(), rm.index(), V::size(), V::q()))
    }

    /// `SQADD(Vd.T, Vn.T, Vm.T)`.
    pub fn sqadd<V: VRegArranged>(&mut self, rd: V, rn: V, rm: V) -> (r: Result<(), String>)
        requires
            inst::arrangement(V::size(), V::q()),
        ensures
            emits(*old(self).code, *final(self).code, inst::sqadd_v(rd.num(), rn.num(), rm.num(), V::size(), V::q()), r is Ok),
            r is Err ==> r->Err_0@ == full_message(),
            *final(final(self).code) == *final(old(self).code),
    {
        self.emit(inst::sqadd_v(rd.index(), rn.index(), rm.index(), V::size(), V::q()))
    }

    /// `SQSUB(Vd.T, Vn.T, Vm.T)`.
    pub fn sqsub<V: VRegArranged>(&mut self, rd: V, rn: V, rm: V) -> (r: Result<(), String>)
        requires
            inst::arrangement(V::size(), V::q()),
        ensures
            emits(*old(self).code, *final(self).code, inst::sqsub_v(rd.num(), rn.num(), rm.num(), V::size(), V::q()), r is Ok),
            r is Err ==> r->Err_0@ == full_message(),
            *final(final(self).code) == *final(old(self).code),
    {
        self.emit(inst::sqsub_v(rd.index(), rn.index(), rm.index(), V::size(), V::q()))
    }

    /// `UQADD(Vd.T, Vn.T, Vm.T)`.
    pub fn uqadd<V: VRegArranged>(&mut self, rd: V, rn: V, rm: V) -> (r: Result<(), String>)
        requires
            inst::arrangement(V::size(), V::q()),
        ensures
            emits(*old(self).code, *final(self).code, inst::uqadd_v(rd.num(), rn.num(), rm.num(), V::size(), V::q()), r is Ok),
            r is Err ==> r->Err_0@ == full_message(),
            *final(final(self).code) == *final(old(self).code),
    {
        self.emit(inst::uqadd_v(rd.index(), rn.index(), rm.index(), V::size(), V::q()))
    }

    /// `UQSUB(Vd.T, Vn.T, Vm.T)`.
    pub fn uqsub<V: VRegArranged>(&mut self, rd: V, rn: V, rm: V) -> (r: Result<(), String>)
        requires
            inst::arrangement(V::size(), V::q()),
        ensures
            emits(*old(self).code, *final(self).code, inst::uqsub_v(rd.num(), rn.num(), rm.num(), V::size(), V::q()), r is Ok),
            r is Err ==> r->Err_0@ == full_message(),
            *final(final(self).code) == *final(old(self).code),
    {
        self.emit(inst::uqsub_v(rd.index(), rn.index(), rm.index(), V::size(), V::q()))
    }

    /// `CMEQ(Vd.T, Vn.T, #0)`.
    pub fn cmeq_zero<V: VRegArranged>(&mut self, rd: V, rn: V) -> (r: Result<(), String>)
        requires
            inst::arrangement(V::size(), V::q()),
        ensures
            emits(*old(self).code, *final(self).code, inst::cmeq_v_zero(rd.num(), rn.num(), V::size(), V::q()), r is Ok),
            r is Err ==> r->Err_0@ == full_message(),
            *final(final(self).code) == *final(old(self).code),
    {
        self.emit(inst::cmeq_v_zero(rd.index(), rn.index(), V::size(), V::q()))
    }

    /// `CMGE(Vd.T, Vn.T, #0)`.
    pub fn cmge_zero<V: VRegArranged>(&mut self, rd: V, rn: V) -> (r: Result<(), String>)
        requires
            inst::arrangement(V::size(), V::q()),
        ensures
            emits(*old(self).code, *final(self).code, inst::cmge_v_zero(rd.num(), rn.num(), V::size(), V::q()), r is Ok),
            r is Err ==> r->Err_0@ == full_message(),
            *final(final(self).code) == *final(old(self).code),
    {
        self.emit(inst::cmge_v_zero(rd.index(), rn.index(), V::size(), V::q()))
    }

    /// `SSHR(Vd.T, Vn.T, #shift)`.
    pub fn sshr<V: VRegArranged>(&mut self, rd: V, rn: V, shift: u8) -> (r: Result<(), String>)
        requires
            inst::arrangement(V::size(), V::q()),
            1 <= shift,
            shift <= V::size(),
        ensures
            emits(*old(self).code, *final(self).code, inst::sshr_v(rd.num(), rn.num(), V::size(), shift, V::q()), r is Ok),
            r is Err ==> r->Err_0@ == full_message(),
            *final(final(self).code) == *final(old(self).code),
    {
        self.emit(inst::sshr_v(rd.index(), rn.index(), V::size(), shift, V::q()))
    }

    /// `USHR(Vd.T, Vn.T, #shift)`.
    pub fn ushr<V: VRegArranged>(&mut self, rd: V, rn: V, shift: u8) -> (r: Result<(), String>)
        requires
            inst::arrangement(V::size(), V::q()),
            1 <= shift,
            shift <= V::size(),
        ensures
            emits(*old(self).code, *final(self).code, inst::ushr_v(rd.num(), rn.num(), V::size(), shift, V::q()), r is Ok),
            r is Err ==> r->Err_0@ == full_message(),
            *final(final(self).code) == *final(old(self).code),
    {
        self.emit(inst::ushr_v(rd.index(), rn.index(), V::size(), shift, V::q()))
    }

    /// `SXTL(Vd.Tw, Vn.Tn)`; the source arrangement selects the encoding.
    pub fn sxtl<D: VRegArranged, N: VRegArranged>(&mut self, rd: D, rn: N) -> (r: Result<(), String>)
        requires
            N::size() == 8 || N::size() == 16 || N::size() == 32,
        ensures
            emits(*old(self).code, *final(self).code, inst::sxtl_v(rd.num(), rn.num(), N::size()), r is Ok),
            r is Err ==> r->Err_0@ == full_message(),
            *final(final(self).code) == *final(old(self).code),
    {
        self.emit(inst::sxtl_v(rd.index(), rn.index(), N::size()))
    }

    /// `UXTL(Vd.Tw, Vn.Tn)`; the source arrangement selects the encoding.
    pub fn uxtl<D: VRegArranged, N: VRegArranged>(&mut self, rd: D, rn: N) -> (r: Result<(), String>)
        requires
            N::size() == 8 || N::size() == 16 || N::size() == 32,
        ensures
            emits(*old(self).code, *final(self).code, inst::uxtl_v(rd.num(), rn.num(), N::size()), r is Ok),
            r is Err ==> r->Err_0@ == full_message(),
            *final(final(self).code) == *final(old(self).code),
    {
        self.emit(inst::uxtl_v(rd.index(), rn.index(), N::size()))
    }

    /// `XTN(Vd.Tn, Vn.Tw)`; the source arrangement selects the encoding.
    pub fn xtn<D: VRegArranged, N: VRegArranged>(&mut self, rd: D, rn: N) -> (r: Result<(), String>)
        requires
            N::size() == 16 || N::size() == 32 || N::size() == 64,
        ensures
            emits(*old(self).code, *final(self).code, inst::xtn_v(rd.num(), rn.num(), N::size()), r is Ok),
            r is Err ==> r->Err_0@ == full_message(),
            *final(final(self).code) == *final(old(self).code),
    {
        self.emit(inst::xtn_v(rd.index(), rn.index(), N::size()))
    }

    /// `SHRN(Vd.Tn, Vn.Tw, #shift)`; the source arrangement selects the encoding.
    pub fn shrn<D: VRegArranged, N: VRegArranged>(&mut self, rd: D, rn: N, shift: u8) -> (r: Result<(), String>)
        requires
            N::size() == 16 || N::size() == 32 || N::size() == 64,
            1 <= shift,
            shift <= N::size() / 2,
        ensures
            emits(*old(self).code, *final(self).code, inst::shrn_v(rd.num(), rn.num(), N::size(), shift), r is Ok),
            r is Err ==> r->Err_0@ == full_message(),
            *final(final(self).code) == *final(old(self).code),
    {
        self.emit(inst::shrn_v(rd.index(), rn.index(), N::size(), shift))
    }

    /// `UADDLV(Rd, Vn.T)`: scalar destination one size wider than the lanes.
    pub fn uaddlv<F: FpReg, V: VRegArranged>(&mut self, rd: F, rn: V) -> (r: Result<(), String>)
        requires
            inst::arrangement(V::size(), V::q()),
            V::size() != 64,
            V::size() != 32 || V::q(),
        ensures
            emits(*old(self).code, *final(self).code, inst::uaddlv_from_v(rd.num(), rn.num(), V::size(), V::q()), r is Ok),
            r is Err ==> r->Err_0@ == full_message(),
            *final(final(self).code) == *final(old(self).code),
    {
        self.emit(inst::uaddlv_from_v(rd.index(), rn.index(), V::size(), V::q()))
    }

    /// `AND(Vd.8B|16B, Vn, Vm)`.
    pub fn and_v<V: VRegBytes>(&mut self, rd: V, rn: V, rm: V) -> (r: Result<(), String>)
        ensures
            emits(*old(self).code, *final(self).code, if V::q() { inst::and_v16b(rd.num(), rn.num(), rm.num()) } else { inst::and_v8b(rd.num(), rn.num(), rm.num()) }, r is Ok),
            r is Err ==> r->Err_0@ == full_message(),
            *final(final(self).code) == *final(old(self).code),
    {
        self.emit(if V::q() { inst::and_v16b(rd.index(), rn.index(), rm.index()) } else { inst::and_v8b(rd.index(), rn.index(), rm.index()) })
    }

    /// `EOR(Vd.8B|16B, Vn, Vm)`.
    pub fn eor_v<V: VRegBytes>(&mut self, rd: V, rn: V, rm: V) -> (r: Result<(), String>)
        ensures
            emits(*old(self).code, *final(self).code, if V::q() { inst::eor_v16b(rd.num(), rn.num(), rm.num()) } else { inst::eor_v8b(rd.num(), rn.num(), rm.num()) }, r is Ok),
            r is Err ==> r->Err_0@ == full_message(),
            *final(final(self).code) == *final(old(self).code),
    {
        self.emit(if V::q() { inst::eor_v16b(rd.index(), rn.index(), rm.index()) } else { inst::eor_v8b(rd.index(), rn.index(), rm.index()) })
    }

    /// `BSL(Vd.8B|16B, Vn, Vm)`.
    pub fn bsl<V: VRegBytes>(&mut self, rd: V, rn: V, rm: V) -> (r: Result<(), String>)
        ensures
            emits(*old(self).code, *final(self).code, if V::q() { inst::bsl_v16b(rd.num(), rn.num(), rm.num()) } else { inst::bsl_v8b(rd.num(), rn.num(), rm.num()) }, r is Ok),
            r is Err ==> r->Err_0@ == full_message(),
            *final(final(self).code) == *final(old(self).code),
    {
        self.emit(if V::q() { inst::bsl_v16b(rd.index(), rn.index(), rm.index()) } else { inst::bsl_v8b(rd.index(), rn.index(), rm.index()) })
    }

    /// `EXT(Vd.8B|16B, Vn, Vm, #index)`.
    pub fn ext<V: VRegBytes>(&mut self, rd: V, rn: V, rm: V, index: u8) -> (r: Result<(), String>)
        requires
            index < if V::q() { 16u8 } else { 8u8 },
        ensures
            emits(*old(self).code, *final(self).code, inst::ext_v16b(rd.num(), rn.num(), rm.num(), index, V::q()), r is Ok),
            r is Err ==> r->Err_0@ == full_message(),
            *final(final(self).code) == *final(old(self).code),
    {
        self.emit(inst::ext_v16b(rd.index(), rn.index(), rm.index(), index, V::q()))
    }

    /// `MOVI(Vd.8B|16B, #imm8)`.
    pub fn movi<V: VRegBytes>(&mut self, rd: V, imm: u8) -> (r: Result<(), String>)
        ensures
            emits(*old(self).code, *final(self).code, if V::q() { inst::movi_v16b_imm(rd.num(), imm) } else { inst::movi_v8b_imm(rd.num(), imm) }, r is Ok),
            r is Err ==> r->Err_0@ == full_message(),
            *final(final(self).code) == *final(old(self).code),
    {
        self.emit(if V::q() { inst::movi_v16b_imm(rd.index(), imm) } else { inst::movi_v8b_imm(rd.index(), imm) })
    }

    /// `FMOV(Sd, Sn)` / FMOV(Dd, Dn).
    pub fn fmov<F: FpReg>(&mut self, rd: F, rn: F) -> (r: Result<(), String>)
        requires
            F::size() == 2 || F::size() == 3,
        ensures
            emits(*old(self).code, *final(self).code, if F::size() == 2 { inst::fmov_s(rd.num(), rn.num()) } else { inst::fmov_d(rd.num(), rn.num()) }, r is Ok),
            r is Err ==> r->Err_0@ == full_message(),
            *final(final(self).code) == *final(old(self).code),
    {
        self.emit(if F::size() == 2 { inst::fmov_s(rd.index(), rn.index()) } else { inst::fmov_d(rd.index(), rn.index()) })
    }

    /// `FMOV(Xd, Dn)`.
    pub fn fmov_to_gp(&mut self, rd: XReg, rn: DReg) -> (r: Result<(), String>)
        ensures
            emits(*old(self).code, *final(self).code, inst::fmov_x_from_d(rd.num(), rn.num()), r is Ok),
            r is Err ==> r->Err_0@ == full_message(),
            *final(final(self).code) == *final(old(self).code),
    {
        self.emit(inst::fmov_x_from_d(rd.index(), rn.index()))
    }

    /// `FMOV(Dd, Xn)`.
    pub fn fmov_from_gp(&mut self, rd: DReg, rn: XReg) -> (r: Result<(), String>)
        ensures
            emits(*old(self).code, *final(self).code, inst::fmov_d_from_x(rd.num(), rn.num()), r is Ok),
            r is Err ==> r->Err_0@ == full_message(),
            *final(final(self).code) == *final(old(self).code),
    {
        self.emit(inst::fmov_d_from_x(rd.index(), rn.index()))
    }

    /// `BIC(Vd.8H, #imm8, LSL #shift)` (vector, immediate).
    pub fn bic_imm(&mut self, rd: VReg8H, imm8: u8, lsl: u8) -> (r: Result<(), String>)
        requires
            lsl == 0 || lsl == 8,
        ensures
            emits(*old(self).code, *final(self).code, inst::bic_v8h_imm(rd.num(), imm8, lsl), r is Ok),
            r is Err ==> r->Err_0@ == full_message(),
            *final(final(self).code) == *final(old(self).code),
    {
        self.emit(inst::bic_v8h_imm(rd.index(), imm8, lsl))
    }

    /// `FADD(Vd.T, Vn.T, Vm.T)` for the 4S and 2D arrangements.
    pub fn fadd<V: VRegArranged>(&mut self, rd: V, rn: V, rm: V) -> (r: Result<(), String>)
        requires
            (V::size() == 32 || V::size() == 64) && V::q(),
        ensures
            emits(*old(self).code, *final(self).code, if V::size() == 32 { inst::fadd_v4s(rd.num(), rn.num(), rm.num()) } else { inst::fadd_v2d(rd.num(), rn.num(), rm.num()) }, r is Ok),
            r is Err ==> r->Err_0@ == full_message(),
            *final(final(self).code) == *final(old(self).code),
    {
        self.emit(if V::size() == 32 { inst::fadd_v4s(rd.index(), rn.index(), rm.index()) } else { inst::fadd_v2d(rd.index(), rn.index(), rm.index()) })
    }

    /// `FSUB(Vd.T, Vn.T, Vm.T)` for the 4S and 2D arrangements.
    pub fn fsub<V: VRegArranged>(&mut self, rd: V, rn: V, rm: V) -> (r: Result<(), String>)
        requires
            (V::size() == 32 || V::size() == 64) && V::q(),
        ensures
            emits(*old(self).code, *final(self).code, if V::size() == 32 { inst::fsub_v4s(rd.num(), rn.num(), rm.num()) } else { inst::fsub_v2d(rd.num(), rn.num(), rm.num()) }, r is Ok),
            r is Err ==> r->Err_0@ == full_message(),
            *final(final(self).code) == *final(old(self).code),
    {
        self.emit(if V::size() == 32 { inst::fsub_v4s(rd.index(), rn.index(), rm.index()) } else { inst::fsub_v2d(rd.index(), rn.index(), rm.index()) })
    }

    /// `FMUL(Vd.T, Vn.T, Vm.T)` for the 4S and 2D arrangements.
    pub fn fmul<V: VRegArranged>(&mut self, rd: V, rn: V, rm: V) -> (r: Result<(), String>)
        requires
            (V::size() == 32 || V::size() == 64) && V::q(),
        ensures
            emits(*old(self).code, *final(self).code, if V::size() == 32 { inst::fmul_v4s(rd.num(), rn.num(), rm.num()) } else { inst::fmul_v2d(rd.num(), rn.num(), rm.num()) }, r is Ok),
            r is Err ==> r->Err_0@ == full_message(),
            *final(final(self).code) == *final(old(self).code),
    {
        self.emit(if V::size() == 32 { inst::fmul_v4s(rd.index(), rn.index(), rm.index()) } else { inst::fmul_v2d(rd.index(), rn.index(), rm.index()) })
    }

    /// `FMULX(Vd.T, Vn.T, Vm.T)` for the 4S and 2D arrangements.
    pub fn fmulx<V: VRegArranged>(&mut self, rd: V, rn: V, rm: V) -> (r: Result<(), String>)
        requires
            (V::size() == 32 || V::size() == 64) && V::q(),
        ensures
            emits(*old(self).code, *final(self).code, if V::size() == 32 { inst::fmulx_v4s(rd.num(), rn.num(), rm.num()) } else { inst::fmulx_v2d(rd.num(), rn.num(), rm.num()) }, r is Ok),
            r is Err ==> r->Err_0@ == full_message(),
            *final(final(self).code) == *final(old(self).code),
    {
        self.emit(if V::size() == 32 { inst::fmulx_v4s(rd.index(), rn.index(), rm.index()) } else { inst::fmulx_v2d(rd.index(), rn.index(), rm.index()) })
    }

    /// `FDIV(Vd.T, Vn.T, Vm.T)` for the 4S and 2D arrangements.
    pub fn fdiv<V: VRegArranged>(&mut self, rd: V, rn: V, rm: V) -> (r: Result<(), String>)
        requires
            (V::size() == 32 || V::size() == 64) && V::q(),
        ensures
            emits(*old(self).code, *final(self).code, if V::size() == 32 { inst::fdiv_v4s(rd.num(), rn.num(), rm.num()) } else { inst::fdiv_v2d(rd.num(), rn.num(), rm.num()) }, r is Ok),
            r is Err ==> r->Err_0@ == full_message(),
            *final(final(self).code) == *final(old(self).code),
    {
        self.emit(if V::size() == 32 { inst::fdiv_v4s(rd.index(), rn.index(), rm.index()) } else { inst::fdiv_v2d(rd.index(), rn.index(), rm.index()) })
    }

    /// `FMAX(Vd.T, Vn.T, Vm.T)` for the 4S and 2D arrangements.
    pub fn fmax<V: VRegArranged>(&mut self, rd: V, rn: V, rm: V) -> (r: Result<(), String>)
        requires
            (V::size() == 32 || V::size() == 64) && V::q(),
        ensures
            emits(*old(self).code, *final(self).code, if V::size() == 32 { inst::fmax_v4s(rd.num(), rn.num(), rm.num()) } else { inst::fmax_v2d(rd.num(), rn.num(), rm.num()) }, r is Ok),
            r is Err ==> r->Err_0@ == full_message(),
            *final(final(self).code) == *final(old(self).code),
    {
        self.emit(if V::size() == 32 { inst::fmax_v4s(rd.index(), rn.index(), rm.index()) } else { inst::fmax_v2d(rd.index(), rn.index(), rm.index()) })
    }

    /// `FMAXNM(Vd.T, Vn.T, Vm.T)` for the 4S and 2D arrangements.
    pub fn fmaxnm<V: VRegArranged>(&mut self, rd: V, rn: V, rm: V) -> (r: Result<(), String>)
        requires
            (V::size() == 32 || V::size() == 64) && V::q(),
        ensures
            emits(*old(self).code, *final(self).code, if V::size() == 32 { inst::fmaxnm_v4s(rd.num(), rn.num(), rm.num()) } else { inst::fmaxnm_v2d(rd.num(), rn.num(), rm.num()) }, r is Ok),
            r is Err ==> r->Err_0@ == full_message(),
            *final(final(self).code) == *final(old(self).code),
    {
        self.emit(if V::size() == 32 { inst::fmaxnm_v4s(rd.index(), rn.index(), rm.index()) } else { inst::fmaxnm_v2d(rd.index(), rn.index(), rm.index()) })
    }

    /// `FMIN(Vd.T, Vn.T, Vm.T)` for the 4S and 2D arrangements.
    pub fn fmin<V: VRegArranged>(&mut self, rd: V, rn: V, rm: V) -> (r: Result<(), String>)
        requires
            (V::size() == 32 || V::size() == 64) && V::q(),
        ensures
            emits(*old(self).code, *final(self).code, if V::size() == 32 { inst::fmin_v4s(rd.num(), rn.num(), rm.num()) } else { inst::fmin_v2d(rd.num(), rn.num(), rm.num()) }, r is Ok),
            r is Err ==> r->Err_0@ == full_message(),
            *final(final(self).code) == *final(old(self).code),
    {
        self.emit(if V::size() == 32 { inst::fmin_v4s(rd.index(), rn.index(), rm.index()) } else { inst::fmin_v2d(rd.index(), rn.index(), rm.index()) })
    }

    /// `FMINNM(Vd.T, Vn.T, Vm.T)` for the 4S and 2D arrangements.
    pub fn fminnm<V: VRegArranged>(&mut self, rd: V, rn: V, rm: V) -> (r: Result<(), String>)
        requires
            (V::size() == 32 || V::size() == 64) && V::q(),
        ensures
            emits(*old(self).code, *final(self).code, if V::size() == 32 { inst::fminnm_v4s(rd.num(), rn.num(), rm.num()) } else { inst::fminnm_v2d(rd.num(), rn.num(), rm.num()) }, r is Ok),
            r is Err ==> r->Err_0@ == full_message(),
            *final(final(self).code) == *final(old(self).code),
    {
        self.emit(if V::size() == 32 { inst::fminnm_v4s(rd.index(), rn.index(), rm.index()) } else { inst::fminnm_v2d(rd.index(), rn.index(), rm.index()) })
    }

    /// `FCMEQ(Vd.T, Vn.T, Vm.T)` for the 4S and 2D arrangements.
    pub fn fcmeq<V: VRegArranged>(&mut self, rd: V, rn: V, rm: V) -> (r: Result<(), String>)
        requires
            (V::size() == 32 || V::size() == 64) && V::q(),
        ensures
            emits(*old(self).code, *final(self).code, if V::size() == 32 { inst::fcmeq_v4s(rd.num(), rn.num(), rm.num()) } else { inst::fcmeq_v2d(rd.num(), rn.num(), rm.num()) }, r is Ok),
            r is Err ==> r->Err_0@ == full_message(),
            *final(final(self).code) == *final(old(self).code),
    {
        self.emit(if V::size() == 32 { inst::fcmeq_v4s(rd.index(), rn.index(), rm.index()) } else { inst::fcmeq_v2d(rd.index(), rn.index(), rm.index()) })
    }

    /// `FCMGT(Vd.T, Vn.T, Vm.T)` for the 4S and 2D arrangements.
    pub fn fcmgt<V: VRegArranged>(&mut self, rd: V, rn: V, rm: V) -> (r: Result<(), String>)
        requires
            (V::size() == 32 || V::size() == 64) && V::q(),
        ensures
            emits(*old(self).code, *final(self).code, if V::size() == 32 { inst::fcmgt_v4s(rd.num(), rn.num(), rm.num()) } else { inst::fcmgt_v2d(rd.num(), rn.num(), rm.num()) }, r is Ok),
            r is Err ==> r->Err_0@ == full_message(),
            *final(final(self).code) == *final(old(self).code),
    {
        self.emit(if V::size() == 32 { inst::fcmgt_v4s(rd.index(), rn.index(), rm.index()) } else { inst::fcmgt_v2d(rd.index(), rn.index(), rm.index()) })
    }

    /// `FCMGE(Vd.T, Vn.T, Vm.T)` for the 4S and 2D arrangements.
    pub fn fcmge<V: VRegArranged>(&mut self, rd: V, rn: V, rm: V) -> (r: Result<(), String>)
        requires
            (V::size() == 32 || V::size() == 64) && V::q(),
        ensures
            emits(*old(self).code, *final(self).code, if V::size() == 32 { inst::fcmge_v4s(rd.num(), rn.num(), rm.num()) } else { inst::fcmge_v2d(rd.num(), rn.num(), rm.num()) }, r is Ok),
            r is Err ==> r->Err_0@ == full_message(),
            *final(final(self).code) == *final(old(self).code),
    {
        self.emit(if V::size() == 32 { inst::fcmge_v4s(rd.index(), rn.index(), rm.index()) } else { inst::fcmge_v2d(rd.index(), rn.index(), rm.index()) })
    }

    /// `FMLA(Vd.T, Vn.T, Vm.T)` for the 4S and 2D arrangements.
    pub fn fmla<V: VRegArranged>(&mut self, rd: V, rn: V, rm: V) -> (r: Result<(), String>)
        requires
            (V::size() == 32 || V::size() == 64) && V::q(),
        ensures
            emits(*old(self).code, *final(self).code, if V::size() == 32 { inst::fmla_v4s(rd.num(), rn.num(), rm.num()) } else { inst::fmla_v2d(rd.num(), rn.num(), rm.num()) }, r is Ok),
            r is Err ==> r->Err_0@ == full_message(),
            *final(final(self).code) == *final(old(self).code),
    {
        self.emit(if V::size() == 32 { inst::fmla_v4s(rd.index(), rn.index(), rm.index()) } else { inst::fmla_v2d(rd.index(), rn.index(), rm.index()) })
    }

    /// `FADDP(Vd.T, Vn.T, Vm.T)` for the 4S and 2D arrangements.
    pub fn faddp<V: VRegArranged>(&mut self, rd: V, rn: V, rm: V) -> (r: Result<(), String>)
        requires
            (V::size() == 32 || V::size() == 64) && V::q(),
        ensures
            emits(*old(self).code, *final(self).code, if V::size() == 32 { inst::faddp_v4s(rd.num(), rn.num(), rm.num()) } else { inst::faddp_v2d(rd.num(), rn.num(), rm.num()) }, r is Ok),
            r is Err ==> r->Err_0@ == full_message(),
            *final(final(self).code) == *final(old(self).code),
    {
        self.emit(if V::size() == 32 { inst::faddp_v4s(rd.index(), rn.index(), rm.index()) } else { inst::faddp_v2d(rd.index(), rn.index(), rm.index()) })
    }

    /// `FRECPS(Vd.T, Vn.T, Vm.T)` for the 4S and 2D arrangements.
    pub fn frecps<V: VRegArranged>(&mut self, rd: V, rn: V, rm: V) -> (r: Result<(), String>)
        requires
            (V::size() == 32 || V::size() == 64) && V::q(),
        ensures
            emits(*old(self).code, *final(self).code, if V::size() == 32 { inst::frecps_v4s(rd.num(), rn.num(), rm.num()) } else { inst::frecps_v2d(rd.num(), rn.num(), rm.num()) }, r is Ok),
            r is Err ==> r->Err_0@ == full_message(),
            *final(final(self).code) == *final(old(self).code),
    {
        self.emit(if V::size() == 32 { inst::frecps_v4s(rd.index(), rn.index(), rm.index()) } else { inst::frecps_v2d(rd.index(), rn.index(), rm.index()) })
    }

    /// `FRSQRTS(Vd.T, Vn.T, Vm.T)` for the 4S and 2D arrangements.
    pub fn frsqrts<V: VRegArranged>(&mut self, rd: V, rn: V, rm: V) -> (r: Result<(), String>)
        requires
            (V::size() == 32 || V::size() == 64) && V::q(),
        ensures
            emits(*old(self).code, *final(self).code, if V::size() == 32 { inst::frsqrts_v4s(rd.num(), rn.num(), rm.num()) } else { inst::frsqrts_v2d(rd.num(), rn.num(), rm.num()) }, r is Ok),
            r is Err ==> r->Err_0@ == full_message(),
            *final(final(self).code) == *final(old(self).code),
    {
        self.emit(if V::size() == 32 { inst::frsqrts_v4s(rd.index(), rn.index(), rm.index()) } else { inst::frsqrts_v2d(rd.index(), rn.index(), rm.index()) })
    }

    /// `FABS(Vd.T, Vn.T)` for the 4S and 2D arrangements.
    pub fn fabs<V: VRegArranged>(&mut self, rd: V, rn: V) -> (r: Result<(), String>)
        requires
            (V::size() == 32 || V::size() == 64) && V::q(),
        ensures
            emits(*old(self).code, *final(self).code, if V::size() == 32 { inst::fabs_v4s(rd.num(), rn.num()) } else { inst::fabs_v2d(rd.num(), rn.num()) }, r is Ok),
            r is Err ==> r->Err_0@ == full_message(),
            *final(final(self).code) == *final(old(self).code),
    {
        self.emit(if V::size() == 32 { inst::fabs_v4s(rd.index(), rn.index()) } else { inst::fabs_v2d(rd.index(), rn.index()) })
    }

    /// `FNEG(Vd.T, Vn.T)` for the 4S and 2D arrangements.
    pub fn fneg<V: VRegArranged>(&mut self, rd: V, rn: V) -> (r: Result<(), String>)
        requires
            (V::size() == 32 || V::size() == 64) && V::q(),
        ensures
            emits(*old(self).code, *final(self).code, if V::size() == 32 { inst::fneg_v4s(rd.num(), rn.num()) } else { inst::fneg_v2d(rd.num(), rn.num()) }, r is Ok),
            r is Err ==> r->Err_0@ == full_message(),
            *final(final(self).code) == *final(old(self).code),
    {
        self.emit(if V::size() == 32 { inst::fneg_v4s(rd.index(), rn.index()) } else { inst::fneg_v2d(rd.index(), rn.index()) })
    }

    /// `FSQRT(Vd.T, Vn.T)` for the 4S and 2D arrangements.
    pub fn fsqrt<V: VRegArranged>(&mut self, rd: V, rn: V) -> (r: Result<(), String>)
        requires
            (V::size() == 32 || V::size() == 64) && V::q(),
        ensures
            emits(*old(self).code, *final(self).code, if V::size() == 32 { inst::fsqrt_v4s(rd.num(), rn.num()) } else { inst::fsqrt_v2d(rd.num(), rn.num()) }, r is Ok),
            r is Err ==> r->Err_0@ == full_message(),
            *final(final(self).code) == *final(old(self).code),
    {
        self.emit(if V::size() == 32 { inst::fsqrt_v4s(rd.index(), rn.index()) } else { inst::fsqrt_v2d(rd.index(), rn.index()) })
    }

    /// `FRECPE(Vd.T, Vn.T)` for the 4S and 2D arrangements.
    pub fn frecpe<V: VRegArranged>(&mut self, rd: V, rn: V) -> (r: Result<(), String>)
        requires
            (V::size() == 32 || V::size() == 64) && V::q(),
        ensures
            emits(*old(self).code, *final(self).code, if V::size() == 32 { inst::frecpe_v4s(rd.num(), rn.num()) } else { inst::frecpe_v2d(rd.num(), rn.num()) }, r is Ok),
            r is Err ==> r->Err_0@ == full_message(),
            *final(final(self).code) == *final(old(self).code),
    {
        self.emit(if V::size() == 32 { inst::frecpe_v4s(rd.index(), rn.index()) } else { inst::frecpe_v2d(rd.index(), rn.index()) })
    }

    /// `FRSQRTE(Vd.T, Vn.T)` for the 4S and 2D arrangements.
    pub fn frsqrte<V: VRegArranged>(&mut self, rd: V, rn: V) -> (r: Result<(), String>)
        requires
            (V::size() == 32 || V::size() == 64) && V::q(),
        ensures
            emits(*old(self).code, *final(self).code, if V::size() == 32 { inst::frsqrte_v4s(rd.num(), rn.num()) } else { inst::frsqrte_v2d(rd.num(), rn.num()) }, r is Ok),
            r is Err ==> r->Err_0@ == full_message(),
            *final(final(self).code) == *final(old(self).code),
    {
        self.emit(if V::size() == 32 { inst::frsqrte_v4s(rd.index(), rn.index()) } else { inst::frsqrte_v2d(rd.index(), rn.index()) })
    }

    /// `FRINTN(Vd.T, Vn.T)` for the 4S and 2D arrangements.
    pub fn frintn<V: VRegArranged>(&mut self, rd: V, rn: V) -> (r: Result<(), String>)
        requires
            (V::size() == 32 || V::size() == 64) && V::q(),
        ensures
            emits(*old(self).code, *final(self).code, if V::size() == 32 { inst::frintn_v4s(rd.num(), rn.num()) } else { inst::frintn_v2d(rd.num(), rn.num()) }, r is Ok),
            r is Err ==> r->Err_0@ == full_message(),
            *final(final(self).code) == *final(old(self).code),
    {
        self.emit(if V::size() == 32 { inst::frintn_v4s(rd.index(), rn.index()) } else { inst::frintn_v2d(rd.index(), rn.index()) })
    }

    /// `FRINTP(Vd.T, Vn.T)` for the 4S and 2D arrangements.
    pub fn frintp<V: VRegArranged>(&mut self, rd: V, rn: V) -> (r: Result<(), String>)
        requires
            (V::size() == 32 || V::size() == 64) && V::q(),
        ensures
            emits(*old(self).code, *final(self).code, if V::size() == 32 { inst::frintp_v4s(rd.num(), rn.num()) } else { inst::frintp_v2d(rd.num(), rn.num()) }, r is Ok),
            r is Err ==> r->Err_0@ == full_message(),
            *final(final(self).code) == *final(old(self).code),
    {
        self.emit(if V::size() == 32 { inst::frintp_v4s(rd.index(), rn.index()) } else { inst::frintp_v2d(rd.index(), rn.index()) })
    }

    /// `FRINTM(Vd.T, Vn.T)` for the 4S and 2D arrangements.
    pub fn frintm<V: VRegArranged>(&mut self, rd: V, rn: V) -> (r: Result<(), String>)
        requires
            (V::size() == 32 || V::size() == 64) && V::q(),
        ensures
            emits(*old(self).code, *final(self).code, if V::size() == 32 { inst::frintm_v4s(rd.num(), rn.num()) } else { inst::frintm_v2d(rd.num(), rn.num()) }, r is Ok),
            r is Err ==> r->Err_0@ == full_message(),
            *final(final(self).code) == *final(old(self).code),
    {
        self.emit(if V::size() == 32 { inst::frintm_v4s(rd.index(), rn.index()) } else { inst::frintm_v2d(rd.index(), rn.index()) })
    }

    /// `FRINTZ(Vd.T, Vn.T)` for the 4S and 2D arrangements.
    pub fn frintz<V: VRegArranged>(&mut self, rd: V, rn: V) -> (r: Result<(), String>)
        requires
            (V::size() == 32 || V::size() == 64) && V::q(),
        ensures
            emits(*old(self).code, *final(self).code, if V::size() == 32 { inst::frintz_v4s(rd.num(), rn.num()) } else { inst::frintz_v2d(rd.num(), rn.num()) }, r is Ok),
            r is Err ==> r->Err_0@ == full_message(),
            *final(final(self).code) == *final(old(self).code),
    {
        self.emit(if V::size() == 32 { inst::frintz_v4s(rd.index(), rn.index()) } else { inst::frintz_v2d(rd.index(), rn.index()) })
    }

    /// `FRINTA(Vd.T, Vn.T)` for the 4S and 2D arrangements.
    pub fn frinta<V: VRegArranged>(&mut self, rd: V, rn: V) -> (r: Result<(), String>)
        requires
            (V::size() == 32 || V::size() == 64) && V::q(),
        ensures
            emits(*old(self).code, *final(self).code, if V::size() == 32 { inst::frinta_v4s(rd.num(), rn.num()) } else { inst::frinta_v2d(rd.num(), rn.num()) }, r is Ok),
            r is Err ==> r->Err_0@ == full_message(),
            *final(final(self).code) == *final(old(self).code),
    {
        self.emit(if V::size() == 32 { inst::frinta_v4s(rd.index(), rn.index()) } else { inst::frinta_v2d(rd.index(), rn.index()) })
    }

    /// `FRINTX(Vd.T, Vn.T)` for the 4S and 2D arrangements.
    pub fn frintx<V: VRegArranged>(&mut self, rd: V, rn: V) -> (r: Result<(), String>)
        requires
            (V::size() == 32 || V::size() == 64) && V::q(),
        ensures
            emits(*old(self).code, *final(self).code, if V::size() == 32 { inst::frintx_v4s(rd.num(), rn.num()) } else { inst::frintx_v2d(rd.num(), rn.num()) }, r is Ok),
            r is Err ==> r->Err_0@ == full_message(),
            *final(final(self).code) == *final(old(self).code),
    {
        self.emit(if V::size() == 32 { inst::frintx_v4s(rd.index(), rn.index()) } else { inst::frintx_v2d(rd.index(), rn.index()) })
    }

    /// `SCVTF(Vd.T, Vn.T)` for the 4S and 2D arrangements.
    pub fn scvtf<V: VRegArranged>(&mut self, rd: V, rn: V) -> (r: Result<(), String>)
        requires
            (V::size() == 32 || V::size() == 64) && V::q(),
        ensures
            emits(*old(self).code, *final(self).code, if V::size() == 32 { inst::scvtf_v4s(rd.num(), rn.num()) } else { inst::scvtf_v2d(rd.num(), rn.num()) }, r is Ok),
            r is Err ==> r->Err_0@ == full_message(),
            *final(final(self).code) == *final(old(self).code),
    {
        self.emit(if V::size() == 32 { inst::scvtf_v4s(rd.index(), rn.index()) } else { inst::scvtf_v2d(rd.index(), rn.index()) })
    }

    /// `UCVTF(Vd.T, Vn.T)` for the 4S and 2D arrangements.
    pub fn ucvtf<V: VRegArranged>(&mut self, rd: V, rn: V) -> (r: Result<(), String>)
        requires
            (V::size() == 32 || V::size() == 64) && V::q(),
        ensures
            emits(*old(self).code, *final(self).code, if V::size() == 32 { inst::ucvtf_v4s(rd.num(), rn.num()) } else { inst::ucvtf_v2d(rd.num(), rn.num()) }, r is Ok),
            r is Err ==> r->Err_0@ == full_message(),
            *final(final(self).code) == *final(old(self).code),
    {
        self.emit(if V::size() == 32 { inst::ucvtf_v4s(rd.index(), rn.index()) } else { inst::ucvtf_v2d(rd.index(), rn.index()) })
    }

    /// `FCVTZS(Vd.T, Vn.T)` for the 4S and 2D arrangements.
    pub fn fcvtzs<V: VRegArranged>(&mut self, rd: V, rn: V) -> (r: Result<(), String>)
        requires
            (V::size() == 32 || V::size() == 64) && V::q(),
        ensures
            emits(*old(self).code, *final(self).code, if V::size() == 32 { inst::fcvtzs_v4s(rd.num(), rn.num()) } else { inst::fcvtzs_v2d(rd.num(), rn.num()) }, r is Ok),
            r is Err ==> r->Err_0@ == full_message(),
            *final(final(self).code) == *final(old(self).code),
    {
        self.emit(if V::size() == 32 { inst::fcvtzs_v4s(rd.index(), rn.index()) } else { inst::fcvtzs_v2d(rd.index(), rn.index()) })
    }

    /// `FCVTZU(Vd.T, Vn.T)` for the 4S and 2D arrangements.
    pub fn fcvtzu<V: VRegArranged>(&mut self, rd: V, rn: V) -> (r: Result<(), String>)
        requires
            (V::size() == 32 || V::size() == 64) && V::q(),
        ensures
            emits(*old(self).code, *final(self).code, if V::size() == 32 { inst::fcvtzu_v4s(rd.num(), rn.num()) } else { inst::fcvtzu_v2d(rd.num(), rn.num()) }, r is Ok),
            r is Err ==> r->Err_0@ == full_message(),
            *final(final(self).code) == *final(old(self).code),
    {
        self.emit(if V::size() == 32 { inst::fcvtzu_v4s(rd.index(), rn.index()) } else { inst::fcvtzu_v2d(rd.index(), rn.index()) })
    }

    /// `FCVTNS(Vd.T, Vn.T)` for the 4S and 2D arrangements.
    pub fn fcvtns<V: VRegArranged>(&mut self, rd: V, rn: V) -> (r: Result<(), String>)
        requires
            (V::size() == 32 || V::size() == 64) && V::q(),
        ensures
            emits(*old(self).code, *final(self).code, if V::size() == 32 { inst::fcvtns_v4s(rd.num(), rn.num()) } else { inst::fcvtns_v2d(rd.num(), rn.num()) }, r is Ok),
            r is Err ==> r->Err_0@ == full_message(),
            *final(final(self).code) == *final(old(self).code),
    {
        self.emit(if V::size() == 32 { inst::fcvtns_v4s(rd.index(), rn.index()) } else { inst::fcvtns_v2d(rd.index(), rn.index()) })
    }

    /// `FCVTPS(Vd.T, Vn.T)` for the 4S and 2D arrangements.
    pub fn fcvtps<V: VRegArranged>(&mut self, rd: V, rn: V) -> (r: Result<(), String>)
        requires
            (V::size() == 32 || V::size() == 64) && V::q(),
        ensures
            emits(*old(self).code, *final(self).code, if V::size() == 32 { inst::fcvtps_v4s(rd.num(), rn.num()) } else { inst::fcvtps_v2d(rd.num(), rn.num()) }, r is Ok),
            r is Err ==> r->Err_0@ == full_message(),
            *final(final(self).code) == *final(old(self).code),
    {
        self.emit(if V::size() == 32 { inst::fcvtps_v4s(rd.index(), rn.index()) } else { inst::fcvtps_v2d(rd.index(), rn.index()) })
    }

    /// `FCVTMS(Vd.T, Vn.T)` for the 4S and 2D arrangements.
    pub fn fcvtms<V: VRegArranged>(&mut self, rd: V, rn: V) -> (r: Result<(), String>)
        requires
            (V::size() == 32 || V::size() == 64) && V::q(),
        ensures
            emits(*old(self).code, *final(self).code, if V::size() == 32 { inst::fcvtms_v4s(rd.num(), rn.num()) } else { inst::fcvtms_v2d(rd.num(), rn.num()) }, r is Ok),
            r is Err ==> r->Err_0@ == full_message(),
            *final(final(self).code) == *final(old(self).code),
    {
        self.emit(if V::size() == 32 { inst::fcvtms_v4s(rd.index(), rn.index()) } else { inst::fcvtms_v2d(rd.index(), rn.index()) })
    }

    /// `FCVTAS(Vd.T, Vn.T)` for the 4S and 2D arrangements.
    pub fn fcvtas<V: VRegArranged>(&mut self, rd: V, rn: V) -> (r: Result<(), String>)
        requires
            (V::size() == 32 || V::size() == 64) && V::q(),
        ensures
            emits(*old(self).code, *final(self).code, if V::size() == 32 { inst::fcvtas_v4s(rd.num(), rn.num()) } else { inst::fcvtas_v2d(rd.num(), rn.num()) }, r is Ok),
            r is Err ==> r->Err_0@ == full_message(),
            *final(final(self).code) == *final(old(self).code),
    {
        self.emit(if V::size() == 32 { inst::fcvtas_v4s(rd.index(), rn.index()) } else { inst::fcvtas_v2d(rd.index(), rn.index()) })
    }

    /// `FCVTNU(Vd.T, Vn.T)` for the 4S and 2D arrangements.
    pub fn fcvtnu<V: VRegArranged>(&mut self, rd: V, rn: V) -> (r: Result<(), String>)
        requires
            (V::size() == 32 || V::size() == 64) && V::q(),
        ensures
            emits(*old(self).code, *final(self).code, if V::size() == 32 { inst::fcvtnu_v4s(rd.num(), rn.num()) } else { inst::fcvtnu_v2d(rd.num(), rn.num()) }, r is Ok),
            r is Err ==> r->Err_0@ == full_message(),
            *final(final(self).code) == *final(old(self).code),
    {
        self.emit(if V::size() == 32 { inst::fcvtnu_v4s(rd.index(), rn.index()) } else { inst::fcvtnu_v2d(rd.index(), rn.index()) })
    }

    /// `FCVTPU(Vd.T, Vn.T)` for the 4S and 2D arrangements.
    pub fn fcvtpu<V: VRegArranged>(&mut self, rd: V, rn: V) -> (r: Result<(), String>)
        requires
            (V::size() == 32 || V::size() == 64) && V::q(),
        ensures
            emits(*old(self).code, *final(self).code, if V::size() == 32 { inst::fcvtpu_v4s(rd.num(), rn.num()) } else { inst::fcvtpu_v2d(rd.num(), rn.num()) }, r is Ok),
            r is Err ==> r->Err_0@ == full_message(),
            *final(final(self).code) == *final(old(self).code),
    {
        self.emit(if V::size() == 32 { inst::fcvtpu_v4s(rd.index(), rn.index()) } else { inst::fcvtpu_v2d(rd.index(), rn.index()) })
    }

    /// `FCVTMU(Vd.T, Vn.T)` for the 4S and 2D arrangements.
    pub fn fcvtmu<V: VRegArranged>(&mut self, rd: V, rn: V) -> (r: Result<(), String>)
        requires
            (V::size() == 32 || V::size() == 64) && V::q(),
        ensures
            emits(*old(self).code, *final(self).code, if V::size() == 32 { inst::fcvtmu_v4s(rd.num(), rn.num()) } else { inst::fcvtmu_v2d(rd.num(), rn.num()) }, r is Ok),
            r is Err ==> r->Err_0@ == full_message(),
            *final(final(self).code) == *final(old(self).code),
    {
        self.emit(if V::size() == 32 { inst::fcvtmu_v4s(rd.index(), rn.index()) } else { inst::fcvtmu_v2d(rd.index(), rn.index()) })
    }

    /// `FCVTAU(Vd.T, Vn.T)` for the 4S and 2D arrangements.
    pub fn fcvtau<V: VRegArranged>(&mut self, rd: V, rn: V) -> (r: Result<(), String>)
        requires
            (V::size() == 32 || V::size() == 64) && V::q(),
        ensures
            emits(*old(self).code, *final(self).code, if V::size() == 32 { inst::fcvtau_v4s(rd.num(), rn.num()) } else { inst::fcvtau_v2d(rd.num(), rn.num()) }, r is Ok),
            r is Err ==> r->Err_0@ == full_message(),
            *final(final(self).code) == *final(old(self).code),
    {
        self.emit(if V::size() == 32 { inst::fcvtau_v4s(rd.index(), rn.index()) } else { inst::fcvtau_v2d(rd.index(), rn.index()) })
    }

    /// `SCVTF(Vd.T, Vn.T, #fbits)` for the 4S and 2D arrangements.
    pub fn scvtf_fixed<V: VRegArranged>(&mut self, rd: V, rn: V, fbits: u8) -> (r: Result<(), String>)
        requires
            (V::size() == 32 || V::size() == 64) && V::q(),
            1 <= fbits,
            fbits <= V::size(),
        ensures
            emits(*old(self).code, *final(self).code, if V::size() == 32 { inst::scvtf_v4s_fixed(rd.num(), rn.num(), fbits) } else { inst::scvtf_v2d_fixed(rd.num(), rn.num(), fbits) }, r is Ok),
            r is Err ==> r->Err_0@ == full_message(),
            *final(final(self).code) == *final(old(self).code),
    {
        self.emit(if V::size() == 32 { inst::scvtf_v4s_fixed(rd.index(), rn.index(), fbits) } else { inst::scvtf_v2d_fixed(rd.index(), rn.index(), fbits) })
    }

    /// `UCVTF(Vd.T, Vn.T, #fbits)` for the 4S and 2D arrangements.
    pub fn ucvtf_fixed<V: VRegArranged>(&mut self, rd: V, rn: V, fbits: u8) -> (r: Result<(), String>)
        requires
            (V::size() == 32 || V::size() == 64) && V::q(),
            1 <= fbits,
            fbits <= V::size(),
        ensures
            emits(*old(self).code, *final(self).code, if V::size() == 32 { inst::ucvtf_v4s_fixed(rd.num(), rn.num(), fbits) } else { inst::ucvtf_v2d_fixed(rd.num(), rn.num(), fbits) }, r is Ok),
            r is Err ==> r->Err_0@ == full_message(),
            *final(final(self).code) == *final(old(self).code),
    {
        self.emit(if V::size() == 32 { inst::ucvtf_v4s_fixed(rd.index(), rn.index(), fbits) } else { inst::ucvtf_v2d_fixed(rd.index(), rn.index(), fbits) })
    }

    /// `FCVTZS(Vd.T, Vn.T, #fbits)` for the 4S and 2D arrangements.
    pub fn fcvtzs_fixed<V: VRegArranged>(&mut self, rd: V, rn: V, fbits: u8) -> (r: Result<(), String>)
        requires
            (V::size() == 32 || V::size() == 64) && V::q(),
            1 <= fbits,
            fbits <= V::size(),
        ensures
            emits(*old(self).code, *final(self).code, if V::size() == 32 { inst::fcvtzs_v4s_fixed(rd.num(), rn.num(), fbits) } else { inst::fcvtzs_v2d_fixed(rd.num(), rn.num(), fbits) }, r is Ok),
            r is Err ==> r->Err_0@ == full_message(),
            *final(final(self).code) == *final(old(self).code),
    {
        self.emit(if V::size() == 32 { inst::fcvtzs_v4s_fixed(rd.index(), rn.index(), fbits) } else { inst::fcvtzs_v2d_fixed(rd.index(), rn.index(), fbits) })
    }

    /// `FCVTZU(Vd.T, Vn.T, #fbits)` for the 4S and 2D arrangements.
    pub fn fcvtzu_fixed<V: VRegArranged>(&mut self, rd: V, rn: V, fbits: u8) -> (r: Result<(), String>)
        requires
            (V::size() == 32 || V::size() == 64) && V::q(),
            1 <= fbits,
            fbits <= V::size(),
        ensures
            emits(*old(self).code, *final(self).code, if V::size() == 32 { inst::fcvtzu_v4s_fixed(rd.num(), rn.num(), fbits) } else { inst::fcvtzu_v2d_fixed(rd.num(), rn.num(), fbits) }, r is Ok),
            r is Err ==> r->Err_0@ == full_message(),
            *final(final(self).code) == *final(old(self).code),
    {
        self.emit(if V::size() == 32 { inst::fcvtzu_v4s_fixed(rd.index(), rn.index(), fbits) } else { inst::fcvtzu_v2d_fixed(rd.index(), rn.index(), fbits) })
    }

    /// `FCVTL(Vd.4S, Vn.4H)`.
    pub fn fcvtl(&mut self, rd: VReg4S, rn: VReg4H) -> (r: Result<(), String>)
        ensures
            emits(*old(self).code, *final(self).code, inst::fcvtl_v4s_from_v4h(rd.num(), rn.num()), r is Ok),
            r is Err ==> r->Err_0@ == full_message(),
            *final(final(self).code) == *final(old(self).code),
    {
        self.emit(inst::fcvtl_v4s_from_v4h(rd.index(), rn.index()))
    }

    /// `FCVTN(Vd.4H, Vn.4S)`.
    pub fn fcvtn(&mut self, rd: VReg4H, rn: VReg4S) -> (r: Result<(), String>)
        ensures
            emits(*old(self).code, *final(self).code, inst::fcvtn_v4h_from_v4s(rd.num(), rn.num()), r is Ok),
            r is Err ==> r->Err_0@ == full_message(),
            *final(final(self).code) == *final(old(self).code),
    {
        self.emit(inst::fcvtn_v4h_from_v4s(rd.index(), rn.index()))
    }

    /// `FADDP(Dd, Vn.2D)`, the scalar pairwise form.
    pub fn faddp_scalar(&mut self, rd: DReg, rn: VReg2D) -> (r: Result<(), String>)
        ensures
            emits(*old(self).code, *final(self).code, inst::faddp_d_from_v2d(rd.num(), rn.num()), r is Ok),
            r is Err ==> r->Err_0@ == full_message(),
            *final(final(self).code) == *final(old(self).code),
    {
        self.emit(inst::faddp_d_from_v2d(rd.index(), rn.index()))
    }
}

} // verus!
