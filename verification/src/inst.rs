//! Instruction encoders: each function returns the 32-bit word of one
//! AArch64 instruction.
//!
//! A word is an opcode pattern with operand fields placed into it. The
//! field layouts are the templates below (`rrr`, `rr`, `rrrr`, `place`,
//! `vec_rrr`, ...); every encoder states its word as one template applied
//! to its opcode pattern and operands, so the contracts read like the
//! encoding tables of the architecture manual.

use crate::cond::Cond;
use vstd::prelude::*;

verus! {

/// `v` shifted to bit `lsb`.
#[verifier::allow_in_spec]
pub fn place(v: u32, lsb: u32) -> u32
    requires
        lsb < 32,
    returns
        v << lsb,
{
    v << lsb
}

/// Registers `Rd` in [4:0] and `Rn` in [9:5] over `base`.
#[verifier::allow_in_spec]
pub fn rr(base: u32, rd: u8, rn: u8) -> u32
    returns
        base | ((rn as u32) << 5u32) | (rd as u32),
{
    base | ((rn as u32) << 5u32) | (rd as u32)
}

/// Registers `Rd` in [4:0], `Rn` in [9:5] and `Rm` in [20:16] over `base`.
#[verifier::allow_in_spec]
pub fn rrr(base: u32, rd: u8, rn: u8, rm: u8) -> u32
    returns
        base | ((rm as u32) << 16u32) | ((rn as u32) << 5u32) | (rd as u32),
{
    base | ((rm as u32) << 16u32) | ((rn as u32) << 5u32) | (rd as u32)
}

/// Registers `Rd` in [4:0], `Rn` in [9:5], `Ra` in [14:10] and `Rm` in
/// [20:16] over `base`.
#[verifier::allow_in_spec]
pub fn rrrr(base: u32, rd: u8, rn: u8, rm: u8, ra: u8) -> u32
    returns
        base | ((rm as u32) << 16u32) | ((ra as u32) << 10u32) | ((rn as u32) << 5u32) | (rd as u32),
{
    base | ((rm as u32) << 16u32) | ((ra as u32) << 10u32) | ((rn as u32) << 5u32) | (rd as u32)
}

/// The vector `size` field for lanes of `esize` bits: 0 for 8 through 3
/// for 64.
#[verifier::allow_in_spec]
pub fn size_field(esize: u8) -> u32
    returns
        if esize == 8 {
            0u32
        } else if esize == 16 {
            1u32
        } else if esize == 32 {
            2u32
        } else {
            3u32
        },
{
    if esize == 8 {
        0
    } else if esize == 16 {
        1
    } else if esize == 32 {
        2
    } else {
        3
    }
}

/// The `Q` bit (bit 30) of a vector instruction.
#[verifier::allow_in_spec]
pub fn q_field(q: bool) -> u32
    returns
        if q {
            0x4000_0000u32
        } else {
            0u32
        },
{
    if q {
        0x4000_0000
    } else {
        0
    }
}

/// A lane size the vector encoders accept: 8, 16, 32 or 64 bits.
pub open spec fn lane_size(esize: u8) -> bool {
    esize == 8 || esize == 16 || esize == 32 || esize == 64
}

/// An arrangement the vector encoders accept: any lane size, where 64-bit
/// lanes need the full 128-bit register (`1D` is reserved).
pub open spec fn arrangement(esize: u8, q: bool) -> bool {
    lane_size(esize) && (esize != 64 || q)
}

/// Three-register vector form: `Q` in bit 30, `size` in [23:22] and the
/// registers as in `rrr`.
#[verifier::allow_in_spec]
pub fn vec_rrr(base: u32, rd: u8, rn: u8, rm: u8, esize: u8, q: bool) -> u32
    returns
        base | q_field(q) | (size_field(esize) << 22u32) | ((rm as u32) << 16u32) | ((rn as u32) << 5u32) | (rd as u32),
{
    base | q_field(q) | (size_field(esize) << 22u32) | ((rm as u32) << 16u32) | ((rn as u32) << 5u32) | (rd as u32)
}

/// Two-register vector form: `Q` in bit 30, `size` in [23:22] and the
/// registers as in `rr`.
#[verifier::allow_in_spec]
pub fn vec_rr(base: u32, rd: u8, rn: u8, esize: u8, q: bool) -> u32
    returns
        base | q_field(q) | (size_field(esize) << 22u32) | ((rn as u32) << 5u32) | (rd as u32),
{
    base | q_field(q) | (size_field(esize) << 22u32) | ((rn as u32) << 5u32) | (rd as u32)
}


/// `ADD Wd, Wn, Wm`.
#[verifier::allow_in_spec]
pub fn add_w_reg(rd: u8, rn: u8, rm: u8) -> u32
    requires
        rd < 32,
        rn < 32,
        rm < 32,
    returns
        rrr(0x0b00_0000, rd, rn, rm),
{
    rrr(0x0b00_0000, rd, rn, rm)
}

/// `ADD Xd, Xn, Xm`.
#[verifier::allow_in_spec]
pub fn add_x_reg(rd: u8, rn: u8, rm: u8) -> u32
    requires
        rd < 32,
        rn < 32,
        rm < 32,
    returns
        rrr(0x8b00_0000, rd, rn, rm),
{
    rrr(0x8b00_0000, rd, rn, rm)
}

/// `ADDS Wd, Wn, Wm`.
#[verifier::allow_in_spec]
pub fn adds_w_reg(rd: u8, rn: u8, rm: u8) -> u32
    requires
        rd < 32,
        rn < 32,
        rm < 32,
    returns
        rrr(0x2b00_0000, rd, rn, rm),
{
    rrr(0x2b00_0000, rd, rn, rm)
}

/// `ADDS Xd, Xn, Xm`.
#[verifier::allow_in_spec]
pub fn adds_x_reg(rd: u8, rn: u8, rm: u8) -> u32
    requires
        rd < 32,
        rn < 32,
        rm < 32,
    returns
        rrr(0xab00_0000, rd, rn, rm),
{
    rrr(0xab00_0000, rd, rn, rm)
}

/// `SUB Wd, Wn, Wm`.
#[verifier::allow_in_spec]
pub fn sub_w_reg(rd: u8, rn: u8, rm: u8) -> u32
    requires
        rd < 32,
        rn < 32,
        rm < 32,
    returns
        rrr(0x4b00_0000, rd, rn, rm),
{
    rrr(0x4b00_0000, rd, rn, rm)
}

/// `SUB Xd, Xn, Xm`.
#[verifier::allow_in_spec]
pub fn sub_x_reg(rd: u8, rn: u8, rm: u8) -> u32
    requires
        rd < 32,
        rn < 32,
        rm < 32,
    returns
        rrr(0xcb00_0000, rd, rn, rm),
{
    rrr(0xcb00_0000, rd, rn, rm)
}

/// `SUBS Wd, Wn, Wm`.
#[verifier::allow_in_spec]
pub fn subs_w_reg(rd: u8, rn: u8, rm: u8) -> u32
    requires
        rd < 32,
        rn < 32,
        rm < 32,
    returns
        rrr(0x6b00_0000, rd, rn, rm),
{
    rrr(0x6b00_0000, rd, rn, rm)
}

/// `SUBS Xd, Xn, Xm`.
#[verifier::allow_in_spec]
pub fn subs_x_reg(rd: u8, rn: u8, rm: u8) -> u32
    requires
        rd < 32,
        rn < 32,
        rm < 32,
    returns
        rrr(0xeb00_0000, rd, rn, rm),
{
    rrr(0xeb00_0000, rd, rn, rm)
}

/// `AND Wd, Wn, Wm`.
#[verifier::allow_in_spec]
pub fn and_w_reg(rd: u8, rn: u8, rm: u8) -> u32
    requires
        rd < 32,
        rn < 32,
        rm < 32,
    returns
        rrr(0x0a00_0000, rd, rn, rm),
{
    rrr(0x0a00_0000, rd, rn, rm)
}

/// `AND Xd, Xn, Xm`.
#[verifier::allow_in_spec]
pub fn and_x_reg(rd: u8, rn: u8, rm: u8) -> u32
    requires
        rd < 32,
        rn < 32,
        rm < 32,
    returns
        rrr(0x8a00_0000, rd, rn, rm),
{
    rrr(0x8a00_0000, rd, rn, rm)
}

/// `ORR Wd, Wn, Wm`.
#[verifier::allow_in_spec]
pub fn orr_w(rd: u8, rn: u8, rm: u8) -> u32
    requires
        rd < 32,
        rn < 32,
        rm < 32,
    returns
        rrr(0x2a00_0000, rd, rn, rm),
{
    rrr(0x2a00_0000, rd, rn, rm)
}

/// `ORR Xd, Xn, Xm`.
#[verifier::allow_in_spec]
pub fn orr_x(rd: u8, rn: u8, rm: u8) -> u32
    requires
        rd < 32,
        rn < 32,
        rm < 32,
    returns
        rrr(0xaa00_0000, rd, rn, rm),
{
    rrr(0xaa00_0000, rd, rn, rm)
}

/// `EOR Wd, Wn, Wm`.
#[verifier::allow_in_spec]
pub fn eor_w_reg(rd: u8, rn: u8, rm: u8) -> u32
    requires
        rd < 32,
        rn < 32,
        rm < 32,
    returns
        rrr(0x4a00_0000, rd, rn, rm),
{
    rrr(0x4a00_0000, rd, rn, rm)
}

/// `EOR Xd, Xn, Xm`.
#[verifier::allow_in_spec]
pub fn eor_x_reg(rd: u8, rn: u8, rm: u8) -> u32
    requires
        rd < 32,
        rn < 32,
        rm < 32,
    returns
        rrr(0xca00_0000, rd, rn, rm),
{
    rrr(0xca00_0000, rd, rn, rm)
}

/// `ANDS Wd, Wn, Wm`.
#[verifier::allow_in_spec]
pub fn ands_w_reg(rd: u8, rn: u8, rm: u8) -> u32
    requires
        rd < 32,
        rn < 32,
        rm < 32,
    returns
        rrr(0x6a00_0000, rd, rn, rm),
{
    rrr(0x6a00_0000, rd, rn, rm)
}

/// `ANDS Xd, Xn, Xm`.
#[verifier::allow_in_spec]
pub fn ands_x_reg(rd: u8, rn: u8, rm: u8) -> u32
    requires
        rd < 32,
        rn < 32,
        rm < 32,
    returns
        rrr(0xea00_0000, rd, rn, rm),
{
    rrr(0xea00_0000, rd, rn, rm)
}

/// `BIC Wd, Wn, Wm`.
#[verifier::allow_in_spec]
pub fn bic_w(rd: u8, rn: u8, rm: u8) -> u32
    requires
        rd < 32,
        rn < 32,
        rm < 32,
    returns
        rrr(0x0a20_0000, rd, rn, rm),
{
    rrr(0x0a20_0000, rd, rn, rm)
}

/// `BIC Xd, Xn, Xm`.
#[verifier::allow_in_spec]
pub fn bic_x(rd: u8, rn: u8, rm: u8) -> u32
    requires
        rd < 32,
        rn < 32,
        rm < 32,
    returns
        rrr(0x8a20_0000, rd, rn, rm),
{
    rrr(0x8a20_0000, rd, rn, rm)
}

/// `BICS Wd, Wn, Wm`.
#[verifier::allow_in_spec]
pub fn bics_w(rd: u8, rn: u8, rm: u8) -> u32
    requires
        rd < 32,
        rn < 32,
        rm < 32,
    returns
        rrr(0x6a20_0000, rd, rn, rm),
{
    rrr(0x6a20_0000, rd, rn, rm)
}

/// `BICS Xd, Xn, Xm`.
#[verifier::allow_in_spec]
pub fn bics_x(rd: u8, rn: u8, rm: u8) -> u32
    requires
        rd < 32,
        rn < 32,
        rm < 32,
    returns
        rrr(0xea20_0000, rd, rn, rm),
{
    rrr(0xea20_0000, rd, rn, rm)
}

/// `ADC Wd, Wn, Wm`.
#[verifier::allow_in_spec]
pub fn adc_w(rd: u8, rn: u8, rm: u8) -> u32
    requires
        rd < 32,
        rn < 32,
        rm < 32,
    returns
        rrr(0x1a00_0000, rd, rn, rm),
{
    rrr(0x1a00_0000, rd, rn, rm)
}

/// `ADC Xd, Xn, Xm`.
#[verifier::allow_in_spec]
pub fn adc_x(rd: u8, rn: u8, rm: u8) -> u32
    requires
        rd < 32,
        rn < 32,
        rm < 32,
    returns
        rrr(0x9a00_0000, rd, rn, rm),
{
    rrr(0x9a00_0000, rd, rn, rm)
}

/// `ADCS Wd, Wn, Wm`.
#[verifier::allow_in_spec]
pub fn adcs_w(rd: u8, rn: u8, rm: u8) -> u32
    requires
        rd < 32,
        rn < 32,
        rm < 32,
    returns
        rrr(0x3a00_0000, rd, rn, rm),
{
    rrr(0x3a00_0000, rd, rn, rm)
}

/// `ADCS Xd, Xn, Xm`.
#[verifier::allow_in_spec]
pub fn adcs_x(rd: u8, rn: u8, rm: u8) -> u32
    requires
        rd < 32,
        rn < 32,
        rm < 32,
    returns
        rrr(0xba00_0000, rd, rn, rm),
{
    rrr(0xba00_0000, rd, rn, rm)
}

/// `SBC Wd, Wn, Wm`.
#[verifier::allow_in_spec]
pub fn sbc_w(rd: u8, rn: u8, rm: u8) -> u32
    requires
        rd < 32,
        rn < 32,
        rm < 32,
    returns
        rrr(0x5a00_0000, rd, rn, rm),
{
    rrr(0x5a00_0000, rd, rn, rm)
}

/// `SBC Xd, Xn, Xm`.
#[verifier::allow_in_spec]
pub fn sbc_x(rd: u8, rn: u8, rm: u8) -> u32
    requires
        rd < 32,
        rn < 32,
        rm < 32,
    returns
        rrr(0xda00_0000, rd, rn, rm),
{
    rrr(0xda00_0000, rd, rn, rm)
}

/// `SBCS Wd, Wn, Wm`.
#[verifier::allow_in_spec]
pub fn sbcs_w(rd: u8, rn: u8, rm: u8) -> u32
    requires
        rd < 32,
        rn < 32,
        rm < 32,
    returns
        rrr(0x7a00_0000, rd, rn, rm),
{
    rrr(0x7a00_0000, rd, rn, rm)
}

/// `SBCS Xd, Xn, Xm`.
#[verifier::allow_in_spec]
pub fn sbcs_x(rd: u8, rn: u8, rm: u8) -> u32
    requires
        rd < 32,
        rn < 32,
        rm < 32,
    returns
        rrr(0xfa00_0000, rd, rn, rm),
{
    rrr(0xfa00_0000, rd, rn, rm)
}

/// `MUL Wd, Wn, Wm (MADD with WZR)`.
#[verifier::allow_in_spec]
pub fn mul_w(rd: u8, rn: u8, rm: u8) -> u32
    requires
        rd < 32,
        rn < 32,
        rm < 32,
    returns
        rrr(0x1b00_7c00, rd, rn, rm),
{
    rrr(0x1b00_7c00, rd, rn, rm)
}

/// `MUL Xd, Xn, Xm (MADD with XZR)`.
#[verifier::allow_in_spec]
pub fn mul_x(rd: u8, rn: u8, rm: u8) -> u32
    requires
        rd < 32,
        rn < 32,
        rm < 32,
    returns
        rrr(0x9b00_7c00, rd, rn, rm),
{
    rrr(0x9b00_7c00, rd, rn, rm)
}

/// `SDIV Wd, Wn, Wm`.
#[verifier::allow_in_spec]
pub fn sdiv_w(rd: u8, rn: u8, rm: u8) -> u32
    requires
        rd < 32,
        rn < 32,
        rm < 32,
    returns
        rrr(0x1ac0_0c00, rd, rn, rm),
{
    rrr(0x1ac0_0c00, rd, rn, rm)
}

/// `SDIV Xd, Xn, Xm`.
#[verifier::allow_in_spec]
pub fn sdiv_x(rd: u8, rn: u8, rm: u8) -> u32
    requires
        rd < 32,
        rn < 32,
        rm < 32,
    returns
        rrr(0x9ac0_0c00, rd, rn, rm),
{
    rrr(0x9ac0_0c00, rd, rn, rm)
}

/// `UDIV Wd, Wn, Wm`.
#[verifier::allow_in_spec]
pub fn udiv_w(rd: u8, rn: u8, rm: u8) -> u32
    requires
        rd < 32,
        rn < 32,
        rm < 32,
    returns
        rrr(0x1ac0_0800, rd, rn, rm),
{
    rrr(0x1ac0_0800, rd, rn, rm)
}

/// `UDIV Xd, Xn, Xm`.
#[verifier::allow_in_spec]
pub fn udiv_x(rd: u8, rn: u8, rm: u8) -> u32
    requires
        rd < 32,
        rn < 32,
        rm < 32,
    returns
        rrr(0x9ac0_0800, rd, rn, rm),
{
    rrr(0x9ac0_0800, rd, rn, rm)
}

/// `LSLV Wd, Wn, Wm`.
#[verifier::allow_in_spec]
pub fn lslv_w(rd: u8, rn: u8, rm: u8) -> u32
    requires
        rd < 32,
        rn < 32,
        rm < 32,
    returns
        rrr(0x1ac0_2000, rd, rn, rm),
{
    rrr(0x1ac0_2000, rd, rn, rm)
}

/// `LSLV Xd, Xn, Xm`.
#[verifier::allow_in_spec]
pub fn lslv_x(rd: u8, rn: u8, rm: u8) -> u32
    requires
        rd < 32,
        rn < 32,
        rm < 32,
    returns
        rrr(0x9ac0_2000, rd, rn, rm),
{
    rrr(0x9ac0_2000, rd, rn, rm)
}

/// `LSRV Wd, Wn, Wm`.
#[verifier::allow_in_spec]
pub fn lsrv_w(rd: u8, rn: u8, rm: u8) -> u32
    requires
        rd < 32,
        rn < 32,
        rm < 32,
    returns
        rrr(0x1ac0_2400, rd, rn, rm),
{
    rrr(0x1ac0_2400, rd, rn, rm)
}

/// `LSRV Xd, Xn, Xm`.
#[verifier::allow_in_spec]
pub fn lsrv_x(rd: u8, rn: u8, rm: u8) -> u32
    requires
        rd < 32,
        rn < 32,
        rm < 32,
    returns
        rrr(0x9ac0_2400, rd, rn, rm),
{
    rrr(0x9ac0_2400, rd, rn, rm)
}

/// `ASRV Wd, Wn, Wm`.
#[verifier::allow_in_spec]
pub fn asrv_w(rd: u8, rn: u8, rm: u8) -> u32
    requires
        rd < 32,
        rn < 32,
        rm < 32,
    returns
        rrr(0x1ac0_2800, rd, rn, rm),
{
    rrr(0x1ac0_2800, rd, rn, rm)
}

/// `ASRV Xd, Xn, Xm`.
#[verifier::allow_in_spec]
pub fn asrv_x(rd: u8, rn: u8, rm: u8) -> u32
    requires
        rd < 32,
        rn < 32,
        rm < 32,
    returns
        rrr(0x9ac0_2800, rd, rn, rm),
{
    rrr(0x9ac0_2800, rd, rn, rm)
}

/// `RORV Wd, Wn, Wm`.
#[verifier::allow_in_spec]
pub fn rorv_w(rd: u8, rn: u8, rm: u8) -> u32
    requires
        rd < 32,
        rn < 32,
        rm < 32,
    returns
        rrr(0x1ac0_2c00, rd, rn, rm),
{
    rrr(0x1ac0_2c00, rd, rn, rm)
}

/// `RORV Xd, Xn, Xm`.
#[verifier::allow_in_spec]
pub fn rorv_x(rd: u8, rn: u8, rm: u8) -> u32
    requires
        rd < 32,
        rn < 32,
        rm < 32,
    returns
        rrr(0x9ac0_2c00, rd, rn, rm),
{
    rrr(0x9ac0_2c00, rd, rn, rm)
}

/// `SMULH Xd, Xn, Xm`.
#[verifier::allow_in_spec]
pub fn smulh_x(rd: u8, rn: u8, rm: u8) -> u32
    requires
        rd < 32,
        rn < 32,
        rm < 32,
    returns
        rrr(0x9b40_7c00, rd, rn, rm),
{
    rrr(0x9b40_7c00, rd, rn, rm)
}

/// `UMULH Xd, Xn, Xm`.
#[verifier::allow_in_spec]
pub fn umulh_x(rd: u8, rn: u8, rm: u8) -> u32
    requires
        rd < 32,
        rn < 32,
        rm < 32,
    returns
        rrr(0x9bc0_7c00, rd, rn, rm),
{
    rrr(0x9bc0_7c00, rd, rn, rm)
}

/// `CRC32B Wd, Wn, Wm`.
#[verifier::allow_in_spec]
pub fn crc32b_w(rd: u8, rn: u8, rm: u8) -> u32
    requires
        rd < 32,
        rn < 32,
        rm < 32,
    returns
        rrr(0x1ac0_4000, rd, rn, rm),
{
    rrr(0x1ac0_4000, rd, rn, rm)
}

/// `CRC32H Wd, Wn, Wm`.
#[verifier::allow_in_spec]
pub fn crc32h_w(rd: u8, rn: u8, rm: u8) -> u32
    requires
        rd < 32,
        rn < 32,
        rm < 32,
    returns
        rrr(0x1ac0_4400, rd, rn, rm),
{
    rrr(0x1ac0_4400, rd, rn, rm)
}

/// `CRC32W Wd, Wn, Wm`.
#[verifier::allow_in_spec]
pub fn crc32w_w(rd: u8, rn: u8, rm: u8) -> u32
    requires
        rd < 32,
        rn < 32,
        rm < 32,
    returns
        rrr(0x1ac0_4800, rd, rn, rm),
{
    rrr(0x1ac0_4800, rd, rn, rm)
}

/// `CRC32X Wd, Wn, Xm`.
#[verifier::allow_in_spec]
pub fn crc32x_x(rd: u8, rn: u8, rm: u8) -> u32
    requires
        rd < 32,
        rn < 32,
        rm < 32,
    returns
        rrr(0x9ac0_4c00, rd, rn, rm),
{
    rrr(0x9ac0_4c00, rd, rn, rm)
}

/// `CRC32CB Wd, Wn, Wm`.
#[verifier::allow_in_spec]
pub fn crc32cb_w(rd: u8, rn: u8, rm: u8) -> u32
    requires
        rd < 32,
        rn < 32,
        rm < 32,
    returns
        rrr(0x1ac0_5000, rd, rn, rm),
{
    rrr(0x1ac0_5000, rd, rn, rm)
}

/// `CRC32CH Wd, Wn, Wm`.
#[verifier::allow_in_spec]
pub fn crc32ch_w(rd: u8, rn: u8, rm: u8) -> u32
    requires
        rd < 32,
        rn < 32,
        rm < 32,
    returns
        rrr(0x1ac0_5400, rd, rn, rm),
{
    rrr(0x1ac0_5400, rd, rn, rm)
}

/// `CRC32CW Wd, Wn, Wm`.
#[verifier::allow_in_spec]
pub fn crc32cw_w(rd: u8, rn: u8, rm: u8) -> u32
    requires
        rd < 32,
        rn < 32,
        rm < 32,
    returns
        rrr(0x1ac0_5800, rd, rn, rm),
{
    rrr(0x1ac0_5800, rd, rn, rm)
}

/// `CRC32CX Wd, Wn, Xm`.
#[verifier::allow_in_spec]
pub fn crc32cx_x(rd: u8, rn: u8, rm: u8) -> u32
    requires
        rd < 32,
        rn < 32,
        rm < 32,
    returns
        rrr(0x9ac0_5c00, rd, rn, rm),
{
    rrr(0x9ac0_5c00, rd, rn, rm)
}

/// `SHA256H Qd, Qn, Vm.4S`.
#[verifier::allow_in_spec]
pub fn sha256h_q(rd: u8, rn: u8, rm: u8) -> u32
    requires
        rd < 32,
        rn < 32,
        rm < 32,
    returns
        rrr(0x5e00_4000, rd, rn, rm),
{
    rrr(0x5e00_4000, rd, rn, rm)
}

/// `SHA256H2 Qd, Qn, Vm.4S`.
#[verifier::allow_in_spec]
pub fn sha256h2_q(rd: u8, rn: u8, rm: u8) -> u32
    requires
        rd < 32,
        rn < 32,
        rm < 32,
    returns
        rrr(0x5e00_5000, rd, rn, rm),
{
    rrr(0x5e00_5000, rd, rn, rm)
}

/// `SHA256SU1 Vd.4S, Vn.4S, Vm.4S`.
#[verifier::allow_in_spec]
pub fn sha256su1_v4s(rd: u8, rn: u8, rm: u8) -> u32
    requires
        rd < 32,
        rn < 32,
        rm < 32,
    returns
        rrr(0x5e00_6000, rd, rn, rm),
{
    rrr(0x5e00_6000, rd, rn, rm)
}

/// `CLZ Wd, Wn`.
#[verifier::allow_in_spec]
pub fn clz_w(rd: u8, rn: u8) -> u32
    requires
        rd < 32,
        rn < 32,
    returns
        rr(0x5ac0_1000, rd, rn),
{
    rr(0x5ac0_1000, rd, rn)
}

/// `CLZ Xd, Xn`.
#[verifier::allow_in_spec]
pub fn clz_x(rd: u8, rn: u8) -> u32
    requires
        rd < 32,
        rn < 32,
    returns
        rr(0xdac0_1000, rd, rn),
{
    rr(0xdac0_1000, rd, rn)
}

/// `REV Wd, Wn`.
#[verifier::allow_in_spec]
pub fn rev_w(rd: u8, rn: u8) -> u32
    requires
        rd < 32,
        rn < 32,
    returns
        rr(0x5ac0_0800, rd, rn),
{
    rr(0x5ac0_0800, rd, rn)
}

/// `REV Xd, Xn`.
#[verifier::allow_in_spec]
pub fn rev_x(rd: u8, rn: u8) -> u32
    requires
        rd < 32,
        rn < 32,
    returns
        rr(0xdac0_0c00, rd, rn),
{
    rr(0xdac0_0c00, rd, rn)
}

/// `REV16 Wd, Wn`.
#[verifier::allow_in_spec]
pub fn rev16_w(rd: u8, rn: u8) -> u32
    requires
        rd < 32,
        rn < 32,
    returns
        rr(0x5ac0_0400, rd, rn),
{
    rr(0x5ac0_0400, rd, rn)
}

/// `SXTB Wd, Wn (SBFM #0, #7)`.
#[verifier::allow_in_spec]
pub fn sxtb_w(rd: u8, rn: u8) -> u32
    requires
        rd < 32,
        rn < 32,
    returns
        rr(0x1300_1c00, rd, rn),
{
    rr(0x1300_1c00, rd, rn)
}

/// `SXTB Xd, Wn (SBFM #0, #7)`.
#[verifier::allow_in_spec]
pub fn sxtb_x(rd: u8, rn: u8) -> u32
    requires
        rd < 32,
        rn < 32,
    returns
        rr(0x9340_1c00, rd, rn),
{
    rr(0x9340_1c00, rd, rn)
}

/// `SXTH Wd, Wn (SBFM #0, #15)`.
#[verifier::allow_in_spec]
pub fn sxth_w(rd: u8, rn: u8) -> u32
    requires
        rd < 32,
        rn < 32,
    returns
        rr(0x1300_3c00, rd, rn),
{
    rr(0x1300_3c00, rd, rn)
}

/// `SXTH Xd, Wn (SBFM #0, #15)`.
#[verifier::allow_in_spec]
pub fn sxth_x(rd: u8, rn: u8) -> u32
    requires
        rd < 32,
        rn < 32,
    returns
        rr(0x9340_3c00, rd, rn),
{
    rr(0x9340_3c00, rd, rn)
}

/// `SXTW Xd, Wn (SBFM #0, #31)`.
#[verifier::allow_in_spec]
pub fn sxtw_x(rd: u8, rn: u8) -> u32
    requires
        rd < 32,
        rn < 32,
    returns
        rr(0x9340_7c00, rd, rn),
{
    rr(0x9340_7c00, rd, rn)
}

/// `AESE Vd.16B, Vn.16B`.
#[verifier::allow_in_spec]
pub fn aese_v16b(rd: u8, rn: u8) -> u32
    requires
        rd < 32,
        rn < 32,
    returns
        rr(0x4e28_4800, rd, rn),
{
    rr(0x4e28_4800, rd, rn)
}

/// `AESD Vd.16B, Vn.16B`.
#[verifier::allow_in_spec]
pub fn aesd_v16b(rd: u8, rn: u8) -> u32
    requires
        rd < 32,
        rn < 32,
    returns
        rr(0x4e28_5800, rd, rn),
{
    rr(0x4e28_5800, rd, rn)
}

/// `AESMC Vd.16B, Vn.16B`.
#[verifier::allow_in_spec]
pub fn aesmc_v16b(rd: u8, rn: u8) -> u32
    requires
        rd < 32,
        rn < 32,
    returns
        rr(0x4e28_6800, rd, rn),
{
    rr(0x4e28_6800, rd, rn)
}

/// `AESIMC Vd.16B, Vn.16B`.
#[verifier::allow_in_spec]
pub fn aesimc_v16b(rd: u8, rn: u8) -> u32
    requires
        rd < 32,
        rn < 32,
    returns
        rr(0x4e28_7800, rd, rn),
{
    rr(0x4e28_7800, rd, rn)
}

/// `SHA256SU0 Vd.4S, Vn.4S`.
#[verifier::allow_in_spec]
pub fn sha256su0_v4s(rd: u8, rn: u8) -> u32
    requires
        rd < 32,
        rn < 32,
    returns
        rr(0x5e28_2800, rd, rn),
{
    rr(0x5e28_2800, rd, rn)
}

/// `FMOV Sd, Sn`.
#[verifier::allow_in_spec]
pub fn fmov_s(rd: u8, rn: u8) -> u32
    requires
        rd < 32,
        rn < 32,
    returns
        rr(0x1e20_4000, rd, rn),
{
    rr(0x1e20_4000, rd, rn)
}

/// `FMOV Dd, Dn`.
#[verifier::allow_in_spec]
pub fn fmov_d(rd: u8, rn: u8) -> u32
    requires
        rd < 32,
        rn < 32,
    returns
        rr(0x1e60_4000, rd, rn),
{
    rr(0x1e60_4000, rd, rn)
}

/// `FMOV Xd, Dn`.
#[verifier::allow_in_spec]
pub fn fmov_x_from_d(rd: u8, rn: u8) -> u32
    requires
        rd < 32,
        rn < 32,
    returns
        rr(0x9e66_0000, rd, rn),
{
    rr(0x9e66_0000, rd, rn)
}

/// `FMOV Dd, Xn`.
#[verifier::allow_in_spec]
pub fn fmov_d_from_x(rd: u8, rn: u8) -> u32
    requires
        rd < 32,
        rn < 32,
    returns
        rr(0x9e67_0000, rd, rn),
{
    rr(0x9e67_0000, rd, rn)
}

/// `FCVTL Vd.4S, Vn.4H`.
#[verifier::allow_in_spec]
pub fn fcvtl_v4s_from_v4h(rd: u8, rn: u8) -> u32
    requires
        rd < 32,
        rn < 32,
    returns
        rr(0x0e21_7800, rd, rn),
{
    rr(0x0e21_7800, rd, rn)
}

/// `FCVTN Vd.4H, Vn.4S`.
#[verifier::allow_in_spec]
pub fn fcvtn_v4h_from_v4s(rd: u8, rn: u8) -> u32
    requires
        rd < 32,
        rn < 32,
    returns
        rr(0x0e21_6800, rd, rn),
{
    rr(0x0e21_6800, rd, rn)
}

/// `FADDP Dd, Vn.2D`.
#[verifier::allow_in_spec]
pub fn faddp_d_from_v2d(rd: u8, rn: u8) -> u32
    requires
        rd < 32,
        rn < 32,
    returns
        rr(0x7e70_d800, rd, rn),
{
    rr(0x7e70_d800, rd, rn)
}

/// `ADDP Dd, Vn.2D`.
#[verifier::allow_in_spec]
pub fn addp_d_from_v2d(rd: u8, rn: u8) -> u32
    requires
        rd < 32,
        rn < 32,
    returns
        rr(0x5ef1_b800, rd, rn),
{
    rr(0x5ef1_b800, rd, rn)
}

/// `NOT Vd.16B, Vn.16B`.
#[verifier::allow_in_spec]
pub fn not_v16b(rd: u8, rn: u8) -> u32
    requires
        rd < 32,
        rn < 32,
    returns
        rr(0x6e20_5800, rd, rn),
{
    rr(0x6e20_5800, rd, rn)
}

/// `CNT Vd.16B, Vn.16B`.
#[verifier::allow_in_spec]
pub fn cnt_v16b(rd: u8, rn: u8) -> u32
    requires
        rd < 32,
        rn < 32,
    returns
        rr(0x4e20_5800, rd, rn),
{
    rr(0x4e20_5800, rd, rn)
}

/// `RBIT Vd.16B, Vn.16B`.
#[verifier::allow_in_spec]
pub fn rbit_v16b(rd: u8, rn: u8) -> u32
    requires
        rd < 32,
        rn < 32,
    returns
        rr(0x6e60_5800, rd, rn),
{
    rr(0x6e60_5800, rd, rn)
}

/// `REV16 Vd.16B, Vn.16B`.
#[verifier::allow_in_spec]
pub fn rev16_v16b(rd: u8, rn: u8) -> u32
    requires
        rd < 32,
        rn < 32,
    returns
        rr(0x4e20_1800, rd, rn),
{
    rr(0x4e20_1800, rd, rn)
}

/// `URECPE Vd.4S, Vn.4S`.
#[verifier::allow_in_spec]
pub fn urecpe_v4s(rd: u8, rn: u8) -> u32
    requires
        rd < 32,
        rn < 32,
    returns
        rr(0x4ea1_c800, rd, rn),
{
    rr(0x4ea1_c800, rd, rn)
}

/// `URSQRTE Vd.4S, Vn.4S`.
#[verifier::allow_in_spec]
pub fn ursqrte_v4s(rd: u8, rn: u8) -> u32
    requires
        rd < 32,
        rn < 32,
    returns
        rr(0x6ea1_c800, rd, rn),
{
    rr(0x6ea1_c800, rd, rn)
}

/// `MOV Vd.D[1], Vn.D[0] (INS element)`.
#[verifier::allow_in_spec]
pub fn mov_v_d1_from_v_d0(rd: u8, rn: u8) -> u32
    requires
        rd < 32,
        rn < 32,
    returns
        rr(0x6e18_0400, rd, rn),
{
    rr(0x6e18_0400, rd, rn)
}

/// `LDAR Wt, [Xn|SP]`.
#[verifier::allow_in_spec]
pub fn ldar_w(rd: u8, rn: u8) -> u32
    requires
        rd < 32,
        rn < 32,
    returns
        rr(0x88df_fc00, rd, rn),
{
    rr(0x88df_fc00, rd, rn)
}

/// `LDAR Xt, [Xn|SP]`.
#[verifier::allow_in_spec]
pub fn ldar_x(rd: u8, rn: u8) -> u32
    requires
        rd < 32,
        rn < 32,
    returns
        rr(0xc8df_fc00, rd, rn),
{
    rr(0xc8df_fc00, rd, rn)
}

/// `LDARB Wt, [Xn|SP]`.
#[verifier::allow_in_spec]
pub fn ldarb_w(rd: u8, rn: u8) -> u32
    requires
        rd < 32,
        rn < 32,
    returns
        rr(0x08df_fc00, rd, rn),
{
    rr(0x08df_fc00, rd, rn)
}

/// `LDARH Wt, [Xn|SP]`.
#[verifier::allow_in_spec]
pub fn ldarh_w(rd: u8, rn: u8) -> u32
    requires
        rd < 32,
        rn < 32,
    returns
        rr(0x48df_fc00, rd, rn),
{
    rr(0x48df_fc00, rd, rn)
}

/// `STLR Wt, [Xn|SP]`.
#[verifier::allow_in_spec]
pub fn stlr_w(rd: u8, rn: u8) -> u32
    requires
        rd < 32,
        rn < 32,
    returns
        rr(0x889f_fc00, rd, rn),
{
    rr(0x889f_fc00, rd, rn)
}

/// `STLR Xt, [Xn|SP]`.
#[verifier::allow_in_spec]
pub fn stlr_x(rd: u8, rn: u8) -> u32
    requires
        rd < 32,
        rn < 32,
    returns
        rr(0xc89f_fc00, rd, rn),
{
    rr(0xc89f_fc00, rd, rn)
}

/// `STLRB Wt, [Xn|SP]`.
#[verifier::allow_in_spec]
pub fn stlrb_w(rd: u8, rn: u8) -> u32
    requires
        rd < 32,
        rn < 32,
    returns
        rr(0x089f_fc00, rd, rn),
{
    rr(0x089f_fc00, rd, rn)
}

/// `STLRH Wt, [Xn|SP]`.
#[verifier::allow_in_spec]
pub fn stlrh_w(rd: u8, rn: u8) -> u32
    requires
        rd < 32,
        rn < 32,
    returns
        rr(0x489f_fc00, rd, rn),
{
    rr(0x489f_fc00, rd, rn)
}

/// `LDAXR Wt, [Xn|SP]`.
#[verifier::allow_in_spec]
pub fn ldaxr_w(rd: u8, rn: u8) -> u32
    requires
        rd < 32,
        rn < 32,
    returns
        rr(0x885f_fc00, rd, rn),
{
    rr(0x885f_fc00, rd, rn)
}

/// `LDAXR Xt, [Xn|SP]`.
#[verifier::allow_in_spec]
pub fn ldaxr_x(rd: u8, rn: u8) -> u32
    requires
        rd < 32,
        rn < 32,
    returns
        rr(0xc85f_fc00, rd, rn),
{
    rr(0xc85f_fc00, rd, rn)
}

/// `MOV Wd, Wm (ORR Wd, WZR, Wm)`.
#[verifier::allow_in_spec]
pub fn mov_w(rd: u8, rm: u8) -> u32
    requires
        rd < 32,
        rm < 32,
    returns
        rrr(0x2a00_0000, rd, 31, rm),
{
    rrr(0x2a00_0000, rd, 31, rm)
}

/// `MOV Xd, Xm (ORR Xd, XZR, Xm)`.
#[verifier::allow_in_spec]
pub fn mov_x(rd: u8, rm: u8) -> u32
    requires
        rd < 32,
        rm < 32,
    returns
        rrr(0xaa00_0000, rd, 31, rm),
{
    rrr(0xaa00_0000, rd, 31, rm)
}

/// `MVN Wd, Wm (ORN Wd, WZR, Wm)`.
#[verifier::allow_in_spec]
pub fn mvn_w(rd: u8, rm: u8) -> u32
    requires
        rd < 32,
        rm < 32,
    returns
        rrr(0x2a20_0000, rd, 31, rm),
{
    rrr(0x2a20_0000, rd, 31, rm)
}

/// `MVN Xd, Xm (ORN Xd, XZR, Xm)`.
#[verifier::allow_in_spec]
pub fn mvn_x(rd: u8, rm: u8) -> u32
    requires
        rd < 32,
        rm < 32,
    returns
        rrr(0xaa20_0000, rd, 31, rm),
{
    rrr(0xaa20_0000, rd, 31, rm)
}

/// `NEG Wd, Wm (SUB Wd, WZR, Wm)`.
#[verifier::allow_in_spec]
pub fn neg_w(rd: u8, rm: u8) -> u32
    requires
        rd < 32,
        rm < 32,
    returns
        rrr(0x4b00_0000, rd, 31, rm),
{
    rrr(0x4b00_0000, rd, 31, rm)
}

/// `CMP Wn, Wm (SUBS WZR, Wn, Wm)`.
#[verifier::allow_in_spec]
pub fn cmp_w_reg(rn: u8, rm: u8) -> u32
    requires
        rn < 32,
        rm < 32,
    returns
        rrr(0x6b00_0000, 31, rn, rm),
{
    rrr(0x6b00_0000, 31, rn, rm)
}

/// `CMP Xn, Xm (SUBS XZR, Xn, Xm)`.
#[verifier::allow_in_spec]
pub fn cmp_x_reg(rn: u8, rm: u8) -> u32
    requires
        rn < 32,
        rm < 32,
    returns
        rrr(0xeb00_0000, 31, rn, rm),
{
    rrr(0xeb00_0000, 31, rn, rm)
}

/// `TST Wn, Wm (ANDS WZR, Wn, Wm)`.
#[verifier::allow_in_spec]
pub fn tst_w_reg(rn: u8, rm: u8) -> u32
    requires
        rn < 32,
        rm < 32,
    returns
        rrr(0x6a00_0000, 31, rn, rm),
{
    rrr(0x6a00_0000, 31, rn, rm)
}

/// `TST Xn, Xm (ANDS XZR, Xn, Xm)`.
#[verifier::allow_in_spec]
pub fn tst_x_reg(rn: u8, rm: u8) -> u32
    requires
        rn < 32,
        rm < 32,
    returns
        rrr(0xea00_0000, 31, rn, rm),
{
    rrr(0xea00_0000, 31, rn, rm)
}

/// `STLXR Ws, Wt, [Xn|SP]`.
#[verifier::allow_in_spec]
pub fn stlxr_w(rs: u8, rt: u8, rn: u8) -> u32
    requires
        rs < 32,
        rt < 32,
        rn < 32,
    returns
        rrr(0x8800_fc00, rt, rn, rs),
{
    rrr(0x8800_fc00, rt, rn, rs)
}

/// `STLXR Ws, Xt, [Xn|SP]`.
#[verifier::allow_in_spec]
pub fn stlxr_x(rs: u8, rt: u8, rn: u8) -> u32
    requires
        rs < 32,
        rt < 32,
        rn < 32,
    returns
        rrr(0xc800_fc00, rt, rn, rs),
{
    rrr(0xc800_fc00, rt, rn, rs)
}

/// `ADD Wd, Wn, Wm, LSR #shift`.
#[verifier::allow_in_spec]
pub fn add_w_reg_lsr(rd: u8, rn: u8, rm: u8, shift: u8) -> u32
    requires
        rd < 32,
        rn < 32,
        rm < 32,
        shift < 32,
    returns
        rrr(0x0b40_0000, rd, rn, rm) | place(shift as u32, 10),
{
    rrr(0x0b40_0000, rd, rn, rm) | place(shift as u32, 10)
}

/// `ORR Wd, Wn, Wm, LSL #shift`.
#[verifier::allow_in_spec]
pub fn orr_w_reg_lsl(rd: u8, rn: u8, rm: u8, shift: u8) -> u32
    requires
        rd < 32,
        rn < 32,
        rm < 32,
        shift < 32,
    returns
        rrr(0x2a00_0000, rd, rn, rm) | place(shift as u32, 10),
{
    rrr(0x2a00_0000, rd, rn, rm) | place(shift as u32, 10)
}

/// `ORR Wd, Wn, Wm, LSR #shift`.
#[verifier::allow_in_spec]
pub fn orr_w_reg_lsr(rd: u8, rn: u8, rm: u8, shift: u8) -> u32
    requires
        rd < 32,
        rn < 32,
        rm < 32,
        shift < 32,
    returns
        rrr(0x2a40_0000, rd, rn, rm) | place(shift as u32, 10),
{
    rrr(0x2a40_0000, rd, rn, rm) | place(shift as u32, 10)
}

/// `ADD Xd|SP, Xn|SP, Xm (extended, UXTX #0)`.
#[verifier::allow_in_spec]
pub fn add_x_reg_sp(rd: u8, rn: u8, rm: u8) -> u32
    requires
        rd < 32,
        rn < 32,
        rm < 32,
    returns
        rrr(0x8b20_6000, rd, rn, rm),
{
    rrr(0x8b20_6000, rd, rn, rm)
}

/// `ADD Xd|SP, Xn|SP, Wm, UXTW #0`.
#[verifier::allow_in_spec]
pub fn add_x_reg_uxtw(rd: u8, rn: u8, rm: u8) -> u32
    requires
        rd < 32,
        rn < 32,
        rm < 32,
    returns
        rrr(0x8b20_4000, rd, rn, rm),
{
    rrr(0x8b20_4000, rd, rn, rm)
}

/// `FMADD Sd, Sn, Sm, Sa`.
#[verifier::allow_in_spec]
pub fn fmadd_s(rd: u8, rn: u8, rm: u8, ra: u8) -> u32
    requires
        rd < 32,
        rn < 32,
        rm < 32,
        ra < 32,
    returns
        rrrr(0x1f00_0000, rd, rn, rm, ra),
{
    rrrr(0x1f00_0000, rd, rn, rm, ra)
}

/// `FMADD Dd, Dn, Dm, Da`.
#[verifier::allow_in_spec]
pub fn fmadd_d(rd: u8, rn: u8, rm: u8, ra: u8) -> u32
    requires
        rd < 32,
        rn < 32,
        rm < 32,
        ra < 32,
    returns
        rrrr(0x1f40_0000, rd, rn, rm, ra),
{
    rrrr(0x1f40_0000, rd, rn, rm, ra)
}

/// `FMSUB Sd, Sn, Sm, Sa`.
#[verifier::allow_in_spec]
pub fn fmsub_s(rd: u8, rn: u8, rm: u8, ra: u8) -> u32
    requires
        rd < 32,
        rn < 32,
        rm < 32,
        ra < 32,
    returns
        rrrr(0x1f00_8000, rd, rn, rm, ra),
{
    rrrr(0x1f00_8000, rd, rn, rm, ra)
}

/// `FMSUB Dd, Dn, Dm, Da`.
#[verifier::allow_in_spec]
pub fn fmsub_d(rd: u8, rn: u8, rm: u8, ra: u8) -> u32
    requires
        rd < 32,
        rn < 32,
        rm < 32,
        ra < 32,
    returns
        rrrr(0x1f40_8000, rd, rn, rm, ra),
{
    rrrr(0x1f40_8000, rd, rn, rm, ra)
}

/// `CSEL Wd, Wn, Wm, cond`.
#[verifier::allow_in_spec]
pub fn csel_w(rd: u8, rn: u8, rm: u8, cond: Cond) -> u32
    requires
        rd < 32,
        rn < 32,
        rm < 32,
    returns
        rrr(0x1a80_0000, rd, rn, rm) | place(cond.value() as u32, 12),
{
    rrr(0x1a80_0000, rd, rn, rm) | place(cond.to_u8() as u32, 12)
}

/// `CSEL Xd, Xn, Xm, cond`.
#[verifier::allow_in_spec]
pub fn csel_x(rd: u8, rn: u8, rm: u8, cond: Cond) -> u32
    requires
        rd < 32,
        rn < 32,
        rm < 32,
    returns
        rrr(0x9a80_0000, rd, rn, rm) | place(cond.value() as u32, 12),
{
    rrr(0x9a80_0000, rd, rn, rm) | place(cond.to_u8() as u32, 12)
}

/// `CINC Wd, Wn, cond (CSINC Wd, Wn, Wn, invert(cond))`.
#[verifier::allow_in_spec]
pub fn cinc_w(rd: u8, rn: u8, cond: Cond) -> u32
    requires
        rd < 32,
        rn < 32,
    returns
        rrr(0x1a80_0400, rd, rn, rn) | place(cond.inverted().value() as u32, 12),
{
    rrr(0x1a80_0400, rd, rn, rn) | place(cond.invert().to_u8() as u32, 12)
}

/// `CINC Xd, Xn, cond (CSINC Xd, Xn, Xn, invert(cond))`.
#[verifier::allow_in_spec]
pub fn cinc_x(rd: u8, rn: u8, cond: Cond) -> u32
    requires
        rd < 32,
        rn < 32,
    returns
        rrr(0x9a80_0400, rd, rn, rn) | place(cond.inverted().value() as u32, 12),
{
    rrr(0x9a80_0400, rd, rn, rn) | place(cond.invert().to_u8() as u32, 12)
}

/// `LSL Wd, Wn, #shift (UBFM)`.
#[verifier::allow_in_spec]
pub fn lsl_w_imm(rd: u8, rn: u8, shift: u8) -> u32
    requires
        rd < 32,
        rn < 32,
        shift < 32,
    returns
        rr(0x5300_0000, rd, rn) | place(((32 - shift) % 32) as u32, 16) | place((31 - shift) as u32, 10),
{
    rr(0x5300_0000, rd, rn) | place(((32 - shift) % 32) as u32, 16) | place((31 - shift) as u32, 10)
}

/// `LSL Xd, Xn, #shift (UBFM)`.
#[verifier::allow_in_spec]
pub fn lsl_x_imm(rd: u8, rn: u8, shift: u8) -> u32
    requires
        rd < 32,
        rn < 32,
        shift < 64,
    returns
        rr(0xd340_0000, rd, rn) | place(((64 - shift) % 64) as u32, 16) | place((63 - shift) as u32, 10),
{
    rr(0xd340_0000, rd, rn) | place(((64 - shift) % 64) as u32, 16) | place((63 - shift) as u32, 10)
}

/// `LSR Wd, Wn, #shift (UBFM)`.
#[verifier::allow_in_spec]
pub fn lsr_w_imm(rd: u8, rn: u8, shift: u8) -> u32
    requires
        rd < 32,
        rn < 32,
        shift < 32,
    returns
        rr(0x5300_0000, rd, rn) | place((shift) as u32, 16) | place((31u8) as u32, 10),
{
    rr(0x5300_0000, rd, rn) | place((shift) as u32, 16) | place((31u8) as u32, 10)
}

/// `LSR Xd, Xn, #shift (UBFM)`.
#[verifier::allow_in_spec]
pub fn lsr_x_imm(rd: u8, rn: u8, shift: u8) -> u32
    requires
        rd < 32,
        rn < 32,
        shift < 64,
    returns
        rr(0xd340_0000, rd, rn) | place((shift) as u32, 16) | place((63u8) as u32, 10),
{
    rr(0xd340_0000, rd, rn) | place((shift) as u32, 16) | place((63u8) as u32, 10)
}

/// `ASR Wd, Wn, #shift (SBFM)`.
#[verifier::allow_in_spec]
pub fn asr_w_imm(rd: u8, rn: u8, shift: u8) -> u32
    requires
        rd < 32,
        rn < 32,
        shift < 32,
    returns
        rr(0x1300_0000, rd, rn) | place((shift) as u32, 16) | place((31u8) as u32, 10),
{
    rr(0x1300_0000, rd, rn) | place((shift) as u32, 16) | place((31u8) as u32, 10)
}

/// `ASR Xd, Xn, #shift (SBFM)`.
#[verifier::allow_in_spec]
pub fn asr_x_imm(rd: u8, rn: u8, shift: u8) -> u32
    requires
        rd < 32,
        rn < 32,
        shift < 64,
    returns
        rr(0x9340_0000, rd, rn) | place((shift) as u32, 16) | place((63u8) as u32, 10),
{
    rr(0x9340_0000, rd, rn) | place((shift) as u32, 16) | place((63u8) as u32, 10)
}

/// `UBFX Wd, Wn, #lsb, #width (UBFM)`.
#[verifier::allow_in_spec]
pub fn ubfx_w(rd: u8, rn: u8, lsb: u8, width: u8) -> u32
    requires
        rd < 32,
        rn < 32,
        1 <= width,
        lsb + width <= 32,
    returns
        rr(0x5300_0000, rd, rn) | place((lsb) as u32, 16) | place((lsb + width - 1) as u32, 10),
{
    rr(0x5300_0000, rd, rn) | place((lsb) as u32, 16) | place((lsb + width - 1) as u32, 10)
}

/// `UBFX Xd, Xn, #lsb, #width (UBFM)`.
#[verifier::allow_in_spec]
pub fn ubfx_x(rd: u8, rn: u8, lsb: u8, width: u8) -> u32
    requires
        rd < 32,
        rn < 32,
        1 <= width,
        lsb + width <= 64,
    returns
        rr(0xd340_0000, rd, rn) | place((lsb) as u32, 16) | place((lsb + width - 1) as u32, 10),
{
    rr(0xd340_0000, rd, rn) | place((lsb) as u32, 16) | place((lsb + width - 1) as u32, 10)
}

/// `UBFIZ Wd, Wn, #lsb, #width (UBFM)`.
#[verifier::allow_in_spec]
pub fn ubfiz_w(rd: u8, rn: u8, lsb: u8, width: u8) -> u32
    requires
        rd < 32,
        rn < 32,
        1 <= width,
        lsb + width <= 32,
    returns
        rr(0x5300_0000, rd, rn) | place(((32 - lsb) % 32) as u32, 16) | place((width - 1) as u32, 10),
{
    rr(0x5300_0000, rd, rn) | place(((32 - lsb) % 32) as u32, 16) | place((width - 1) as u32, 10)
}

/// `BFI Wd, Wn, #lsb, #width (BFM)`.
#[verifier::allow_in_spec]
pub fn bfi_w(rd: u8, rn: u8, lsb: u8, width: u8) -> u32
    requires
        rd < 32,
        rn < 32,
        1 <= width,
        lsb + width <= 32,
    returns
        rr(0x3300_0000, rd, rn) | place(((32 - lsb) % 32) as u32, 16) | place((width - 1) as u32, 10),
{
    rr(0x3300_0000, rd, rn) | place(((32 - lsb) % 32) as u32, 16) | place((width - 1) as u32, 10)
}

/// `BFI Xd, Xn, #lsb, #width (BFM)`.
#[verifier::allow_in_spec]
pub fn bfi_x(rd: u8, rn: u8, lsb: u8, width: u8) -> u32
    requires
        rd < 32,
        rn < 32,
        1 <= width,
        lsb + width <= 64,
    returns
        rr(0xb340_0000, rd, rn) | place(((64 - lsb) % 64) as u32, 16) | place((width - 1) as u32, 10),
{
    rr(0xb340_0000, rd, rn) | place(((64 - lsb) % 64) as u32, 16) | place((width - 1) as u32, 10)
}

/// `BFXIL Wd, Wn, #lsb, #width (BFM)`.
#[verifier::allow_in_spec]
pub fn bfxil_w(rd: u8, rn: u8, lsb: u8, width: u8) -> u32
    requires
        rd < 32,
        rn < 32,
        1 <= width,
        lsb + width <= 32,
    returns
        rr(0x3300_0000, rd, rn) | place((lsb) as u32, 16) | place((lsb + width - 1) as u32, 10),
{
    rr(0x3300_0000, rd, rn) | place((lsb) as u32, 16) | place((lsb + width - 1) as u32, 10)
}

/// `BFXIL Xd, Xn, #lsb, #width (BFM)`.
#[verifier::allow_in_spec]
pub fn bfxil_x(rd: u8, rn: u8, lsb: u8, width: u8) -> u32
    requires
        rd < 32,
        rn < 32,
        1 <= width,
        lsb + width <= 64,
    returns
        rr(0xb340_0000, rd, rn) | place((lsb) as u32, 16) | place((lsb + width - 1) as u32, 10),
{
    rr(0xb340_0000, rd, rn) | place((lsb) as u32, 16) | place((lsb + width - 1) as u32, 10)
}

/// `SBFM Wd, Wn, #immr, #imms`.
#[verifier::allow_in_spec]
pub fn sbfm_w(rd: u8, rn: u8, immr: u8, imms: u8) -> u32
    requires
        rd < 32,
        rn < 32,
        immr < 32,
        imms < 32,
    returns
        rr(0x1300_0000, rd, rn) | place((immr) as u32, 16) | place((imms) as u32, 10),
{
    rr(0x1300_0000, rd, rn) | place((immr) as u32, 16) | place((imms) as u32, 10)
}

/// `SBFM Xd, Xn, #immr, #imms`.
#[verifier::allow_in_spec]
pub fn sbfm_x(rd: u8, rn: u8, immr: u8, imms: u8) -> u32
    requires
        rd < 32,
        rn < 32,
        immr < 64,
        imms < 64,
    returns
        rr(0x9340_0000, rd, rn) | place((immr) as u32, 16) | place((imms) as u32, 10),
{
    rr(0x9340_0000, rd, rn) | place((immr) as u32, 16) | place((imms) as u32, 10)
}

/// `EXTR Wd, Wn, Wm, #lsb`.
#[verifier::allow_in_spec]
pub fn extr_w(rd: u8, rn: u8, rm: u8, lsb: u8) -> u32
    requires
        rd < 32,
        rn < 32,
        rm < 32,
        lsb < 32,
    returns
        rrr(0x1380_0000, rd, rn, rm) | place(lsb as u32, 10),
{
    rrr(0x1380_0000, rd, rn, rm) | place(lsb as u32, 10)
}

/// `EXTR Xd, Xn, Xm, #lsb`.
#[verifier::allow_in_spec]
pub fn extr_x(rd: u8, rn: u8, rm: u8, lsb: u8) -> u32
    requires
        rd < 32,
        rn < 32,
        rm < 32,
        lsb < 64,
    returns
        rrr(0x93c0_0000, rd, rn, rm) | place(lsb as u32, 10),
{
    rrr(0x93c0_0000, rd, rn, rm) | place(lsb as u32, 10)
}

/// `ROR Wd, Wn, #shift (EXTR Wd, Wn, Wn)`.
#[verifier::allow_in_spec]
pub fn ror_w_imm(rd: u8, rn: u8, shift: u8) -> u32
    requires
        rd < 32,
        rn < 32,
        shift < 32,
    returns
        rrr(0x1380_0000, rd, rn, rn) | place(shift as u32, 10),
{
    rrr(0x1380_0000, rd, rn, rn) | place(shift as u32, 10)
}

/// `ROR Xd, Xn, #shift (EXTR Xd, Xn, Xn)`.
#[verifier::allow_in_spec]
pub fn ror_x_imm(rd: u8, rn: u8, shift: u8) -> u32
    requires
        rd < 32,
        rn < 32,
        shift < 64,
    returns
        rrr(0x93c0_0000, rd, rn, rn) | place(shift as u32, 10),
{
    rrr(0x93c0_0000, rd, rn, rn) | place(shift as u32, 10)
}

/// `ADD Wd|WSP, Wn|WSP, #imm`.
#[verifier::allow_in_spec]
pub fn add_w_imm(rd: u8, rn: u8, imm: u32) -> u32
    requires
        rd < 32,
        rn < 32,
        imm < 4096,
    returns
        rr(0x1100_0000, rd, rn) | place(imm, 10),
{
    rr(0x1100_0000, rd, rn) | place(imm, 10)
}

/// `ADD Wd|WSP, Wn|WSP, #imm12, LSL #(12 if shift12)`.
#[verifier::allow_in_spec]
pub fn add_w_imm_shift(rd: u8, rn: u8, imm12: u32, shift12: bool) -> u32
    requires
        rd < 32,
        rn < 32,
        imm12 < 4096,
    returns
        rr(0x1100_0000, rd, rn) | place(imm12, 10) | place(if shift12 { 1u32 } else { 0u32 }, 22),
{
    rr(0x1100_0000, rd, rn) | place(imm12, 10) | place(if shift12 { 1u32 } else { 0u32 }, 22)
}

/// `ADD Xd|SP, Xn|SP, #imm`.
#[verifier::allow_in_spec]
pub fn add_x_imm(rd: u8, rn: u8, imm: u32) -> u32
    requires
        rd < 32,
        rn < 32,
        imm < 4096,
    returns
        rr(0x9100_0000, rd, rn) | place(imm, 10),
{
    rr(0x9100_0000, rd, rn) | place(imm, 10)
}

/// `ADD Xd|SP, Xn|SP, #imm12, LSL #(12 if shift12)`.
#[verifier::allow_in_spec]
pub fn add_x_imm_shift(rd: u8, rn: u8, imm12: u32, shift12: bool) -> u32
    requires
        rd < 32,
        rn < 32,
        imm12 < 4096,
    returns
        rr(0x9100_0000, rd, rn) | place(imm12, 10) | place(if shift12 { 1u32 } else { 0u32 }, 22),
{
    rr(0x9100_0000, rd, rn) | place(imm12, 10) | place(if shift12 { 1u32 } else { 0u32 }, 22)
}

/// `SUB Wd|WSP, Wn|WSP, #imm`.
#[verifier::allow_in_spec]
pub fn sub_w_imm(rd: u8, rn: u8, imm: u32) -> u32
    requires
        rd < 32,
        rn < 32,
        imm < 4096,
    returns
        rr(0x5100_0000, rd, rn) | place(imm, 10),
{
    rr(0x5100_0000, rd, rn) | place(imm, 10)
}

/// `SUB Wd|WSP, Wn|WSP, #imm12, LSL #(12 if shift12)`.
#[verifier::allow_in_spec]
pub fn sub_w_imm_shift(rd: u8, rn: u8, imm12: u32, shift12: bool) -> u32
    requires
        rd < 32,
        rn < 32,
        imm12 < 4096,
    returns
        rr(0x5100_0000, rd, rn) | place(imm12, 10) | place(if shift12 { 1u32 } else { 0u32 }, 22),
{
    rr(0x5100_0000, rd, rn) | place(imm12, 10) | place(if shift12 { 1u32 } else { 0u32 }, 22)
}

/// `SUB Xd|SP, Xn|SP, #imm`.
#[verifier::allow_in_spec]
pub fn sub_x_imm(rd: u8, rn: u8, imm: u32) -> u32
    requires
        rd < 32,
        rn < 32,
        imm < 4096,
    returns
        rr(0xd100_0000, rd, rn) | place(imm, 10),
{
    rr(0xd100_0000, rd, rn) | place(imm, 10)
}

/// `SUB Xd|SP, Xn|SP, #imm12, LSL #(12 if shift12)`.
#[verifier::allow_in_spec]
pub fn sub_x_imm_shift(rd: u8, rn: u8, imm12: u32, shift12: bool) -> u32
    requires
        rd < 32,
        rn < 32,
        imm12 < 4096,
    returns
        rr(0xd100_0000, rd, rn) | place(imm12, 10) | place(if shift12 { 1u32 } else { 0u32 }, 22),
{
    rr(0xd100_0000, rd, rn) | place(imm12, 10) | place(if shift12 { 1u32 } else { 0u32 }, 22)
}

/// `ADDS Wd, Wn|WSP, #imm12, LSL #(12 if shift12)`.
#[verifier::allow_in_spec]
pub fn adds_w_imm_shift(rd: u8, rn: u8, imm12: u32, shift12: bool) -> u32
    requires
        rd < 32,
        rn < 32,
        imm12 < 4096,
    returns
        rr(0x3100_0000, rd, rn) | place(imm12, 10) | place(if shift12 { 1u32 } else { 0u32 }, 22),
{
    rr(0x3100_0000, rd, rn) | place(imm12, 10) | place(if shift12 { 1u32 } else { 0u32 }, 22)
}

/// `ADDS Xd, Xn|SP, #imm12, LSL #(12 if shift12)`.
#[verifier::allow_in_spec]
pub fn adds_x_imm_shift(rd: u8, rn: u8, imm12: u32, shift12: bool) -> u32
    requires
        rd < 32,
        rn < 32,
        imm12 < 4096,
    returns
        rr(0xb100_0000, rd, rn) | place(imm12, 10) | place(if shift12 { 1u32 } else { 0u32 }, 22),
{
    rr(0xb100_0000, rd, rn) | place(imm12, 10) | place(if shift12 { 1u32 } else { 0u32 }, 22)
}

/// `SUBS Wd, Wn|WSP, #imm12, LSL #(12 if shift12)`.
#[verifier::allow_in_spec]
pub fn subs_w_imm_shift(rd: u8, rn: u8, imm12: u32, shift12: bool) -> u32
    requires
        rd < 32,
        rn < 32,
        imm12 < 4096,
    returns
        rr(0x7100_0000, rd, rn) | place(imm12, 10) | place(if shift12 { 1u32 } else { 0u32 }, 22),
{
    rr(0x7100_0000, rd, rn) | place(imm12, 10) | place(if shift12 { 1u32 } else { 0u32 }, 22)
}

/// `SUBS Xd, Xn|SP, #imm12, LSL #(12 if shift12)`.
#[verifier::allow_in_spec]
pub fn subs_x_imm_shift(rd: u8, rn: u8, imm12: u32, shift12: bool) -> u32
    requires
        rd < 32,
        rn < 32,
        imm12 < 4096,
    returns
        rr(0xf100_0000, rd, rn) | place(imm12, 10) | place(if shift12 { 1u32 } else { 0u32 }, 22),
{
    rr(0xf100_0000, rd, rn) | place(imm12, 10) | place(if shift12 { 1u32 } else { 0u32 }, 22)
}

/// `CMP Wn|WSP, #imm (SUBS WZR)`.
#[verifier::allow_in_spec]
pub fn cmp_w_imm(rn: u8, imm: u32) -> u32
    requires
        rn < 32,
        imm < 4096,
    returns
        rr(0x7100_0000, 31, rn) | place(imm, 10),
{
    rr(0x7100_0000, 31, rn) | place(imm, 10)
}

/// `CMP Xn|SP, #imm (SUBS XZR)`.
#[verifier::allow_in_spec]
pub fn cmp_x_imm(rn: u8, imm: u32) -> u32
    requires
        rn < 32,
        imm < 4096,
    returns
        rr(0xf100_0000, 31, rn) | place(imm, 10),
{
    rr(0xf100_0000, 31, rn) | place(imm, 10)
}

/// `MOVZ Wd, #imm16, LSL #shift`.
#[verifier::allow_in_spec]
pub fn movz_w(rd: u8, imm16: u16, shift: u8) -> u32
    requires
        rd < 32,
        shift % 16 == 0,
        shift < 32,
    returns
        0x5280_0000 | place((shift / 16) as u32, 21) | place(imm16 as u32, 5) | (rd as u32),
{
    0x5280_0000 | place((shift / 16) as u32, 21) | place(imm16 as u32, 5) | (rd as u32)
}

/// `MOVZ Xd, #imm16, LSL #shift`.
#[verifier::allow_in_spec]
pub fn movz_x(rd: u8, imm16: u16, shift: u8) -> u32
    requires
        rd < 32,
        shift % 16 == 0,
        shift < 64,
    returns
        0xd280_0000 | place((shift / 16) as u32, 21) | place(imm16 as u32, 5) | (rd as u32),
{
    0xd280_0000 | place((shift / 16) as u32, 21) | place(imm16 as u32, 5) | (rd as u32)
}

/// `MOVK Wd, #imm16, LSL #shift`.
#[verifier::allow_in_spec]
pub fn movk_w(rd: u8, imm16: u16, shift: u8) -> u32
    requires
        rd < 32,
        shift % 16 == 0,
        shift < 32,
    returns
        0x7280_0000 | place((shift / 16) as u32, 21) | place(imm16 as u32, 5) | (rd as u32),
{
    0x7280_0000 | place((shift / 16) as u32, 21) | place(imm16 as u32, 5) | (rd as u32)
}

/// `MOVK Xd, #imm16, LSL #shift`.
#[verifier::allow_in_spec]
pub fn movk_x(rd: u8, imm16: u16, shift: u8) -> u32
    requires
        rd < 32,
        shift % 16 == 0,
        shift < 64,
    returns
        0xf280_0000 | place((shift / 16) as u32, 21) | place(imm16 as u32, 5) | (rd as u32),
{
    0xf280_0000 | place((shift / 16) as u32, 21) | place(imm16 as u32, 5) | (rd as u32)
}

/// `STR Wt, [Xn|SP, #imm] (offset scaled by 4)`.
#[verifier::allow_in_spec]
pub fn str_w_unsigned(rt: u8, rn: u8, imm_bytes: u32) -> u32
    requires
        rt < 32,
        rn < 32,
        imm_bytes % 4 == 0,
        imm_bytes / 4 < 4096,
    returns
        rr(0xb900_0000, rt, rn) | place(imm_bytes / 4, 10),
{
    rr(0xb900_0000, rt, rn) | place(imm_bytes / 4, 10)
}

/// `LDR Wt, [Xn|SP, #imm] (offset scaled by 4)`.
#[verifier::allow_in_spec]
pub fn ldr_w_unsigned(rt: u8, rn: u8, imm_bytes: u32) -> u32
    requires
        rt < 32,
        rn < 32,
        imm_bytes % 4 == 0,
        imm_bytes / 4 < 4096,
    returns
        rr(0xb940_0000, rt, rn) | place(imm_bytes / 4, 10),
{
    rr(0xb940_0000, rt, rn) | place(imm_bytes / 4, 10)
}

/// `STR Xt, [Xn|SP, #imm] (offset scaled by 8)`.
#[verifier::allow_in_spec]
pub fn str_x_unsigned(rt: u8, rn: u8, imm_bytes: u32) -> u32
    requires
        rt < 32,
        rn < 32,
        imm_bytes % 8 == 0,
        imm_bytes / 8 < 4096,
    returns
        rr(0xf900_0000, rt, rn) | place(imm_bytes / 8, 10),
{
    rr(0xf900_0000, rt, rn) | place(imm_bytes / 8, 10)
}

/// `LDR Xt, [Xn|SP, #imm] (offset scaled by 8)`.
#[verifier::allow_in_spec]
pub fn ldr_x_unsigned(rt: u8, rn: u8, imm_bytes: u32) -> u32
    requires
        rt < 32,
        rn < 32,
        imm_bytes % 8 == 0,
        imm_bytes / 8 < 4096,
    returns
        rr(0xf940_0000, rt, rn) | place(imm_bytes / 8, 10),
{
    rr(0xf940_0000, rt, rn) | place(imm_bytes / 8, 10)
}

/// `STRB Wt, [Xn|SP, #imm] (offset scaled by 1)`.
#[verifier::allow_in_spec]
pub fn strb_w_unsigned(rt: u8, rn: u8, imm_bytes: u32) -> u32
    requires
        rt < 32,
        rn < 32,
        imm_bytes / 1 < 4096,
    returns
        rr(0x3900_0000, rt, rn) | place(imm_bytes, 10),
{
    rr(0x3900_0000, rt, rn) | place(imm_bytes, 10)
}

/// `LDRB Wt, [Xn|SP, #imm] (offset scaled by 1)`.
#[verifier::allow_in_spec]
pub fn ldrb_w_unsigned(rt: u8, rn: u8, imm_bytes: u32) -> u32
    requires
        rt < 32,
        rn < 32,
        imm_bytes / 1 < 4096,
    returns
        rr(0x3940_0000, rt, rn) | place(imm_bytes, 10),
{
    rr(0x3940_0000, rt, rn) | place(imm_bytes, 10)
}

/// `STR Bt, [Xn|SP, #imm] (offset scaled by 1)`.
#[verifier::allow_in_spec]
pub fn str_b_unsigned(rt: u8, rn: u8, imm_bytes: u32) -> u32
    requires
        rt < 32,
        rn < 32,
        imm_bytes / 1 < 4096,
    returns
        rr(0x3d00_0000, rt, rn) | place(imm_bytes, 10),
{
    rr(0x3d00_0000, rt, rn) | place(imm_bytes, 10)
}

/// `LDR Bt, [Xn|SP, #imm] (offset scaled by 1)`.
#[verifier::allow_in_spec]
pub fn ldr_b_unsigned(rt: u8, rn: u8, imm_bytes: u32) -> u32
    requires
        rt < 32,
        rn < 32,
        imm_bytes / 1 < 4096,
    returns
        rr(0x3d40_0000, rt, rn) | place(imm_bytes, 10),
{
    rr(0x3d40_0000, rt, rn) | place(imm_bytes, 10)
}

/// `STR Ht, [Xn|SP, #imm] (offset scaled by 2)`.
#[verifier::allow_in_spec]
pub fn str_h_unsigned(rt: u8, rn: u8, imm_bytes: u32) -> u32
    requires
        rt < 32,
        rn < 32,
        imm_bytes % 2 == 0,
        imm_bytes / 2 < 4096,
    returns
        rr(0x7d00_0000, rt, rn) | place(imm_bytes / 2, 10),
{
    rr(0x7d00_0000, rt, rn) | place(imm_bytes / 2, 10)
}

/// `LDR Ht, [Xn|SP, #imm] (offset scaled by 2)`.
#[verifier::allow_in_spec]
pub fn ldr_h_unsigned(rt: u8, rn: u8, imm_bytes: u32) -> u32
    requires
        rt < 32,
        rn < 32,
        imm_bytes % 2 == 0,
        imm_bytes / 2 < 4096,
    returns
        rr(0x7d40_0000, rt, rn) | place(imm_bytes / 2, 10),
{
    rr(0x7d40_0000, rt, rn) | place(imm_bytes / 2, 10)
}

/// `STR St, [Xn|SP, #imm] (offset scaled by 4)`.
#[verifier::allow_in_spec]
pub fn str_s_unsigned(rt: u8, rn: u8, imm_bytes: u32) -> u32
    requires
        rt < 32,
        rn < 32,
        imm_bytes % 4 == 0,
        imm_bytes / 4 < 4096,
    returns
        rr(0xbd00_0000, rt, rn) | place(imm_bytes / 4, 10),
{
    rr(0xbd00_0000, rt, rn) | place(imm_bytes / 4, 10)
}

/// `LDR St, [Xn|SP, #imm] (offset scaled by 4)`.
#[verifier::allow_in_spec]
pub fn ldr_s_unsigned(rt: u8, rn: u8, imm_bytes: u32) -> u32
    requires
        rt < 32,
        rn < 32,
        imm_bytes % 4 == 0,
        imm_bytes / 4 < 4096,
    returns
        rr(0xbd40_0000, rt, rn) | place(imm_bytes / 4, 10),
{
    rr(0xbd40_0000, rt, rn) | place(imm_bytes / 4, 10)
}

/// `STR Dt, [Xn|SP, #imm] (offset scaled by 8)`.
#[verifier::allow_in_spec]
pub fn str_d_unsigned(rt: u8, rn: u8, imm_bytes: u32) -> u32
    requires
        rt < 32,
        rn < 32,
        imm_bytes % 8 == 0,
        imm_bytes / 8 < 4096,
    returns
        rr(0xfd00_0000, rt, rn) | place(imm_bytes / 8, 10),
{
    rr(0xfd00_0000, rt, rn) | place(imm_bytes / 8, 10)
}

/// `LDR Dt, [Xn|SP, #imm] (offset scaled by 8)`.
#[verifier::allow_in_spec]
pub fn ldr_d_unsigned(rt: u8, rn: u8, imm_bytes: u32) -> u32
    requires
        rt < 32,
        rn < 32,
        imm_bytes % 8 == 0,
        imm_bytes / 8 < 4096,
    returns
        rr(0xfd40_0000, rt, rn) | place(imm_bytes / 8, 10),
{
    rr(0xfd40_0000, rt, rn) | place(imm_bytes / 8, 10)
}

/// `STR Qt, [Xn|SP, #imm] (offset scaled by 16)`.
#[verifier::allow_in_spec]
pub fn str_q_unsigned(rt: u8, rn: u8, imm_bytes: u32) -> u32
    requires
        rt < 32,
        rn < 32,
        imm_bytes % 16 == 0,
        imm_bytes / 16 < 4096,
    returns
        rr(0x3d80_0000, rt, rn) | place(imm_bytes / 16, 10),
{
    rr(0x3d80_0000, rt, rn) | place(imm_bytes / 16, 10)
}

/// `LDR Qt, [Xn|SP, #imm] (offset scaled by 16)`.
#[verifier::allow_in_spec]
pub fn ldr_q_unsigned(rt: u8, rn: u8, imm_bytes: u32) -> u32
    requires
        rt < 32,
        rn < 32,
        imm_bytes % 16 == 0,
        imm_bytes / 16 < 4096,
    returns
        rr(0x3dc0_0000, rt, rn) | place(imm_bytes / 16, 10),
{
    rr(0x3dc0_0000, rt, rn) | place(imm_bytes / 16, 10)
}

/// `LDR Wt, [Xn|SP, Xm] (LSL #0)`.
#[verifier::allow_in_spec]
pub fn ldr_w_reg_lsl(rt: u8, rn: u8, rm: u8) -> u32
    requires
        rt < 32,
        rn < 32,
        rm < 32,
    returns
        rrr(0xb860_6800, rt, rn, rm),
{
    rrr(0xb860_6800, rt, rn, rm)
}

/// `LDR Wt, [Xn|SP, Wm, UXTW] (UXTW #0)`.
#[verifier::allow_in_spec]
pub fn ldr_w_reg_uxtw(rt: u8, rn: u8, rm: u8) -> u32
    requires
        rt < 32,
        rn < 32,
        rm < 32,
    returns
        rrr(0xb860_4800, rt, rn, rm),
{
    rrr(0xb860_4800, rt, rn, rm)
}

/// `LDR Xt, [Xn|SP, Xm] (LSL #0)`.
#[verifier::allow_in_spec]
pub fn ldr_x_reg_lsl(rt: u8, rn: u8, rm: u8) -> u32
    requires
        rt < 32,
        rn < 32,
        rm < 32,
    returns
        rrr(0xf860_6800, rt, rn, rm),
{
    rrr(0xf860_6800, rt, rn, rm)
}

/// `LDR Xt, [Xn|SP, Wm, UXTW] (UXTW #0)`.
#[verifier::allow_in_spec]
pub fn ldr_x_reg_uxtw(rt: u8, rn: u8, rm: u8) -> u32
    requires
        rt < 32,
        rn < 32,
        rm < 32,
    returns
        rrr(0xf860_4800, rt, rn, rm),
{
    rrr(0xf860_4800, rt, rn, rm)
}

/// `LDR Qt, [Xn|SP, Xm] (LSL #0)`.
#[verifier::allow_in_spec]
pub fn ldr_q_reg_lsl(rt: u8, rn: u8, rm: u8) -> u32
    requires
        rt < 32,
        rn < 32,
        rm < 32,
    returns
        rrr(0x3ce0_6800, rt, rn, rm),
{
    rrr(0x3ce0_6800, rt, rn, rm)
}

/// `LDR Qt, [Xn|SP, Wm, UXTW] (UXTW #0)`.
#[verifier::allow_in_spec]
pub fn ldr_q_reg_uxtw(rt: u8, rn: u8, rm: u8) -> u32
    requires
        rt < 32,
        rn < 32,
        rm < 32,
    returns
        rrr(0x3ce0_4800, rt, rn, rm),
{
    rrr(0x3ce0_4800, rt, rn, rm)
}

/// `STR Wt, [Xn|SP, Xm] (LSL #0)`.
#[verifier::allow_in_spec]
pub fn str_w_reg_lsl(rt: u8, rn: u8, rm: u8) -> u32
    requires
        rt < 32,
        rn < 32,
        rm < 32,
    returns
        rrr(0xb820_6800, rt, rn, rm),
{
    rrr(0xb820_6800, rt, rn, rm)
}

/// `STR Wt, [Xn|SP, Wm, UXTW] (UXTW #0)`.
#[verifier::allow_in_spec]
pub fn str_w_reg_uxtw(rt: u8, rn: u8, rm: u8) -> u32
    requires
        rt < 32,
        rn < 32,
        rm < 32,
    returns
        rrr(0xb820_4800, rt, rn, rm),
{
    rrr(0xb820_4800, rt, rn, rm)
}

/// `STR Xt, [Xn|SP, Xm] (LSL #0)`.
#[verifier::allow_in_spec]
pub fn str_x_reg_lsl(rt: u8, rn: u8, rm: u8) -> u32
    requires
        rt < 32,
        rn < 32,
        rm < 32,
    returns
        rrr(0xf820_6800, rt, rn, rm),
{
    rrr(0xf820_6800, rt, rn, rm)
}

/// `STR Xt, [Xn|SP, Wm, UXTW] (UXTW #0)`.
#[verifier::allow_in_spec]
pub fn str_x_reg_uxtw(rt: u8, rn: u8, rm: u8) -> u32
    requires
        rt < 32,
        rn < 32,
        rm < 32,
    returns
        rrr(0xf820_4800, rt, rn, rm),
{
    rrr(0xf820_4800, rt, rn, rm)
}

/// `STR Qt, [Xn|SP, Xm] (LSL #0)`.
#[verifier::allow_in_spec]
pub fn str_q_reg_lsl(rt: u8, rn: u8, rm: u8) -> u32
    requires
        rt < 32,
        rn < 32,
        rm < 32,
    returns
        rrr(0x3ca0_6800, rt, rn, rm),
{
    rrr(0x3ca0_6800, rt, rn, rm)
}

/// `STR Qt, [Xn|SP, Wm, UXTW] (UXTW #0)`.
#[verifier::allow_in_spec]
pub fn str_q_reg_uxtw(rt: u8, rn: u8, rm: u8) -> u32
    requires
        rt < 32,
        rn < 32,
        rm < 32,
    returns
        rrr(0x3ca0_4800, rt, rn, rm),
{
    rrr(0x3ca0_4800, rt, rn, rm)
}

/// `LDRB Wt, [Xn|SP, Xm] (LSL #0)`.
#[verifier::allow_in_spec]
pub fn ldrb_w_reg_lsl(rt: u8, rn: u8, rm: u8) -> u32
    requires
        rt < 32,
        rn < 32,
        rm < 32,
    returns
        rrr(0x3860_6800, rt, rn, rm),
{
    rrr(0x3860_6800, rt, rn, rm)
}

/// `LDRB Wt, [Xn|SP, Wm, UXTW] (UXTW #0)`.
#[verifier::allow_in_spec]
pub fn ldrb_w_reg_uxtw(rt: u8, rn: u8, rm: u8) -> u32
    requires
        rt < 32,
        rn < 32,
        rm < 32,
    returns
        rrr(0x3860_4800, rt, rn, rm),
{
    rrr(0x3860_4800, rt, rn, rm)
}

/// `LDRH Wt, [Xn|SP, Xm] (LSL #0)`.
#[verifier::allow_in_spec]
pub fn ldrh_w_reg_lsl(rt: u8, rn: u8, rm: u8) -> u32
    requires
        rt < 32,
        rn < 32,
        rm < 32,
    returns
        rrr(0x7860_6800, rt, rn, rm),
{
    rrr(0x7860_6800, rt, rn, rm)
}

/// `LDRH Wt, [Xn|SP, Wm, UXTW] (UXTW #0)`.
#[verifier::allow_in_spec]
pub fn ldrh_w_reg_uxtw(rt: u8, rn: u8, rm: u8) -> u32
    requires
        rt < 32,
        rn < 32,
        rm < 32,
    returns
        rrr(0x7860_4800, rt, rn, rm),
{
    rrr(0x7860_4800, rt, rn, rm)
}

/// `STRB Wt, [Xn|SP, Xm] (LSL #0)`.
#[verifier::allow_in_spec]
pub fn strb_w_reg_lsl(rt: u8, rn: u8, rm: u8) -> u32
    requires
        rt < 32,
        rn < 32,
        rm < 32,
    returns
        rrr(0x3820_6800, rt, rn, rm),
{
    rrr(0x3820_6800, rt, rn, rm)
}

/// `STRB Wt, [Xn|SP, Wm, UXTW] (UXTW #0)`.
#[verifier::allow_in_spec]
pub fn strb_w_reg_uxtw(rt: u8, rn: u8, rm: u8) -> u32
    requires
        rt < 32,
        rn < 32,
        rm < 32,
    returns
        rrr(0x3820_4800, rt, rn, rm),
{
    rrr(0x3820_4800, rt, rn, rm)
}

/// `STRH Wt, [Xn|SP, Xm] (LSL #0)`.
#[verifier::allow_in_spec]
pub fn strh_w_reg_lsl(rt: u8, rn: u8, rm: u8) -> u32
    requires
        rt < 32,
        rn < 32,
        rm < 32,
    returns
        rrr(0x7820_6800, rt, rn, rm),
{
    rrr(0x7820_6800, rt, rn, rm)
}

/// `STRH Wt, [Xn|SP, Wm, UXTW] (UXTW #0)`.
#[verifier::allow_in_spec]
pub fn strh_w_reg_uxtw(rt: u8, rn: u8, rm: u8) -> u32
    requires
        rt < 32,
        rn < 32,
        rm < 32,
    returns
        rrr(0x7820_4800, rt, rn, rm),
{
    rrr(0x7820_4800, rt, rn, rm)
}

/// `LDUR Xt, [Xn|SP, #simm9]`.
#[verifier::allow_in_spec]
pub fn ldur_x(rt: u8, rn: u8, imm_bytes: i32) -> u32
    requires
        rt < 32,
        rn < 32,
        -256 <= imm_bytes <= 255,
    returns
        rr(0xf840_0000, rt, rn) | place((imm_bytes as u32) & 0x1ff, 12),
{
    rr(0xf840_0000, rt, rn) | place((imm_bytes as u32) & 0x1ff, 12)
}

/// `STUR Xt, [Xn|SP, #simm9]`.
#[verifier::allow_in_spec]
pub fn stur_x(rt: u8, rn: u8, imm_bytes: i32) -> u32
    requires
        rt < 32,
        rn < 32,
        -256 <= imm_bytes <= 255,
    returns
        rr(0xf800_0000, rt, rn) | place((imm_bytes as u32) & 0x1ff, 12),
{
    rr(0xf800_0000, rt, rn) | place((imm_bytes as u32) & 0x1ff, 12)
}

/// `LDP Xt, Xt2, [Xn|SP, #imm] (offset scaled by 8)`.
#[verifier::allow_in_spec]
pub fn ldp_x_offset(rt: u8, rt2: u8, rn: u8, imm_bytes: i32) -> u32
    requires
        rt < 32,
        rt2 < 32,
        rn < 32,
        imm_bytes % 8 == 0,
        -64 * 8 <= imm_bytes < 64 * 8,
    returns
        rrrr(0xa940_0000, rt, rn, 0, rt2) | place(((imm_bytes / 8) as u32) & 0x7f, 15),
{
    rrrr(0xa940_0000, rt, rn, 0, rt2) | place(((imm_bytes / 8) as u32) & 0x7f, 15)
}

/// `STP Xt, Xt2, [Xn|SP, #imm] (offset scaled by 8)`.
#[verifier::allow_in_spec]
pub fn stp_x_offset(rt: u8, rt2: u8, rn: u8, imm_bytes: i32) -> u32
    requires
        rt < 32,
        rt2 < 32,
        rn < 32,
        imm_bytes % 8 == 0,
        -64 * 8 <= imm_bytes < 64 * 8,
    returns
        rrrr(0xa900_0000, rt, rn, 0, rt2) | place(((imm_bytes / 8) as u32) & 0x7f, 15),
{
    rrrr(0xa900_0000, rt, rn, 0, rt2) | place(((imm_bytes / 8) as u32) & 0x7f, 15)
}

/// `LDP Wt, Wt2, [Xn|SP, #imm] (offset scaled by 4)`.
#[verifier::allow_in_spec]
pub fn ldp_w_offset(rt: u8, rt2: u8, rn: u8, imm_bytes: i32) -> u32
    requires
        rt < 32,
        rt2 < 32,
        rn < 32,
        imm_bytes % 4 == 0,
        -64 * 4 <= imm_bytes < 64 * 4,
    returns
        rrrr(0x2940_0000, rt, rn, 0, rt2) | place(((imm_bytes / 4) as u32) & 0x7f, 15),
{
    rrrr(0x2940_0000, rt, rn, 0, rt2) | place(((imm_bytes / 4) as u32) & 0x7f, 15)
}

/// `STP Wt, Wt2, [Xn|SP, #imm] (offset scaled by 4)`.
#[verifier::allow_in_spec]
pub fn stp_w_offset(rt: u8, rt2: u8, rn: u8, imm_bytes: i32) -> u32
    requires
        rt < 32,
        rt2 < 32,
        rn < 32,
        imm_bytes % 4 == 0,
        -64 * 4 <= imm_bytes < 64 * 4,
    returns
        rrrr(0x2900_0000, rt, rn, 0, rt2) | place(((imm_bytes / 4) as u32) & 0x7f, 15),
{
    rrrr(0x2900_0000, rt, rn, 0, rt2) | place(((imm_bytes / 4) as u32) & 0x7f, 15)
}

/// `BR Xn`.
#[verifier::allow_in_spec]
pub fn br(rn: u8) -> u32
    requires
        rn < 32,
    returns
        rr(0xd61f_0000, 0, rn),
{
    rr(0xd61f_0000, 0, rn)
}

/// `BLR Xn`.
#[verifier::allow_in_spec]
pub fn blr(rn: u8) -> u32
    requires
        rn < 32,
    returns
        rr(0xd63f_0000, 0, rn),
{
    rr(0xd63f_0000, 0, rn)
}

/// `MSR FPCR, Xt`.
#[verifier::allow_in_spec]
pub fn msr_fpcr(rt: u8) -> u32
    requires
        rt < 32,
    returns
        rr(0xd51b_4400, rt, 0),
{
    rr(0xd51b_4400, rt, 0)
}

/// `MSR FPSR, Xt`.
#[verifier::allow_in_spec]
pub fn msr_fpsr(rt: u8) -> u32
    requires
        rt < 32,
    returns
        rr(0xd51b_4420, rt, 0),
{
    rr(0xd51b_4420, rt, 0)
}

/// `MSR NZCV, Xt`.
#[verifier::allow_in_spec]
pub fn msr_nzcv(rt: u8) -> u32
    requires
        rt < 32,
    returns
        rr(0xd51b_4200, rt, 0),
{
    rr(0xd51b_4200, rt, 0)
}

/// `MRS Xt, FPCR`.
#[verifier::allow_in_spec]
pub fn mrs_fpcr(rt: u8) -> u32
    requires
        rt < 32,
    returns
        rr(0xd53b_4400, rt, 0),
{
    rr(0xd53b_4400, rt, 0)
}

/// `MRS Xt, FPSR`.
#[verifier::allow_in_spec]
pub fn mrs_fpsr(rt: u8) -> u32
    requires
        rt < 32,
    returns
        rr(0xd53b_4420, rt, 0),
{
    rr(0xd53b_4420, rt, 0)
}

/// `MRS Xt, NZCV`.
#[verifier::allow_in_spec]
pub fn mrs_nzcv(rt: u8) -> u32
    requires
        rt < 32,
    returns
        rr(0xd53b_4200, rt, 0),
{
    rr(0xd53b_4200, rt, 0)
}

/// `BRK #imm16`.
#[verifier::allow_in_spec]
pub fn brk(imm16: u16) -> u32
    returns
        0xd420_0000u32 | place(imm16 as u32, 5),
{
    0xd420_0000u32 | place(imm16 as u32, 5)
}

/// `DSB option`.
#[verifier::allow_in_spec]
pub fn dsb(crm: u8) -> u32
    requires
        crm < 16,
    returns
        0xd503_309fu32 | place(crm as u32, 8),
{
    0xd503_309fu32 | place(crm as u32, 8)
}

/// `DMB option`.
#[verifier::allow_in_spec]
pub fn dmb(crm: u8) -> u32
    requires
        crm < 16,
    returns
        0xd503_30bfu32 | place(crm as u32, 8),
{
    0xd503_30bfu32 | place(crm as u32, 8)
}

/// `FMUL Sd, Sn, Sm`.
#[verifier::allow_in_spec]
pub fn fmul_s(rd: u8, rn: u8, rm: u8) -> u32
    requires
        rd < 32,
        rn < 32,
        rm < 32,
    returns
        rrr(0x1e20_0800, rd, rn, rm),
{
    rrr(0x1e20_0800, rd, rn, rm)
}

/// `FMUL Dd, Dn, Dm`.
#[verifier::allow_in_spec]
pub fn fmul_d(rd: u8, rn: u8, rm: u8) -> u32
    requires
        rd < 32,
        rn < 32,
        rm < 32,
    returns
        rrr(0x1e60_0800, rd, rn, rm),
{
    rrr(0x1e60_0800, rd, rn, rm)
}

/// `FMULX Sd, Sn, Sm`.
#[verifier::allow_in_spec]
pub fn fmulx_s(rd: u8, rn: u8, rm: u8) -> u32
    requires
        rd < 32,
        rn < 32,
        rm < 32,
    returns
        rrr(0x5e20_dc00, rd, rn, rm),
{
    rrr(0x5e20_dc00, rd, rn, rm)
}

/// `FMULX Dd, Dn, Dm`.
#[verifier::allow_in_spec]
pub fn fmulx_d(rd: u8, rn: u8, rm: u8) -> u32
    requires
        rd < 32,
        rn < 32,
        rm < 32,
    returns
        rrr(0x5e60_dc00, rd, rn, rm),
{
    rrr(0x5e60_dc00, rd, rn, rm)
}

/// `FADD Sd, Sn, Sm`.
#[verifier::allow_in_spec]
pub fn fadd_s(rd: u8, rn: u8, rm: u8) -> u32
    requires
        rd < 32,
        rn < 32,
        rm < 32,
    returns
        rrr(0x1e20_2800, rd, rn, rm),
{
    rrr(0x1e20_2800, rd, rn, rm)
}

/// `FADD Dd, Dn, Dm`.
#[verifier::allow_in_spec]
pub fn fadd_d(rd: u8, rn: u8, rm: u8) -> u32
    requires
        rd < 32,
        rn < 32,
        rm < 32,
    returns
        rrr(0x1e60_2800, rd, rn, rm),
{
    rrr(0x1e60_2800, rd, rn, rm)
}

/// `FSUB Sd, Sn, Sm`.
#[verifier::allow_in_spec]
pub fn fsub_s(rd: u8, rn: u8, rm: u8) -> u32
    requires
        rd < 32,
        rn < 32,
        rm < 32,
    returns
        rrr(0x1e20_3800, rd, rn, rm),
{
    rrr(0x1e20_3800, rd, rn, rm)
}

/// `FSUB Dd, Dn, Dm`.
#[verifier::allow_in_spec]
pub fn fsub_d(rd: u8, rn: u8, rm: u8) -> u32
    requires
        rd < 32,
        rn < 32,
        rm < 32,
    returns
        rrr(0x1e60_3800, rd, rn, rm),
{
    rrr(0x1e60_3800, rd, rn, rm)
}

/// `FDIV Sd, Sn, Sm`.
#[verifier::allow_in_spec]
pub fn fdiv_s(rd: u8, rn: u8, rm: u8) -> u32
    requires
        rd < 32,
        rn < 32,
        rm < 32,
    returns
        rrr(0x1e20_1800, rd, rn, rm),
{
    rrr(0x1e20_1800, rd, rn, rm)
}

/// `FDIV Dd, Dn, Dm`.
#[verifier::allow_in_spec]
pub fn fdiv_d(rd: u8, rn: u8, rm: u8) -> u32
    requires
        rd < 32,
        rn < 32,
        rm < 32,
    returns
        rrr(0x1e60_1800, rd, rn, rm),
{
    rrr(0x1e60_1800, rd, rn, rm)
}

/// `FMAXNM Sd, Sn, Sm`.
#[verifier::allow_in_spec]
pub fn fmaxnm_s(rd: u8, rn: u8, rm: u8) -> u32
    requires
        rd < 32,
        rn < 32,
        rm < 32,
    returns
        rrr(0x1e20_6800, rd, rn, rm),
{
    rrr(0x1e20_6800, rd, rn, rm)
}

/// `FMAXNM Dd, Dn, Dm`.
#[verifier::allow_in_spec]
pub fn fmaxnm_d(rd: u8, rn: u8, rm: u8) -> u32
    requires
        rd < 32,
        rn < 32,
        rm < 32,
    returns
        rrr(0x1e60_6800, rd, rn, rm),
{
    rrr(0x1e60_6800, rd, rn, rm)
}

/// `FMAX Sd, Sn, Sm`.
#[verifier::allow_in_spec]
pub fn fmax_s(rd: u8, rn: u8, rm: u8) -> u32
    requires
        rd < 32,
        rn < 32,
        rm < 32,
    returns
        rrr(0x1e20_4800, rd, rn, rm),
{
    rrr(0x1e20_4800, rd, rn, rm)
}

/// `FMAX Dd, Dn, Dm`.
#[verifier::allow_in_spec]
pub fn fmax_d(rd: u8, rn: u8, rm: u8) -> u32
    requires
        rd < 32,
        rn < 32,
        rm < 32,
    returns
        rrr(0x1e60_4800, rd, rn, rm),
{
    rrr(0x1e60_4800, rd, rn, rm)
}

/// `FMINNM Sd, Sn, Sm`.
#[verifier::allow_in_spec]
pub fn fminnm_s(rd: u8, rn: u8, rm: u8) -> u32
    requires
        rd < 32,
        rn < 32,
        rm < 32,
    returns
        rrr(0x1e20_7800, rd, rn, rm),
{
    rrr(0x1e20_7800, rd, rn, rm)
}

/// `FMINNM Dd, Dn, Dm`.
#[verifier::allow_in_spec]
pub fn fminnm_d(rd: u8, rn: u8, rm: u8) -> u32
    requires
        rd < 32,
        rn < 32,
        rm < 32,
    returns
        rrr(0x1e60_7800, rd, rn, rm),
{
    rrr(0x1e60_7800, rd, rn, rm)
}

/// `FMIN Sd, Sn, Sm`.
#[verifier::allow_in_spec]
pub fn fmin_s(rd: u8, rn: u8, rm: u8) -> u32
    requires
        rd < 32,
        rn < 32,
        rm < 32,
    returns
        rrr(0x1e20_5800, rd, rn, rm),
{
    rrr(0x1e20_5800, rd, rn, rm)
}

/// `FMIN Dd, Dn, Dm`.
#[verifier::allow_in_spec]
pub fn fmin_d(rd: u8, rn: u8, rm: u8) -> u32
    requires
        rd < 32,
        rn < 32,
        rm < 32,
    returns
        rrr(0x1e60_5800, rd, rn, rm),
{
    rrr(0x1e60_5800, rd, rn, rm)
}

/// `FRECPS Sd, Sn, Sm`.
#[verifier::allow_in_spec]
pub fn frecps_s(rd: u8, rn: u8, rm: u8) -> u32
    requires
        rd < 32,
        rn < 32,
        rm < 32,
    returns
        rrr(0x5e20_fc00, rd, rn, rm),
{
    rrr(0x5e20_fc00, rd, rn, rm)
}

/// `FRECPS Dd, Dn, Dm`.
#[verifier::allow_in_spec]
pub fn frecps_d(rd: u8, rn: u8, rm: u8) -> u32
    requires
        rd < 32,
        rn < 32,
        rm < 32,
    returns
        rrr(0x5e60_fc00, rd, rn, rm),
{
    rrr(0x5e60_fc00, rd, rn, rm)
}

/// `FRSQRTS Sd, Sn, Sm`.
#[verifier::allow_in_spec]
pub fn frsqrts_s(rd: u8, rn: u8, rm: u8) -> u32
    requires
        rd < 32,
        rn < 32,
        rm < 32,
    returns
        rrr(0x5ea0_fc00, rd, rn, rm),
{
    rrr(0x5ea0_fc00, rd, rn, rm)
}

/// `FRSQRTS Dd, Dn, Dm`.
#[verifier::allow_in_spec]
pub fn frsqrts_d(rd: u8, rn: u8, rm: u8) -> u32
    requires
        rd < 32,
        rn < 32,
        rm < 32,
    returns
        rrr(0x5ee0_fc00, rd, rn, rm),
{
    rrr(0x5ee0_fc00, rd, rn, rm)
}

/// `FABS Sd, Sn`.
#[verifier::allow_in_spec]
pub fn fabs_s(rd: u8, rn: u8) -> u32
    requires
        rd < 32,
        rn < 32,
    returns
        rr(0x1e20_c000, rd, rn),
{
    rr(0x1e20_c000, rd, rn)
}

/// `FABS Dd, Dn`.
#[verifier::allow_in_spec]
pub fn fabs_d(rd: u8, rn: u8) -> u32
    requires
        rd < 32,
        rn < 32,
    returns
        rr(0x1e60_c000, rd, rn),
{
    rr(0x1e60_c000, rd, rn)
}

/// `FNEG Sd, Sn`.
#[verifier::allow_in_spec]
pub fn fneg_s(rd: u8, rn: u8) -> u32
    requires
        rd < 32,
        rn < 32,
    returns
        rr(0x1e21_4000, rd, rn),
{
    rr(0x1e21_4000, rd, rn)
}

/// `FNEG Dd, Dn`.
#[verifier::allow_in_spec]
pub fn fneg_d(rd: u8, rn: u8) -> u32
    requires
        rd < 32,
        rn < 32,
    returns
        rr(0x1e61_4000, rd, rn),
{
    rr(0x1e61_4000, rd, rn)
}

/// `FSQRT Sd, Sn`.
#[verifier::allow_in_spec]
pub fn fsqrt_s(rd: u8, rn: u8) -> u32
    requires
        rd < 32,
        rn < 32,
    returns
        rr(0x1e21_c000, rd, rn),
{
    rr(0x1e21_c000, rd, rn)
}

/// `FSQRT Dd, Dn`.
#[verifier::allow_in_spec]
pub fn fsqrt_d(rd: u8, rn: u8) -> u32
    requires
        rd < 32,
        rn < 32,
    returns
        rr(0x1e61_c000, rd, rn),
{
    rr(0x1e61_c000, rd, rn)
}

/// `FRECPE Sd, Sn`.
#[verifier::allow_in_spec]
pub fn frecpe_s(rd: u8, rn: u8) -> u32
    requires
        rd < 32,
        rn < 32,
    returns
        rr(0x5ea1_d800, rd, rn),
{
    rr(0x5ea1_d800, rd, rn)
}

/// `FRECPE Dd, Dn`.
#[verifier::allow_in_spec]
pub fn frecpe_d(rd: u8, rn: u8) -> u32
    requires
        rd < 32,
        rn < 32,
    returns
        rr(0x5ee1_d800, rd, rn),
{
    rr(0x5ee1_d800, rd, rn)
}

/// `FRECPX Sd, Sn`.
#[verifier::allow_in_spec]
pub fn frecpx_s(rd: u8, rn: u8) -> u32
    requires
        rd < 32,
        rn < 32,
    returns
        rr(0x5ea1_f800, rd, rn),
{
    rr(0x5ea1_f800, rd, rn)
}

/// `FRECPX Dd, Dn`.
#[verifier::allow_in_spec]
pub fn frecpx_d(rd: u8, rn: u8) -> u32
    requires
        rd < 32,
        rn < 32,
    returns
        rr(0x5ee1_f800, rd, rn),
{
    rr(0x5ee1_f800, rd, rn)
}

/// `FRSQRTE Sd, Sn`.
#[verifier::allow_in_spec]
pub fn frsqrte_s(rd: u8, rn: u8) -> u32
    requires
        rd < 32,
        rn < 32,
    returns
        rr(0x7ea1_d800, rd, rn),
{
    rr(0x7ea1_d800, rd, rn)
}

/// `FRSQRTE Dd, Dn`.
#[verifier::allow_in_spec]
pub fn frsqrte_d(rd: u8, rn: u8) -> u32
    requires
        rd < 32,
        rn < 32,
    returns
        rr(0x7ee1_d800, rd, rn),
{
    rr(0x7ee1_d800, rd, rn)
}

/// `FRINTX Sd, Sn`.
#[verifier::allow_in_spec]
pub fn frintx_s(rd: u8, rn: u8) -> u32
    requires
        rd < 32,
        rn < 32,
    returns
        rr(0x1e27_4000, rd, rn),
{
    rr(0x1e27_4000, rd, rn)
}

/// `FRINTX Dd, Dn`.
#[verifier::allow_in_spec]
pub fn frintx_d(rd: u8, rn: u8) -> u32
    requires
        rd < 32,
        rn < 32,
    returns
        rr(0x1e67_4000, rd, rn),
{
    rr(0x1e67_4000, rd, rn)
}

/// `FRINTN Sd, Sn`.
#[verifier::allow_in_spec]
pub fn frintn_s(rd: u8, rn: u8) -> u32
    requires
        rd < 32,
        rn < 32,
    returns
        rr(0x1e24_4000, rd, rn),
{
    rr(0x1e24_4000, rd, rn)
}

/// `FRINTN Dd, Dn`.
#[verifier::allow_in_spec]
pub fn frintn_d(rd: u8, rn: u8) -> u32
    requires
        rd < 32,
        rn < 32,
    returns
        rr(0x1e64_4000, rd, rn),
{
    rr(0x1e64_4000, rd, rn)
}

/// `FRINTP Sd, Sn`.
#[verifier::allow_in_spec]
pub fn frintp_s(rd: u8, rn: u8) -> u32
    requires
        rd < 32,
        rn < 32,
    returns
        rr(0x1e24_c000, rd, rn),
{
    rr(0x1e24_c000, rd, rn)
}

/// `FRINTP Dd, Dn`.
#[verifier::allow_in_spec]
pub fn frintp_d(rd: u8, rn: u8) -> u32
    requires
        rd < 32,
        rn < 32,
    returns
        rr(0x1e64_c000, rd, rn),
{
    rr(0x1e64_c000, rd, rn)
}

/// `FRINTM Sd, Sn`.
#[verifier::allow_in_spec]
pub fn frintm_s(rd: u8, rn: u8) -> u32
    requires
        rd < 32,
        rn < 32,
    returns
        rr(0x1e25_4000, rd, rn),
{
    rr(0x1e25_4000, rd, rn)
}

/// `FRINTM Dd, Dn`.
#[verifier::allow_in_spec]
pub fn frintm_d(rd: u8, rn: u8) -> u32
    requires
        rd < 32,
        rn < 32,
    returns
        rr(0x1e65_4000, rd, rn),
{
    rr(0x1e65_4000, rd, rn)
}

/// `FRINTZ Sd, Sn`.
#[verifier::allow_in_spec]
pub fn frintz_s(rd: u8, rn: u8) -> u32
    requires
        rd < 32,
        rn < 32,
    returns
        rr(0x1e25_c000, rd, rn),
{
    rr(0x1e25_c000, rd, rn)
}

/// `FRINTZ Dd, Dn`.
#[verifier::allow_in_spec]
pub fn frintz_d(rd: u8, rn: u8) -> u32
    requires
        rd < 32,
        rn < 32,
    returns
        rr(0x1e65_c000, rd, rn),
{
    rr(0x1e65_c000, rd, rn)
}

/// `FRINTA Sd, Sn`.
#[verifier::allow_in_spec]
pub fn frinta_s(rd: u8, rn: u8) -> u32
    requires
        rd < 32,
        rn < 32,
    returns
        rr(0x1e26_4000, rd, rn),
{
    rr(0x1e26_4000, rd, rn)
}

/// `FRINTA Dd, Dn`.
#[verifier::allow_in_spec]
pub fn frinta_d(rd: u8, rn: u8) -> u32
    requires
        rd < 32,
        rn < 32,
    returns
        rr(0x1e66_4000, rd, rn),
{
    rr(0x1e66_4000, rd, rn)
}

/// `FCVT Dd, Sn`.
#[verifier::allow_in_spec]
pub fn fcvt_d_from_s(rd: u8, rn: u8) -> u32
    requires
        rd < 32,
        rn < 32,
    returns
        rr(0x1e22_c000, rd, rn),
{
    rr(0x1e22_c000, rd, rn)
}

/// `FCVT Sd, Hn`.
#[verifier::allow_in_spec]
pub fn fcvt_s_from_h(rd: u8, rn: u8) -> u32
    requires
        rd < 32,
        rn < 32,
    returns
        rr(0x1ee2_4000, rd, rn),
{
    rr(0x1ee2_4000, rd, rn)
}

/// `FCVT Dd, Hn`.
#[verifier::allow_in_spec]
pub fn fcvt_d_from_h(rd: u8, rn: u8) -> u32
    requires
        rd < 32,
        rn < 32,
    returns
        rr(0x1ee2_c000, rd, rn),
{
    rr(0x1ee2_c000, rd, rn)
}

/// `FCVT Hd, Sn`.
#[verifier::allow_in_spec]
pub fn fcvt_h_from_s(rd: u8, rn: u8) -> u32
    requires
        rd < 32,
        rn < 32,
    returns
        rr(0x1e23_c000, rd, rn),
{
    rr(0x1e23_c000, rd, rn)
}

/// `FCVT Hd, Dn`.
#[verifier::allow_in_spec]
pub fn fcvt_h_from_d(rd: u8, rn: u8) -> u32
    requires
        rd < 32,
        rn < 32,
    returns
        rr(0x1e63_c000, rd, rn),
{
    rr(0x1e63_c000, rd, rn)
}

/// `FCVTXN Sd, Dn`.
#[verifier::allow_in_spec]
pub fn fcvtxn_s_from_d(rd: u8, rn: u8) -> u32
    requires
        rd < 32,
        rn < 32,
    returns
        rr(0x7e61_6800, rd, rn),
{
    rr(0x7e61_6800, rd, rn)
}

/// `FCVT Sd, Dn`.
#[verifier::allow_in_spec]
pub fn fcvt_s_from_d(rd: u8, rn: u8) -> u32
    requires
        rd < 32,
        rn < 32,
    returns
        rr(0x1e62_4000, rd, rn),
{
    rr(0x1e62_4000, rd, rn)
}

/// `FCMP Sn, Sm`.
#[verifier::allow_in_spec]
pub fn fcmp_s(rn: u8, rm: u8) -> u32
    requires
        rn < 32,
        rm < 32,
    returns
        rrr(0x1e20_2000, 0, rn, rm),
{
    rrr(0x1e20_2000, 0, rn, rm)
}

/// `FCMP Dn, Dm`.
#[verifier::allow_in_spec]
pub fn fcmp_d(rn: u8, rm: u8) -> u32
    requires
        rn < 32,
        rm < 32,
    returns
        rrr(0x1e60_2000, 0, rn, rm),
{
    rrr(0x1e60_2000, 0, rn, rm)
}

/// `FCMP Sn, #0.0`.
#[verifier::allow_in_spec]
pub fn fcmp_s_zero(rn: u8) -> u32
    requires
        rn < 32,
    returns
        rr(0x1e20_2008, 0, rn),
{
    rr(0x1e20_2008, 0, rn)
}

/// `FCMP Dn, #0.0`.
#[verifier::allow_in_spec]
pub fn fcmp_d_zero(rn: u8) -> u32
    requires
        rn < 32,
    returns
        rr(0x1e60_2008, 0, rn),
{
    rr(0x1e60_2008, 0, rn)
}

/// `FCMPE Sn, Sm`.
#[verifier::allow_in_spec]
pub fn fcmpe_s(rn: u8, rm: u8) -> u32
    requires
        rn < 32,
        rm < 32,
    returns
        rrr(0x1e20_2010, 0, rn, rm),
{
    rrr(0x1e20_2010, 0, rn, rm)
}

/// `FCMPE Dn, Dm`.
#[verifier::allow_in_spec]
pub fn fcmpe_d(rn: u8, rm: u8) -> u32
    requires
        rn < 32,
        rm < 32,
    returns
        rrr(0x1e60_2010, 0, rn, rm),
{
    rrr(0x1e60_2010, 0, rn, rm)
}

/// `FCMPE Sn, #0.0`.
#[verifier::allow_in_spec]
pub fn fcmpe_s_zero(rn: u8) -> u32
    requires
        rn < 32,
    returns
        rr(0x1e20_2018, 0, rn),
{
    rr(0x1e20_2018, 0, rn)
}

/// `FCMPE Dn, #0.0`.
#[verifier::allow_in_spec]
pub fn fcmpe_d_zero(rn: u8) -> u32
    requires
        rn < 32,
    returns
        rr(0x1e60_2018, 0, rn),
{
    rr(0x1e60_2018, 0, rn)
}

/// `FCVTNU Wd, Sn`.
#[verifier::allow_in_spec]
pub fn fcvtnu_w_from_s(rd: u8, rn: u8) -> u32
    requires
        rd < 32,
        rn < 32,
    returns
        rr(0x1e21_0000, rd, rn),
{
    rr(0x1e21_0000, rd, rn)
}

/// `FCVTNU Wd, Dn`.
#[verifier::allow_in_spec]
pub fn fcvtnu_w_from_d(rd: u8, rn: u8) -> u32
    requires
        rd < 32,
        rn < 32,
    returns
        rr(0x1e61_0000, rd, rn),
{
    rr(0x1e61_0000, rd, rn)
}

/// `FCVTNU Xd, Sn`.
#[verifier::allow_in_spec]
pub fn fcvtnu_x_from_s(rd: u8, rn: u8) -> u32
    requires
        rd < 32,
        rn < 32,
    returns
        rr(0x9e21_0000, rd, rn),
{
    rr(0x9e21_0000, rd, rn)
}

/// `FCVTNU Xd, Dn`.
#[verifier::allow_in_spec]
pub fn fcvtnu_x_from_d(rd: u8, rn: u8) -> u32
    requires
        rd < 32,
        rn < 32,
    returns
        rr(0x9e61_0000, rd, rn),
{
    rr(0x9e61_0000, rd, rn)
}

/// `FCVTPU Wd, Sn`.
#[verifier::allow_in_spec]
pub fn fcvtpu_w_from_s(rd: u8, rn: u8) -> u32
    requires
        rd < 32,
        rn < 32,
    returns
        rr(0x1e29_0000, rd, rn),
{
    rr(0x1e29_0000, rd, rn)
}

/// `FCVTPU Wd, Dn`.
#[verifier::allow_in_spec]
pub fn fcvtpu_w_from_d(rd: u8, rn: u8) -> u32
    requires
        rd < 32,
        rn < 32,
    returns
        rr(0x1e69_0000, rd, rn),
{
    rr(0x1e69_0000, rd, rn)
}

/// `FCVTPU Xd, Sn`.
#[verifier::allow_in_spec]
pub fn fcvtpu_x_from_s(rd: u8, rn: u8) -> u32
    requires
        rd < 32,
        rn < 32,
    returns
        rr(0x9e29_0000, rd, rn),
{
    rr(0x9e29_0000, rd, rn)
}

/// `FCVTPU Xd, Dn`.
#[verifier::allow_in_spec]
pub fn fcvtpu_x_from_d(rd: u8, rn: u8) -> u32
    requires
        rd < 32,
        rn < 32,
    returns
        rr(0x9e69_0000, rd, rn),
{
    rr(0x9e69_0000, rd, rn)
}

/// `FCVTMU Wd, Sn`.
#[verifier::allow_in_spec]
pub fn fcvtmu_w_from_s(rd: u8, rn: u8) -> u32
    requires
        rd < 32,
        rn < 32,
    returns
        rr(0x1e31_0000, rd, rn),
{
    rr(0x1e31_0000, rd, rn)
}

/// `FCVTMU Wd, Dn`.
#[verifier::allow_in_spec]
pub fn fcvtmu_w_from_d(rd: u8, rn: u8) -> u32
    requires
        rd < 32,
        rn < 32,
    returns
        rr(0x1e71_0000, rd, rn),
{
    rr(0x1e71_0000, rd, rn)
}

/// `FCVTMU Xd, Sn`.
#[verifier::allow_in_spec]
pub fn fcvtmu_x_from_s(rd: u8, rn: u8) -> u32
    requires
        rd < 32,
        rn < 32,
    returns
        rr(0x9e31_0000, rd, rn),
{
    rr(0x9e31_0000, rd, rn)
}

/// `FCVTMU Xd, Dn`.
#[verifier::allow_in_spec]
pub fn fcvtmu_x_from_d(rd: u8, rn: u8) -> u32
    requires
        rd < 32,
        rn < 32,
    returns
        rr(0x9e71_0000, rd, rn),
{
    rr(0x9e71_0000, rd, rn)
}

/// `FCVTZU Wd, Sn`.
#[verifier::allow_in_spec]
pub fn fcvtzu_w_from_s(rd: u8, rn: u8) -> u32
    requires
        rd < 32,
        rn < 32,
    returns
        rr(0x1e39_0000, rd, rn),
{
    rr(0x1e39_0000, rd, rn)
}

/// `FCVTZU Wd, Dn`.
#[verifier::allow_in_spec]
pub fn fcvtzu_w_from_d(rd: u8, rn: u8) -> u32
    requires
        rd < 32,
        rn < 32,
    returns
        rr(0x1e79_0000, rd, rn),
{
    rr(0x1e79_0000, rd, rn)
}

/// `FCVTZU Xd, Sn`.
#[verifier::allow_in_spec]
pub fn fcvtzu_x_from_s(rd: u8, rn: u8) -> u32
    requires
        rd < 32,
        rn < 32,
    returns
        rr(0x9e39_0000, rd, rn),
{
    rr(0x9e39_0000, rd, rn)
}

/// `FCVTZU Xd, Dn`.
#[verifier::allow_in_spec]
pub fn fcvtzu_x_from_d(rd: u8, rn: u8) -> u32
    requires
        rd < 32,
        rn < 32,
    returns
        rr(0x9e79_0000, rd, rn),
{
    rr(0x9e79_0000, rd, rn)
}

/// `FCVTAU Wd, Sn`.
#[verifier::allow_in_spec]
pub fn fcvtau_w_from_s(rd: u8, rn: u8) -> u32
    requires
        rd < 32,
        rn < 32,
    returns
        rr(0x1e25_0000, rd, rn),
{
    rr(0x1e25_0000, rd, rn)
}

/// `FCVTAU Wd, Dn`.
#[verifier::allow_in_spec]
pub fn fcvtau_w_from_d(rd: u8, rn: u8) -> u32
    requires
        rd < 32,
        rn < 32,
    returns
        rr(0x1e65_0000, rd, rn),
{
    rr(0x1e65_0000, rd, rn)
}

/// `FCVTAU Xd, Sn`.
#[verifier::allow_in_spec]
pub fn fcvtau_x_from_s(rd: u8, rn: u8) -> u32
    requires
        rd < 32,
        rn < 32,
    returns
        rr(0x9e25_0000, rd, rn),
{
    rr(0x9e25_0000, rd, rn)
}

/// `FCVTAU Xd, Dn`.
#[verifier::allow_in_spec]
pub fn fcvtau_x_from_d(rd: u8, rn: u8) -> u32
    requires
        rd < 32,
        rn < 32,
    returns
        rr(0x9e65_0000, rd, rn),
{
    rr(0x9e65_0000, rd, rn)
}

/// `FCVTNS Wd, Sn`.
#[verifier::allow_in_spec]
pub fn fcvtns_w_from_s(rd: u8, rn: u8) -> u32
    requires
        rd < 32,
        rn < 32,
    returns
        rr(0x1e20_0000, rd, rn),
{
    rr(0x1e20_0000, rd, rn)
}

/// `FCVTNS Wd, Dn`.
#[verifier::allow_in_spec]
pub fn fcvtns_w_from_d(rd: u8, rn: u8) -> u32
    requires
        rd < 32,
        rn < 32,
    returns
        rr(0x1e60_0000, rd, rn),
{
    rr(0x1e60_0000, rd, rn)
}

/// `FCVTNS Xd, Sn`.
#[verifier::allow_in_spec]
pub fn fcvtns_x_from_s(rd: u8, rn: u8) -> u32
    requires
        rd < 32,
        rn < 32,
    returns
        rr(0x9e20_0000, rd, rn),
{
    rr(0x9e20_0000, rd, rn)
}

/// `FCVTNS Xd, Dn`.
#[verifier::allow_in_spec]
pub fn fcvtns_x_from_d(rd: u8, rn: u8) -> u32
    requires
        rd < 32,
        rn < 32,
    returns
        rr(0x9e60_0000, rd, rn),
{
    rr(0x9e60_0000, rd, rn)
}

/// `FCVTPS Wd, Sn`.
#[verifier::allow_in_spec]
pub fn fcvtps_w_from_s(rd: u8, rn: u8) -> u32
    requires
        rd < 32,
        rn < 32,
    returns
        rr(0x1e28_0000, rd, rn),
{
    rr(0x1e28_0000, rd, rn)
}

/// `FCVTPS Wd, Dn`.
#[verifier::allow_in_spec]
pub fn fcvtps_w_from_d(rd: u8, rn: u8) -> u32
    requires
        rd < 32,
        rn < 32,
    returns
        rr(0x1e68_0000, rd, rn),
{
    rr(0x1e68_0000, rd, rn)
}

/// `FCVTPS Xd, Sn`.
#[verifier::allow_in_spec]
pub fn fcvtps_x_from_s(rd: u8, rn: u8) -> u32
    requires
        rd < 32,
        rn < 32,
    returns
        rr(0x9e28_0000, rd, rn),
{
    rr(0x9e28_0000, rd, rn)
}

/// `FCVTPS Xd, Dn`.
#[verifier::allow_in_spec]
pub fn fcvtps_x_from_d(rd: u8, rn: u8) -> u32
    requires
        rd < 32,
        rn < 32,
    returns
        rr(0x9e68_0000, rd, rn),
{
    rr(0x9e68_0000, rd, rn)
}

/// `FCVTMS Wd, Sn`.
#[verifier::allow_in_spec]
pub fn fcvtms_w_from_s(rd: u8, rn: u8) -> u32
    requires
        rd < 32,
        rn < 32,
    returns
        rr(0x1e30_0000, rd, rn),
{
    rr(0x1e30_0000, rd, rn)
}

/// `FCVTMS Wd, Dn`.
#[verifier::allow_in_spec]
pub fn fcvtms_w_from_d(rd: u8, rn: u8) -> u32
    requires
        rd < 32,
        rn < 32,
    returns
        rr(0x1e70_0000, rd, rn),
{
    rr(0x1e70_0000, rd, rn)
}

/// `FCVTMS Xd, Sn`.
#[verifier::allow_in_spec]
pub fn fcvtms_x_from_s(rd: u8, rn: u8) -> u32
    requires
        rd < 32,
        rn < 32,
    returns
        rr(0x9e30_0000, rd, rn),
{
    rr(0x9e30_0000, rd, rn)
}

/// `FCVTMS Xd, Dn`.
#[verifier::allow_in_spec]
pub fn fcvtms_x_from_d(rd: u8, rn: u8) -> u32
    requires
        rd < 32,
        rn < 32,
    returns
        rr(0x9e70_0000, rd, rn),
{
    rr(0x9e70_0000, rd, rn)
}

/// `FCVTZS Wd, Sn`.
#[verifier::allow_in_spec]
pub fn fcvtzs_w_from_s(rd: u8, rn: u8) -> u32
    requires
        rd < 32,
        rn < 32,
    returns
        rr(0x1e38_0000, rd, rn),
{
    rr(0x1e38_0000, rd, rn)
}

/// `FCVTZS Wd, Dn`.
#[verifier::allow_in_spec]
pub fn fcvtzs_w_from_d(rd: u8, rn: u8) -> u32
    requires
        rd < 32,
        rn < 32,
    returns
        rr(0x1e78_0000, rd, rn),
{
    rr(0x1e78_0000, rd, rn)
}

/// `FCVTZS Xd, Sn`.
#[verifier::allow_in_spec]
pub fn fcvtzs_x_from_s(rd: u8, rn: u8) -> u32
    requires
        rd < 32,
        rn < 32,
    returns
        rr(0x9e38_0000, rd, rn),
{
    rr(0x9e38_0000, rd, rn)
}

/// `FCVTZS Xd, Dn`.
#[verifier::allow_in_spec]
pub fn fcvtzs_x_from_d(rd: u8, rn: u8) -> u32
    requires
        rd < 32,
        rn < 32,
    returns
        rr(0x9e78_0000, rd, rn),
{
    rr(0x9e78_0000, rd, rn)
}

/// `FCVTAS Wd, Sn`.
#[verifier::allow_in_spec]
pub fn fcvtas_w_from_s(rd: u8, rn: u8) -> u32
    requires
        rd < 32,
        rn < 32,
    returns
        rr(0x1e24_0000, rd, rn),
{
    rr(0x1e24_0000, rd, rn)
}

/// `FCVTAS Wd, Dn`.
#[verifier::allow_in_spec]
pub fn fcvtas_w_from_d(rd: u8, rn: u8) -> u32
    requires
        rd < 32,
        rn < 32,
    returns
        rr(0x1e64_0000, rd, rn),
{
    rr(0x1e64_0000, rd, rn)
}

/// `FCVTAS Xd, Sn`.
#[verifier::allow_in_spec]
pub fn fcvtas_x_from_s(rd: u8, rn: u8) -> u32
    requires
        rd < 32,
        rn < 32,
    returns
        rr(0x9e24_0000, rd, rn),
{
    rr(0x9e24_0000, rd, rn)
}

/// `FCVTAS Xd, Dn`.
#[verifier::allow_in_spec]
pub fn fcvtas_x_from_d(rd: u8, rn: u8) -> u32
    requires
        rd < 32,
        rn < 32,
    returns
        rr(0x9e64_0000, rd, rn),
{
    rr(0x9e64_0000, rd, rn)
}

/// `UCVTF Sd, Wn`.
#[verifier::allow_in_spec]
pub fn ucvtf_s_from_w(rd: u8, rn: u8) -> u32
    requires
        rd < 32,
        rn < 32,
    returns
        rr(0x1e23_0000, rd, rn),
{
    rr(0x1e23_0000, rd, rn)
}

/// `UCVTF Dd, Wn`.
#[verifier::allow_in_spec]
pub fn ucvtf_d_from_w(rd: u8, rn: u8) -> u32
    requires
        rd < 32,
        rn < 32,
    returns
        rr(0x1e63_0000, rd, rn),
{
    rr(0x1e63_0000, rd, rn)
}

/// `UCVTF Sd, Xn`.
#[verifier::allow_in_spec]
pub fn ucvtf_s_from_x(rd: u8, rn: u8) -> u32
    requires
        rd < 32,
        rn < 32,
    returns
        rr(0x9e23_0000, rd, rn),
{
    rr(0x9e23_0000, rd, rn)
}

/// `UCVTF Dd, Xn`.
#[verifier::allow_in_spec]
pub fn ucvtf_d_from_x(rd: u8, rn: u8) -> u32
    requires
        rd < 32,
        rn < 32,
    returns
        rr(0x9e63_0000, rd, rn),
{
    rr(0x9e63_0000, rd, rn)
}

/// `SCVTF Sd, Wn`.
#[verifier::allow_in_spec]
pub fn scvtf_s_from_w(rd: u8, rn: u8) -> u32
    requires
        rd < 32,
        rn < 32,
    returns
        rr(0x1e22_0000, rd, rn),
{
    rr(0x1e22_0000, rd, rn)
}

/// `SCVTF Dd, Wn`.
#[verifier::allow_in_spec]
pub fn scvtf_d_from_w(rd: u8, rn: u8) -> u32
    requires
        rd < 32,
        rn < 32,
    returns
        rr(0x1e62_0000, rd, rn),
{
    rr(0x1e62_0000, rd, rn)
}

/// `SCVTF Sd, Xn`.
#[verifier::allow_in_spec]
pub fn scvtf_s_from_x(rd: u8, rn: u8) -> u32
    requires
        rd < 32,
        rn < 32,
    returns
        rr(0x9e22_0000, rd, rn),
{
    rr(0x9e22_0000, rd, rn)
}

/// `SCVTF Dd, Xn`.
#[verifier::allow_in_spec]
pub fn scvtf_d_from_x(rd: u8, rn: u8) -> u32
    requires
        rd < 32,
        rn < 32,
    returns
        rr(0x9e62_0000, rd, rn),
{
    rr(0x9e62_0000, rd, rn)
}

/// `FCVTZU Wd, Sn, #fbits`.
#[verifier::allow_in_spec]
pub fn fcvtzu_w_from_s_fixed(rd: u8, rn: u8, fbits: u8) -> u32
    requires
        rd < 32,
        rn < 32,
        1 <= fbits,
        fbits <= 32,
    returns
        rr(0x1e19_0000, rd, rn) | place((64 - fbits) as u32, 10),
{
    rr(0x1e19_0000, rd, rn) | place((64 - fbits) as u32, 10)
}

/// `FCVTZU Wd, Dn, #fbits`.
#[verifier::allow_in_spec]
pub fn fcvtzu_w_from_d_fixed(rd: u8, rn: u8, fbits: u8) -> u32
    requires
        rd < 32,
        rn < 32,
        1 <= fbits,
        fbits <= 32,
    returns
        rr(0x1e59_0000, rd, rn) | place((64 - fbits) as u32, 10),
{
    rr(0x1e59_0000, rd, rn) | place((64 - fbits) as u32, 10)
}

/// `FCVTZU Xd, Sn, #fbits`.
#[verifier::allow_in_spec]
pub fn fcvtzu_x_from_s_fixed(rd: u8, rn: u8, fbits: u8) -> u32
    requires
        rd < 32,
        rn < 32,
        1 <= fbits,
        fbits <= 64,
    returns
        rr(0x9e19_0000, rd, rn) | place((64 - fbits) as u32, 10),
{
    rr(0x9e19_0000, rd, rn) | place((64 - fbits) as u32, 10)
}

/// `FCVTZU Xd, Dn, #fbits`.
#[verifier::allow_in_spec]
pub fn fcvtzu_x_from_d_fixed(rd: u8, rn: u8, fbits: u8) -> u32
    requires
        rd < 32,
        rn < 32,
        1 <= fbits,
        fbits <= 64,
    returns
        rr(0x9e59_0000, rd, rn) | place((64 - fbits) as u32, 10),
{
    rr(0x9e59_0000, rd, rn) | place((64 - fbits) as u32, 10)
}

/// `FCVTZS Wd, Sn, #fbits`.
#[verifier::allow_in_spec]
pub fn fcvtzs_w_from_s_fixed(rd: u8, rn: u8, fbits: u8) -> u32
    requires
        rd < 32,
        rn < 32,
        1 <= fbits,
        fbits <= 32,
    returns
        rr(0x1e18_0000, rd, rn) | place((64 - fbits) as u32, 10),
{
    rr(0x1e18_0000, rd, rn) | place((64 - fbits) as u32, 10)
}

/// `FCVTZS Wd, Dn, #fbits`.
#[verifier::allow_in_spec]
pub fn fcvtzs_w_from_d_fixed(rd: u8, rn: u8, fbits: u8) -> u32
    requires
        rd < 32,
        rn < 32,
        1 <= fbits,
        fbits <= 32,
    returns
        rr(0x1e58_0000, rd, rn) | place((64 - fbits) as u32, 10),
{
    rr(0x1e58_0000, rd, rn) | place((64 - fbits) as u32, 10)
}

/// `FCVTZS Xd, Sn, #fbits`.
#[verifier::allow_in_spec]
pub fn fcvtzs_x_from_s_fixed(rd: u8, rn: u8, fbits: u8) -> u32
    requires
        rd < 32,
        rn < 32,
        1 <= fbits,
        fbits <= 64,
    returns
        rr(0x9e18_0000, rd, rn) | place((64 - fbits) as u32, 10),
{
    rr(0x9e18_0000, rd, rn) | place((64 - fbits) as u32, 10)
}

/// `FCVTZS Xd, Dn, #fbits`.
#[verifier::allow_in_spec]
pub fn fcvtzs_x_from_d_fixed(rd: u8, rn: u8, fbits: u8) -> u32
    requires
        rd < 32,
        rn < 32,
        1 <= fbits,
        fbits <= 64,
    returns
        rr(0x9e58_0000, rd, rn) | place((64 - fbits) as u32, 10),
{
    rr(0x9e58_0000, rd, rn) | place((64 - fbits) as u32, 10)
}

/// `UCVTF Sd, Wn, #fbits`.
#[verifier::allow_in_spec]
pub fn ucvtf_s_from_w_fixed(rd: u8, rn: u8, fbits: u8) -> u32
    requires
        rd < 32,
        rn < 32,
        1 <= fbits,
        fbits <= 32,
    returns
        rr(0x1e03_0000, rd, rn) | place((64 - fbits) as u32, 10),
{
    rr(0x1e03_0000, rd, rn) | place((64 - fbits) as u32, 10)
}

/// `UCVTF Dd, Wn, #fbits`.
#[verifier::allow_in_spec]
pub fn ucvtf_d_from_w_fixed(rd: u8, rn: u8, fbits: u8) -> u32
    requires
        rd < 32,
        rn < 32,
        1 <= fbits,
        fbits <= 32,
    returns
        rr(0x1e43_0000, rd, rn) | place((64 - fbits) as u32, 10),
{
    rr(0x1e43_0000, rd, rn) | place((64 - fbits) as u32, 10)
}

/// `UCVTF Sd, Xn, #fbits`.
#[verifier::allow_in_spec]
pub fn ucvtf_s_from_x_fixed(rd: u8, rn: u8, fbits: u8) -> u32
    requires
        rd < 32,
        rn < 32,
        1 <= fbits,
        fbits <= 64,
    returns
        rr(0x9e03_0000, rd, rn) | place((64 - fbits) as u32, 10),
{
    rr(0x9e03_0000, rd, rn) | place((64 - fbits) as u32, 10)
}

/// `UCVTF Dd, Xn, #fbits`.
#[verifier::allow_in_spec]
pub fn ucvtf_d_from_x_fixed(rd: u8, rn: u8, fbits: u8) -> u32
    requires
        rd < 32,
        rn < 32,
        1 <= fbits,
        fbits <= 64,
    returns
        rr(0x9e43_0000, rd, rn) | place((64 - fbits) as u32, 10),
{
    rr(0x9e43_0000, rd, rn) | place((64 - fbits) as u32, 10)
}

/// `SCVTF Sd, Wn, #fbits`.
#[verifier::allow_in_spec]
pub fn scvtf_s_from_w_fixed(rd: u8, rn: u8, fbits: u8) -> u32
    requires
        rd < 32,
        rn < 32,
        1 <= fbits,
        fbits <= 32,
    returns
        rr(0x1e02_0000, rd, rn) | place((64 - fbits) as u32, 10),
{
    rr(0x1e02_0000, rd, rn) | place((64 - fbits) as u32, 10)
}

/// `SCVTF Dd, Wn, #fbits`.
#[verifier::allow_in_spec]
pub fn scvtf_d_from_w_fixed(rd: u8, rn: u8, fbits: u8) -> u32
    requires
        rd < 32,
        rn < 32,
        1 <= fbits,
        fbits <= 32,
    returns
        rr(0x1e42_0000, rd, rn) | place((64 - fbits) as u32, 10),
{
    rr(0x1e42_0000, rd, rn) | place((64 - fbits) as u32, 10)
}

/// `SCVTF Sd, Xn, #fbits`.
#[verifier::allow_in_spec]
pub fn scvtf_s_from_x_fixed(rd: u8, rn: u8, fbits: u8) -> u32
    requires
        rd < 32,
        rn < 32,
        1 <= fbits,
        fbits <= 64,
    returns
        rr(0x9e02_0000, rd, rn) | place((64 - fbits) as u32, 10),
{
    rr(0x9e02_0000, rd, rn) | place((64 - fbits) as u32, 10)
}

/// `SCVTF Dd, Xn, #fbits`.
#[verifier::allow_in_spec]
pub fn scvtf_d_from_x_fixed(rd: u8, rn: u8, fbits: u8) -> u32
    requires
        rd < 32,
        rn < 32,
        1 <= fbits,
        fbits <= 64,
    returns
        rr(0x9e42_0000, rd, rn) | place((64 - fbits) as u32, 10),
{
    rr(0x9e42_0000, rd, rn) | place((64 - fbits) as u32, 10)
}

/// `ADD Vd.T, Vn.T, Vm.T`.
#[verifier::allow_in_spec]
pub fn add_v(rd: u8, rn: u8, rm: u8, esize: u8, q: bool) -> u32
    requires
        rd < 32,
        rn < 32,
        rm < 32,
        arrangement(esize, q),
    returns
        vec_rrr(0x0e20_8400, rd, rn, rm, esize, q),
{
    vec_rrr(0x0e20_8400, rd, rn, rm, esize, q)
}

/// `SUB Vd.T, Vn.T, Vm.T`.
#[verifier::allow_in_spec]
pub fn sub_v(rd: u8, rn: u8, rm: u8, esize: u8, q: bool) -> u32
    requires
        rd < 32,
        rn < 32,
        rm < 32,
        arrangement(esize, q),
    returns
        vec_rrr(0x2e20_8400, rd, rn, rm, esize, q),
{
    vec_rrr(0x2e20_8400, rd, rn, rm, esize, q)
}

/// `CMHI Vd.T, Vn.T, Vm.T`.
#[verifier::allow_in_spec]
pub fn cmhi_v(rd: u8, rn: u8, rm: u8, esize: u8, q: bool) -> u32
    requires
        rd < 32,
        rn < 32,
        rm < 32,
        arrangement(esize, q),
    returns
        vec_rrr(0x2e20_3400, rd, rn, rm, esize, q),
{
    vec_rrr(0x2e20_3400, rd, rn, rm, esize, q)
}

/// `SHADD Vd.T, Vn.T, Vm.T`.
#[verifier::allow_in_spec]
pub fn shadd_v(rd: u8, rn: u8, rm: u8, esize: u8, q: bool) -> u32
    requires
        rd < 32,
        rn < 32,
        rm < 32,
        arrangement(esize, q),
    returns
        vec_rrr(0x0e20_0400, rd, rn, rm, esize, q),
{
    vec_rrr(0x0e20_0400, rd, rn, rm, esize, q)
}

/// `SHSUB Vd.T, Vn.T, Vm.T`.
#[verifier::allow_in_spec]
pub fn shsub_v(rd: u8, rn: u8, rm: u8, esize: u8, q: bool) -> u32
    requires
        rd < 32,
        rn < 32,
        rm < 32,
        arrangement(esize, q),
    returns
        vec_rrr(0x0e20_2400, rd, rn, rm, esize, q),
{
    vec_rrr(0x0e20_2400, rd, rn, rm, esize, q)
}

/// `UHADD Vd.T, Vn.T, Vm.T`.
#[verifier::allow_in_spec]
pub fn uhadd_v(rd: u8, rn: u8, rm: u8, esize: u8, q: bool) -> u32
    requires
        rd < 32,
        rn < 32,
        rm < 32,
        arrangement(esize, q),
    returns
        vec_rrr(0x2e20_0400, rd, rn, rm, esize, q),
{
    vec_rrr(0x2e20_0400, rd, rn, rm, esize, q)
}

/// `UHSUB Vd.T, Vn.T, Vm.T`.
#[verifier::allow_in_spec]
pub fn uhsub_v(rd: u8, rn: u8, rm: u8, esize: u8, q: bool) -> u32
    requires
        rd < 32,
        rn < 32,
        rm < 32,
        arrangement(esize, q),
    returns
        vec_rrr(0x2e20_2400, rd, rn, rm, esize, q),
{
    vec_rrr(0x2e20_2400, rd, rn, rm, esize, q)
}

/// `UABD Vd.T, Vn.T, Vm.T`.
#[verifier::allow_in_spec]
pub fn uabd_v(rd: u8, rn: u8, rm: u8, esize: u8, q: bool) -> u32
    requires
        rd < 32,
        rn < 32,
        rm < 32,
        arrangement(esize, q),
    returns
        vec_rrr(0x2e20_7400, rd, rn, rm, esize, q),
{
    vec_rrr(0x2e20_7400, rd, rn, rm, esize, q)
}

/// `SQADD Vd.T, Vn.T, Vm.T`.
#[verifier::allow_in_spec]
pub fn sqadd_v(rd: u8, rn: u8, rm: u8, esize: u8, q: bool) -> u32
    requires
        rd < 32,
        rn < 32,
        rm < 32,
        arrangement(esize, q),
    returns
        vec_rrr(0x0e20_0c00, rd, rn, rm, esize, q),
{
    vec_rrr(0x0e20_0c00, rd, rn, rm, esize, q)
}

/// `SQSUB Vd.T, Vn.T, Vm.T`.
#[verifier::allow_in_spec]
pub fn sqsub_v(rd: u8, rn: u8, rm: u8, esize: u8, q: bool) -> u32
    requires
        rd < 32,
        rn < 32,
        rm < 32,
        arrangement(esize, q),
    returns
        vec_rrr(0x0e20_2c00, rd, rn, rm, esize, q),
{
    vec_rrr(0x0e20_2c00, rd, rn, rm, esize, q)
}

/// `UQADD Vd.T, Vn.T, Vm.T`.
#[verifier::allow_in_spec]
pub fn uqadd_v(rd: u8, rn: u8, rm: u8, esize: u8, q: bool) -> u32
    requires
        rd < 32,
        rn < 32,
        rm < 32,
        arrangement(esize, q),
    returns
        vec_rrr(0x2e20_0c00, rd, rn, rm, esize, q),
{
    vec_rrr(0x2e20_0c00, rd, rn, rm, esize, q)
}

/// `UQSUB Vd.T, Vn.T, Vm.T`.
#[verifier::allow_in_spec]
pub fn uqsub_v(rd: u8, rn: u8, rm: u8, esize: u8, q: bool) -> u32
    requires
        rd < 32,
        rn < 32,
        rm < 32,
        arrangement(esize, q),
    returns
        vec_rrr(0x2e20_2c00, rd, rn, rm, esize, q),
{
    vec_rrr(0x2e20_2c00, rd, rn, rm, esize, q)
}

/// `ZIP1 Vd.T, Vn.T, Vm.T`.
#[verifier::allow_in_spec]
pub fn zip1_v(rd: u8, rn: u8, rm: u8, esize: u8, q: bool) -> u32
    requires
        rd < 32,
        rn < 32,
        rm < 32,
        arrangement(esize, q),
    returns
        vec_rrr(0x0e00_3800, rd, rn, rm, esize, q),
{
    vec_rrr(0x0e00_3800, rd, rn, rm, esize, q)
}

/// `ZIP2 Vd.T, Vn.T, Vm.T`.
#[verifier::allow_in_spec]
pub fn zip2_v(rd: u8, rn: u8, rm: u8, esize: u8, q: bool) -> u32
    requires
        rd < 32,
        rn < 32,
        rm < 32,
        arrangement(esize, q),
    returns
        vec_rrr(0x0e00_7800, rd, rn, rm, esize, q),
{
    vec_rrr(0x0e00_7800, rd, rn, rm, esize, q)
}

/// `UZP1 Vd.T, Vn.T, Vm.T`.
#[verifier::allow_in_spec]
pub fn uzp1_v(rd: u8, rn: u8, rm: u8, esize: u8, q: bool) -> u32
    requires
        rd < 32,
        rn < 32,
        rm < 32,
        arrangement(esize, q),
    returns
        vec_rrr(0x0e00_1800, rd, rn, rm, esize, q),
{
    vec_rrr(0x0e00_1800, rd, rn, rm, esize, q)
}

/// `UZP2 Vd.T, Vn.T, Vm.T`.
#[verifier::allow_in_spec]
pub fn uzp2_v(rd: u8, rn: u8, rm: u8, esize: u8, q: bool) -> u32
    requires
        rd < 32,
        rn < 32,
        rm < 32,
        arrangement(esize, q),
    returns
        vec_rrr(0x0e00_5800, rd, rn, rm, esize, q),
{
    vec_rrr(0x0e00_5800, rd, rn, rm, esize, q)
}

/// `TRN1 Vd.T, Vn.T, Vm.T`.
#[verifier::allow_in_spec]
pub fn trn1_v(rd: u8, rn: u8, rm: u8, esize: u8, q: bool) -> u32
    requires
        rd < 32,
        rn < 32,
        rm < 32,
        arrangement(esize, q),
    returns
        vec_rrr(0x0e00_2800, rd, rn, rm, esize, q),
{
    vec_rrr(0x0e00_2800, rd, rn, rm, esize, q)
}

/// `TRN2 Vd.T, Vn.T, Vm.T`.
#[verifier::allow_in_spec]
pub fn trn2_v(rd: u8, rn: u8, rm: u8, esize: u8, q: bool) -> u32
    requires
        rd < 32,
        rn < 32,
        rm < 32,
        arrangement(esize, q),
    returns
        vec_rrr(0x0e00_6800, rd, rn, rm, esize, q),
{
    vec_rrr(0x0e00_6800, rd, rn, rm, esize, q)
}

/// `CMEQ Vd.T, Vn.T, Vm.T`.
#[verifier::allow_in_spec]
pub fn cmeq_v(rd: u8, rn: u8, rm: u8, esize: u8, q: bool) -> u32
    requires
        rd < 32,
        rn < 32,
        rm < 32,
        arrangement(esize, q),
    returns
        vec_rrr(0x2e20_8c00, rd, rn, rm, esize, q),
{
    vec_rrr(0x2e20_8c00, rd, rn, rm, esize, q)
}

/// `CMGE Vd.T, Vn.T, Vm.T`.
#[verifier::allow_in_spec]
pub fn cmge_v(rd: u8, rn: u8, rm: u8, esize: u8, q: bool) -> u32
    requires
        rd < 32,
        rn < 32,
        rm < 32,
        arrangement(esize, q),
    returns
        vec_rrr(0x0e20_3c00, rd, rn, rm, esize, q),
{
    vec_rrr(0x0e20_3c00, rd, rn, rm, esize, q)
}

/// `CMGT Vd.T, Vn.T, Vm.T`.
#[verifier::allow_in_spec]
pub fn cmgt_v(rd: u8, rn: u8, rm: u8, esize: u8, q: bool) -> u32
    requires
        rd < 32,
        rn < 32,
        rm < 32,
        arrangement(esize, q),
    returns
        vec_rrr(0x0e20_3400, rd, rn, rm, esize, q),
{
    vec_rrr(0x0e20_3400, rd, rn, rm, esize, q)
}

/// `ADDP Vd.T, Vn.T, Vm.T`.
#[verifier::allow_in_spec]
pub fn addp_v(rd: u8, rn: u8, rm: u8, esize: u8, q: bool) -> u32
    requires
        rd < 32,
        rn < 32,
        rm < 32,
        arrangement(esize, q),
    returns
        vec_rrr(0x0e20_bc00, rd, rn, rm, esize, q),
{
    vec_rrr(0x0e20_bc00, rd, rn, rm, esize, q)
}

/// `SSHL Vd.T, Vn.T, Vm.T`.
#[verifier::allow_in_spec]
pub fn sshl_v(rd: u8, rn: u8, rm: u8, esize: u8, q: bool) -> u32
    requires
        rd < 32,
        rn < 32,
        rm < 32,
        arrangement(esize, q),
    returns
        vec_rrr(0x0e20_4400, rd, rn, rm, esize, q),
{
    vec_rrr(0x0e20_4400, rd, rn, rm, esize, q)
}

/// `USHL Vd.T, Vn.T, Vm.T`.
#[verifier::allow_in_spec]
pub fn ushl_v(rd: u8, rn: u8, rm: u8, esize: u8, q: bool) -> u32
    requires
        rd < 32,
        rn < 32,
        rm < 32,
        arrangement(esize, q),
    returns
        vec_rrr(0x2e20_4400, rd, rn, rm, esize, q),
{
    vec_rrr(0x2e20_4400, rd, rn, rm, esize, q)
}

/// `SRSHL Vd.T, Vn.T, Vm.T`.
#[verifier::allow_in_spec]
pub fn srshl_v(rd: u8, rn: u8, rm: u8, esize: u8, q: bool) -> u32
    requires
        rd < 32,
        rn < 32,
        rm < 32,
        arrangement(esize, q),
    returns
        vec_rrr(0x0e20_5400, rd, rn, rm, esize, q),
{
    vec_rrr(0x0e20_5400, rd, rn, rm, esize, q)
}

/// `URSHL Vd.T, Vn.T, Vm.T`.
#[verifier::allow_in_spec]
pub fn urshl_v(rd: u8, rn: u8, rm: u8, esize: u8, q: bool) -> u32
    requires
        rd < 32,
        rn < 32,
        rm < 32,
        arrangement(esize, q),
    returns
        vec_rrr(0x2e20_5400, rd, rn, rm, esize, q),
{
    vec_rrr(0x2e20_5400, rd, rn, rm, esize, q)
}

/// `SQSHL Vd.T, Vn.T, Vm.T`.
#[verifier::allow_in_spec]
pub fn sqshl_v(rd: u8, rn: u8, rm: u8, esize: u8, q: bool) -> u32
    requires
        rd < 32,
        rn < 32,
        rm < 32,
        arrangement(esize, q),
    returns
        vec_rrr(0x0e20_4c00, rd, rn, rm, esize, q),
{
    vec_rrr(0x0e20_4c00, rd, rn, rm, esize, q)
}

/// `UQSHL Vd.T, Vn.T, Vm.T`.
#[verifier::allow_in_spec]
pub fn uqshl_v(rd: u8, rn: u8, rm: u8, esize: u8, q: bool) -> u32
    requires
        rd < 32,
        rn < 32,
        rm < 32,
        arrangement(esize, q),
    returns
        vec_rrr(0x2e20_4c00, rd, rn, rm, esize, q),
{
    vec_rrr(0x2e20_4c00, rd, rn, rm, esize, q)
}

/// `MUL Vd.T, Vn.T, Vm.T (8-, 16- or 32-bit lanes)`.
#[verifier::allow_in_spec]
pub fn mul_v(rd: u8, rn: u8, rm: u8, esize: u8, q: bool) -> u32
    requires
        rd < 32,
        rn < 32,
        rm < 32,
        arrangement(esize, q),
        esize != 64,
    returns
        vec_rrr(0x0e20_9c00, rd, rn, rm, esize, q),
{
    vec_rrr(0x0e20_9c00, rd, rn, rm, esize, q)
}

/// `SMAX Vd.T, Vn.T, Vm.T (8-, 16- or 32-bit lanes)`.
#[verifier::allow_in_spec]
pub fn smax_v(rd: u8, rn: u8, rm: u8, esize: u8, q: bool) -> u32
    requires
        rd < 32,
        rn < 32,
        rm < 32,
        arrangement(esize, q),
        esize != 64,
    returns
        vec_rrr(0x0e20_6400, rd, rn, rm, esize, q),
{
    vec_rrr(0x0e20_6400, rd, rn, rm, esize, q)
}

/// `UMAX Vd.T, Vn.T, Vm.T (8-, 16- or 32-bit lanes)`.
#[verifier::allow_in_spec]
pub fn umax_v(rd: u8, rn: u8, rm: u8, esize: u8, q: bool) -> u32
    requires
        rd < 32,
        rn < 32,
        rm < 32,
        arrangement(esize, q),
        esize != 64,
    returns
        vec_rrr(0x2e20_6400, rd, rn, rm, esize, q),
{
    vec_rrr(0x2e20_6400, rd, rn, rm, esize, q)
}

/// `SMIN Vd.T, Vn.T, Vm.T (8-, 16- or 32-bit lanes)`.
#[verifier::allow_in_spec]
pub fn smin_v(rd: u8, rn: u8, rm: u8, esize: u8, q: bool) -> u32
    requires
        rd < 32,
        rn < 32,
        rm < 32,
        arrangement(esize, q),
        esize != 64,
    returns
        vec_rrr(0x0e20_6c00, rd, rn, rm, esize, q),
{
    vec_rrr(0x0e20_6c00, rd, rn, rm, esize, q)
}

/// `UMIN Vd.T, Vn.T, Vm.T (8-, 16- or 32-bit lanes)`.
#[verifier::allow_in_spec]
pub fn umin_v(rd: u8, rn: u8, rm: u8, esize: u8, q: bool) -> u32
    requires
        rd < 32,
        rn < 32,
        rm < 32,
        arrangement(esize, q),
        esize != 64,
    returns
        vec_rrr(0x2e20_6c00, rd, rn, rm, esize, q),
{
    vec_rrr(0x2e20_6c00, rd, rn, rm, esize, q)
}

/// `SMAXP Vd.T, Vn.T, Vm.T (8-, 16- or 32-bit lanes)`.
#[verifier::allow_in_spec]
pub fn smaxp_v(rd: u8, rn: u8, rm: u8, esize: u8, q: bool) -> u32
    requires
        rd < 32,
        rn < 32,
        rm < 32,
        arrangement(esize, q),
        esize != 64,
    returns
        vec_rrr(0x0e20_a400, rd, rn, rm, esize, q),
{
    vec_rrr(0x0e20_a400, rd, rn, rm, esize, q)
}

/// `UMAXP Vd.T, Vn.T, Vm.T (8-, 16- or 32-bit lanes)`.
#[verifier::allow_in_spec]
pub fn umaxp_v(rd: u8, rn: u8, rm: u8, esize: u8, q: bool) -> u32
    requires
        rd < 32,
        rn < 32,
        rm < 32,
        arrangement(esize, q),
        esize != 64,
    returns
        vec_rrr(0x2e20_a400, rd, rn, rm, esize, q),
{
    vec_rrr(0x2e20_a400, rd, rn, rm, esize, q)
}

/// `SMINP Vd.T, Vn.T, Vm.T (8-, 16- or 32-bit lanes)`.
#[verifier::allow_in_spec]
pub fn sminp_v(rd: u8, rn: u8, rm: u8, esize: u8, q: bool) -> u32
    requires
        rd < 32,
        rn < 32,
        rm < 32,
        arrangement(esize, q),
        esize != 64,
    returns
        vec_rrr(0x0e20_ac00, rd, rn, rm, esize, q),
{
    vec_rrr(0x0e20_ac00, rd, rn, rm, esize, q)
}

/// `UMINP Vd.T, Vn.T, Vm.T (8-, 16- or 32-bit lanes)`.
#[verifier::allow_in_spec]
pub fn uminp_v(rd: u8, rn: u8, rm: u8, esize: u8, q: bool) -> u32
    requires
        rd < 32,
        rn < 32,
        rm < 32,
        arrangement(esize, q),
        esize != 64,
    returns
        vec_rrr(0x2e20_ac00, rd, rn, rm, esize, q),
{
    vec_rrr(0x2e20_ac00, rd, rn, rm, esize, q)
}

/// `SABD Vd.T, Vn.T, Vm.T (8-, 16- or 32-bit lanes)`.
#[verifier::allow_in_spec]
pub fn sabd_v(rd: u8, rn: u8, rm: u8, esize: u8, q: bool) -> u32
    requires
        rd < 32,
        rn < 32,
        rm < 32,
        arrangement(esize, q),
        esize != 64,
    returns
        vec_rrr(0x0e20_7400, rd, rn, rm, esize, q),
{
    vec_rrr(0x0e20_7400, rd, rn, rm, esize, q)
}

/// `SRHADD Vd.T, Vn.T, Vm.T (8-, 16- or 32-bit lanes)`.
#[verifier::allow_in_spec]
pub fn srhadd_v(rd: u8, rn: u8, rm: u8, esize: u8, q: bool) -> u32
    requires
        rd < 32,
        rn < 32,
        rm < 32,
        arrangement(esize, q),
        esize != 64,
    returns
        vec_rrr(0x0e20_1400, rd, rn, rm, esize, q),
{
    vec_rrr(0x0e20_1400, rd, rn, rm, esize, q)
}

/// `URHADD Vd.T, Vn.T, Vm.T (8-, 16- or 32-bit lanes)`.
#[verifier::allow_in_spec]
pub fn urhadd_v(rd: u8, rn: u8, rm: u8, esize: u8, q: bool) -> u32
    requires
        rd < 32,
        rn < 32,
        rm < 32,
        arrangement(esize, q),
        esize != 64,
    returns
        vec_rrr(0x2e20_1400, rd, rn, rm, esize, q),
{
    vec_rrr(0x2e20_1400, rd, rn, rm, esize, q)
}

/// `SQDMULH Vd.T, Vn.T, Vm.T (16- or 32-bit lanes)`.
#[verifier::allow_in_spec]
pub fn sqdmulh_v(rd: u8, rn: u8, rm: u8, esize: u8, q: bool) -> u32
    requires
        rd < 32,
        rn < 32,
        rm < 32,
        esize == 16 || esize == 32,
    returns
        vec_rrr(0x0e20_b400, rd, rn, rm, esize, q),
{
    vec_rrr(0x0e20_b400, rd, rn, rm, esize, q)
}

/// `SQRDMULH Vd.T, Vn.T, Vm.T (16- or 32-bit lanes)`.
#[verifier::allow_in_spec]
pub fn sqrdmulh_v(rd: u8, rn: u8, rm: u8, esize: u8, q: bool) -> u32
    requires
        rd < 32,
        rn < 32,
        rm < 32,
        esize == 16 || esize == 32,
    returns
        vec_rrr(0x2e20_b400, rd, rn, rm, esize, q),
{
    vec_rrr(0x2e20_b400, rd, rn, rm, esize, q)
}

/// `PMUL Vd.T, Vn.T, Vm.T (8-bit lanes)`.
#[verifier::allow_in_spec]
pub fn pmul_v(rd: u8, rn: u8, rm: u8, esize: u8, q: bool) -> u32
    requires
        rd < 32,
        rn < 32,
        rm < 32,
        esize == 8,
    returns
        vec_rrr(0x2e20_9c00, rd, rn, rm, esize, q),
{
    vec_rrr(0x2e20_9c00, rd, rn, rm, esize, q)
}

/// `ABS Vd.T, Vn.T`.
#[verifier::allow_in_spec]
pub fn abs_v(rd: u8, rn: u8, esize: u8, q: bool) -> u32
    requires
        rd < 32,
        rn < 32,
        arrangement(esize, q),
    returns
        vec_rr(0x0e20_b800, rd, rn, esize, q),
{
    vec_rr(0x0e20_b800, rd, rn, esize, q)
}

/// `SQABS Vd.T, Vn.T`.
#[verifier::allow_in_spec]
pub fn sqabs_v(rd: u8, rn: u8, esize: u8, q: bool) -> u32
    requires
        rd < 32,
        rn < 32,
        arrangement(esize, q),
    returns
        vec_rr(0x0e20_7800, rd, rn, esize, q),
{
    vec_rr(0x0e20_7800, rd, rn, esize, q)
}

/// `SQNEG Vd.T, Vn.T`.
#[verifier::allow_in_spec]
pub fn sqneg_v(rd: u8, rn: u8, esize: u8, q: bool) -> u32
    requires
        rd < 32,
        rn < 32,
        arrangement(esize, q),
    returns
        vec_rr(0x2e20_7800, rd, rn, esize, q),
{
    vec_rr(0x2e20_7800, rd, rn, esize, q)
}

/// `SUQADD Vd.T, Vn.T`.
#[verifier::allow_in_spec]
pub fn suqadd_v(rd: u8, rn: u8, esize: u8, q: bool) -> u32
    requires
        rd < 32,
        rn < 32,
        arrangement(esize, q),
    returns
        vec_rr(0x0e20_3800, rd, rn, esize, q),
{
    vec_rr(0x0e20_3800, rd, rn, esize, q)
}

/// `USQADD Vd.T, Vn.T`.
#[verifier::allow_in_spec]
pub fn usqadd_v(rd: u8, rn: u8, esize: u8, q: bool) -> u32
    requires
        rd < 32,
        rn < 32,
        arrangement(esize, q),
    returns
        vec_rr(0x2e20_3800, rd, rn, esize, q),
{
    vec_rr(0x2e20_3800, rd, rn, esize, q)
}

/// `CLZ Vd.T, Vn.T (8-, 16- or 32-bit lanes)`.
#[verifier::allow_in_spec]
pub fn clz_v(rd: u8, rn: u8, esize: u8, q: bool) -> u32
    requires
        rd < 32,
        rn < 32,
        arrangement(esize, q),
        esize != 64,
    returns
        vec_rr(0x2e20_4800, rd, rn, esize, q),
{
    vec_rr(0x2e20_4800, rd, rn, esize, q)
}

/// `REV64 Vd.T, Vn.T (8-, 16- or 32-bit lanes)`.
#[verifier::allow_in_spec]
pub fn rev64_v(rd: u8, rn: u8, esize: u8, q: bool) -> u32
    requires
        rd < 32,
        rn < 32,
        arrangement(esize, q),
        esize != 64,
    returns
        vec_rr(0x0e20_0800, rd, rn, esize, q),
{
    vec_rr(0x0e20_0800, rd, rn, esize, q)
}

/// `REV32 Vd.T, Vn.T (8- or 16-bit lanes)`.
#[verifier::allow_in_spec]
pub fn rev32_v(rd: u8, rn: u8, esize: u8, q: bool) -> u32
    requires
        rd < 32,
        rn < 32,
        arrangement(esize, q),
        esize == 8 || esize == 16,
    returns
        vec_rr(0x2e20_0800, rd, rn, esize, q),
{
    vec_rr(0x2e20_0800, rd, rn, esize, q)
}

/// `CMEQ Vd.T, Vn.T, #0`.
#[verifier::allow_in_spec]
pub fn cmeq_v_zero(rd: u8, rn: u8, esize: u8, q: bool) -> u32
    requires
        rd < 32,
        rn < 32,
        arrangement(esize, q),
    returns
        vec_rr(0x0e20_9800, rd, rn, esize, q),
{
    vec_rr(0x0e20_9800, rd, rn, esize, q)
}

/// `CMGE Vd.T, Vn.T, #0`.
#[verifier::allow_in_spec]
pub fn cmge_v_zero(rd: u8, rn: u8, esize: u8, q: bool) -> u32
    requires
        rd < 32,
        rn < 32,
        arrangement(esize, q),
    returns
        vec_rr(0x2e20_8800, rd, rn, esize, q),
{
    vec_rr(0x2e20_8800, rd, rn, esize, q)
}

/// `UADDLV of Vn.T into a scalar one lane size wider`.
#[verifier::allow_in_spec]
pub fn uaddlv_from_v(rd: u8, rn: u8, esize: u8, q: bool) -> u32
    requires
        rd < 32,
        rn < 32,
        arrangement(esize, q),
        esize != 64,
        esize != 32 || q,
    returns
        vec_rr(0x2e30_3800, rd, rn, esize, q),
{
    vec_rr(0x2e30_3800, rd, rn, esize, q)
}

/// `ADDV of Vn.T (full register) into a scalar of the lane size`.
#[verifier::allow_in_spec]
pub fn addv_from_v(rd: u8, rn: u8, esize: u8) -> u32
    requires
        rd < 32,
        rn < 32,
        esize == 8 || esize == 16 || esize == 32,
    returns
        vec_rr(0x0e31_b800, rd, rn, esize, true),
{
    vec_rr(0x0e31_b800, rd, rn, esize, true)
}

/// `SXTL Vd.Tw, Vn.Tn (SSHLL #0; esize is the source lane size)`.
#[verifier::allow_in_spec]
pub fn sxtl_v(rd: u8, rn: u8, esize: u8) -> u32
    requires
        rd < 32,
        rn < 32,
        esize == 8 || esize == 16 || esize == 32,
    returns
        rr(0x0f00_a400, rd, rn) | place(esize as u32, 16),
{
    rr(0x0f00_a400, rd, rn) | place(esize as u32, 16)
}

/// `UXTL Vd.Tw, Vn.Tn (USHLL #0; esize is the source lane size)`.
#[verifier::allow_in_spec]
pub fn uxtl_v(rd: u8, rn: u8, esize: u8) -> u32
    requires
        rd < 32,
        rn < 32,
        esize == 8 || esize == 16 || esize == 32,
    returns
        rr(0x2f00_a400, rd, rn) | place(esize as u32, 16),
{
    rr(0x2f00_a400, rd, rn) | place(esize as u32, 16)
}

/// `XTN Vd.Tn, Vn.Tw (esize is the source lane size)`.
#[verifier::allow_in_spec]
pub fn xtn_v(rd: u8, rn: u8, esize: u8) -> u32
    requires
        rd < 32,
        rn < 32,
        esize == 16 || esize == 32 || esize == 64,
    returns
        vec_rr(0x0e21_2800, rd, rn, (esize / 2) as u8, false),
{
    vec_rr(0x0e21_2800, rd, rn, (esize / 2) as u8, false)
}

/// `SQXTN Vd.Tn, Vn.Tw (esize is the source lane size)`.
#[verifier::allow_in_spec]
pub fn sqxtn_v(rd: u8, rn: u8, esize: u8) -> u32
    requires
        rd < 32,
        rn < 32,
        esize == 16 || esize == 32 || esize == 64,
    returns
        vec_rr(0x0e21_4800, rd, rn, (esize / 2) as u8, false),
{
    vec_rr(0x0e21_4800, rd, rn, (esize / 2) as u8, false)
}

/// `SQXTUN Vd.Tn, Vn.Tw (esize is the source lane size)`.
#[verifier::allow_in_spec]
pub fn sqxtun_v(rd: u8, rn: u8, esize: u8) -> u32
    requires
        rd < 32,
        rn < 32,
        esize == 16 || esize == 32 || esize == 64,
    returns
        vec_rr(0x2e21_2800, rd, rn, (esize / 2) as u8, false),
{
    vec_rr(0x2e21_2800, rd, rn, (esize / 2) as u8, false)
}

/// `UQXTN Vd.Tn, Vn.Tw (esize is the source lane size)`.
#[verifier::allow_in_spec]
pub fn uqxtn_v(rd: u8, rn: u8, esize: u8) -> u32
    requires
        rd < 32,
        rn < 32,
        esize == 16 || esize == 32 || esize == 64,
    returns
        vec_rr(0x2e21_4800, rd, rn, (esize / 2) as u8, false),
{
    vec_rr(0x2e21_4800, rd, rn, (esize / 2) as u8, false)
}

/// `SADDLP Vd.Tw, Vn.Tn (full registers; esize is the source lane size)`.
#[verifier::allow_in_spec]
pub fn saddlp_v(rd: u8, rn: u8, esize: u8) -> u32
    requires
        rd < 32,
        rn < 32,
        esize == 8 || esize == 16 || esize == 32,
    returns
        vec_rr(0x4e20_2800, rd, rn, esize, false),
{
    vec_rr(0x4e20_2800, rd, rn, esize, false)
}

/// `UADDLP Vd.Tw, Vn.Tn (full registers; esize is the source lane size)`.
#[verifier::allow_in_spec]
pub fn uaddlp_v(rd: u8, rn: u8, esize: u8) -> u32
    requires
        rd < 32,
        rn < 32,
        esize == 8 || esize == 16 || esize == 32,
    returns
        vec_rr(0x6e20_2800, rd, rn, esize, false),
{
    vec_rr(0x6e20_2800, rd, rn, esize, false)
}

/// `SMULL Vd.Tw, Vn.Tn, Vm.Tn (lower halves; esize is the source lane size)`.
#[verifier::allow_in_spec]
pub fn smull_v(rd: u8, rn: u8, rm: u8, esize: u8) -> u32
    requires
        rd < 32,
        rn < 32,
        rm < 32,
        esize == 8 || esize == 16 || esize == 32,
    returns
        vec_rrr(0x0e20_c000, rd, rn, rm, esize, false),
{
    vec_rrr(0x0e20_c000, rd, rn, rm, esize, false)
}

/// `UMULL Vd.Tw, Vn.Tn, Vm.Tn (lower halves; esize is the source lane size)`.
#[verifier::allow_in_spec]
pub fn umull_v(rd: u8, rn: u8, rm: u8, esize: u8) -> u32
    requires
        rd < 32,
        rn < 32,
        rm < 32,
        esize == 8 || esize == 16 || esize == 32,
    returns
        vec_rrr(0x2e20_c000, rd, rn, rm, esize, false),
{
    vec_rrr(0x2e20_c000, rd, rn, rm, esize, false)
}

/// `SQDMULL Vd.Tw, Vn.Tn, Vm.Tn (lower halves; esize is the source lane size)`.
#[verifier::allow_in_spec]
pub fn sqdmull_v(rd: u8, rn: u8, rm: u8, esize: u8) -> u32
    requires
        rd < 32,
        rn < 32,
        rm < 32,
        esize == 16 || esize == 32,
    returns
        vec_rrr(0x0e20_d000, rd, rn, rm, esize, false),
{
    vec_rrr(0x0e20_d000, rd, rn, rm, esize, false)
}

/// `PMULL Vd.Tw, Vn.Tn, Vm.Tn (lower halves; esize is the source lane size)`.
#[verifier::allow_in_spec]
pub fn pmull_v(rd: u8, rn: u8, rm: u8, esize: u8) -> u32
    requires
        rd < 32,
        rn < 32,
        rm < 32,
        esize == 8 || esize == 64,
    returns
        vec_rrr(0x0e20_e000, rd, rn, rm, esize, false),
{
    vec_rrr(0x0e20_e000, rd, rn, rm, esize, false)
}

/// `SHRN Vd.Tn, Vn.Tw, #shift (esize is the source lane size)`.
#[verifier::allow_in_spec]
pub fn shrn_v(rd: u8, rn: u8, esize: u8, shift: u8) -> u32
    requires
        rd < 32,
        rn < 32,
        esize == 16 || esize == 32 || esize == 64,
        1 <= shift,
        shift <= esize / 2,
    returns
        rr(0x0f00_8400, rd, rn) | place((esize - shift) as u32, 16),
{
    rr(0x0f00_8400, rd, rn) | place((esize - shift) as u32, 16)
}

/// `SSHR Vd.T, Vn.T, #shift`.
#[verifier::allow_in_spec]
pub fn sshr_v(rd: u8, rn: u8, esize: u8, shift: u8, q: bool) -> u32
    requires
        rd < 32,
        rn < 32,
        arrangement(esize, q),
        1 <= shift,
        shift <= esize,
    returns
        rr(0x0f00_0400, rd, rn) | q_field(q) | place((2 * esize - shift) as u32, 16),
{
    rr(0x0f00_0400, rd, rn) | q_field(q) | place((2 * esize - shift) as u32, 16)
}

/// `USHR Vd.T, Vn.T, #shift`.
#[verifier::allow_in_spec]
pub fn ushr_v(rd: u8, rn: u8, esize: u8, shift: u8, q: bool) -> u32
    requires
        rd < 32,
        rn < 32,
        arrangement(esize, q),
        1 <= shift,
        shift <= esize,
    returns
        rr(0x2f00_0400, rd, rn) | q_field(q) | place((2 * esize - shift) as u32, 16),
{
    rr(0x2f00_0400, rd, rn) | q_field(q) | place((2 * esize - shift) as u32, 16)
}

/// `SHL Vd.T, Vn.T, #shift`.
#[verifier::allow_in_spec]
pub fn shl_v(rd: u8, rn: u8, esize: u8, shift: u8, q: bool) -> u32
    requires
        rd < 32,
        rn < 32,
        arrangement(esize, q),
        shift < esize,
    returns
        rr(0x0f00_5400, rd, rn) | q_field(q) | place((esize + shift) as u32, 16),
{
    rr(0x0f00_5400, rd, rn) | q_field(q) | place((esize + shift) as u32, 16)
}

/// `SQSHLU Vd.T, Vn.T, #shift`.
#[verifier::allow_in_spec]
pub fn sqshlu_v(rd: u8, rn: u8, esize: u8, shift: u8, q: bool) -> u32
    requires
        rd < 32,
        rn < 32,
        arrangement(esize, q),
        shift < esize,
    returns
        rr(0x2f00_6400, rd, rn) | q_field(q) | place((esize + shift) as u32, 16),
{
    rr(0x2f00_6400, rd, rn) | q_field(q) | place((esize + shift) as u32, 16)
}

/// `AND Vd.8B, Vn.8B, Vm.8B`.
#[verifier::allow_in_spec]
pub fn and_v8b(rd: u8, rn: u8, rm: u8) -> u32
    requires
        rd < 32,
        rn < 32,
        rm < 32,
    returns
        rrr(0x0e20_1c00, rd, rn, rm),
{
    rrr(0x0e20_1c00, rd, rn, rm)
}

/// `AND Vd.16B, Vn.16B, Vm.16B`.
#[verifier::allow_in_spec]
pub fn and_v16b(rd: u8, rn: u8, rm: u8) -> u32
    requires
        rd < 32,
        rn < 32,
        rm < 32,
    returns
        rrr(0x4e20_1c00, rd, rn, rm),
{
    rrr(0x4e20_1c00, rd, rn, rm)
}

/// `EOR Vd.8B, Vn.8B, Vm.8B`.
#[verifier::allow_in_spec]
pub fn eor_v8b(rd: u8, rn: u8, rm: u8) -> u32
    requires
        rd < 32,
        rn < 32,
        rm < 32,
    returns
        rrr(0x2e20_1c00, rd, rn, rm),
{
    rrr(0x2e20_1c00, rd, rn, rm)
}

/// `EOR Vd.16B, Vn.16B, Vm.16B`.
#[verifier::allow_in_spec]
pub fn eor_v16b(rd: u8, rn: u8, rm: u8) -> u32
    requires
        rd < 32,
        rn < 32,
        rm < 32,
    returns
        rrr(0x6e20_1c00, rd, rn, rm),
{
    rrr(0x6e20_1c00, rd, rn, rm)
}

/// `BSL Vd.8B, Vn.8B, Vm.8B`.
#[verifier::allow_in_spec]
pub fn bsl_v8b(rd: u8, rn: u8, rm: u8) -> u32
    requires
        rd < 32,
        rn < 32,
        rm < 32,
    returns
        rrr(0x2e60_1c00, rd, rn, rm),
{
    rrr(0x2e60_1c00, rd, rn, rm)
}

/// `BSL Vd.16B, Vn.16B, Vm.16B`.
#[verifier::allow_in_spec]
pub fn bsl_v16b(rd: u8, rn: u8, rm: u8) -> u32
    requires
        rd < 32,
        rn < 32,
        rm < 32,
    returns
        rrr(0x6e60_1c00, rd, rn, rm),
{
    rrr(0x6e60_1c00, rd, rn, rm)
}

/// `ORR Vd.8B, Vn.8B, Vm.8B`.
#[verifier::allow_in_spec]
pub fn orr_v8b(rd: u8, rn: u8, rm: u8) -> u32
    requires
        rd < 32,
        rn < 32,
        rm < 32,
    returns
        rrr(0x0ea0_1c00, rd, rn, rm),
{
    rrr(0x0ea0_1c00, rd, rn, rm)
}

/// `ORR Vd.16B, Vn.16B, Vm.16B`.
#[verifier::allow_in_spec]
pub fn orr_v16b(rd: u8, rn: u8, rm: u8) -> u32
    requires
        rd < 32,
        rn < 32,
        rm < 32,
    returns
        rrr(0x4ea0_1c00, rd, rn, rm),
{
    rrr(0x4ea0_1c00, rd, rn, rm)
}

/// `BIC Vd.8B, Vn.8B, Vm.8B`.
#[verifier::allow_in_spec]
pub fn bic_v8b(rd: u8, rn: u8, rm: u8) -> u32
    requires
        rd < 32,
        rn < 32,
        rm < 32,
    returns
        rrr(0x0e60_1c00, rd, rn, rm),
{
    rrr(0x0e60_1c00, rd, rn, rm)
}

/// `BIC Vd.16B, Vn.16B, Vm.16B`.
#[verifier::allow_in_spec]
pub fn bic_v16b(rd: u8, rn: u8, rm: u8) -> u32
    requires
        rd < 32,
        rn < 32,
        rm < 32,
    returns
        rrr(0x4e60_1c00, rd, rn, rm),
{
    rrr(0x4e60_1c00, rd, rn, rm)
}

/// `EXT Vd.T, Vn.T, Vm.T, #index (8B or 16B by q)`.
#[verifier::allow_in_spec]
pub fn ext_v16b(rd: u8, rn: u8, rm: u8, index: u8, q: bool) -> u32
    requires
        rd < 32,
        rn < 32,
        rm < 32,
        index < if q { 16u8 } else { 8u8 },
    returns
        rrr(0x2e00_0000, rd, rn, rm) | q_field(q) | place(index as u32, 11),
{
    rrr(0x2e00_0000, rd, rn, rm) | q_field(q) | place(index as u32, 11)
}

/// `FADD Vd.4S, Vn.4S, Vm.4S`.
#[verifier::allow_in_spec]
pub fn fadd_v4s(rd: u8, rn: u8, rm: u8) -> u32
    requires
        rd < 32,
        rn < 32,
        rm < 32,
    returns
        rrr(0x4e20_d400, rd, rn, rm),
{
    rrr(0x4e20_d400, rd, rn, rm)
}

/// `FADD Vd.2D, Vn.2D, Vm.2D`.
#[verifier::allow_in_spec]
pub fn fadd_v2d(rd: u8, rn: u8, rm: u8) -> u32
    requires
        rd < 32,
        rn < 32,
        rm < 32,
    returns
        rrr(0x4e60_d400, rd, rn, rm),
{
    rrr(0x4e60_d400, rd, rn, rm)
}

/// `FSUB Vd.4S, Vn.4S, Vm.4S`.
#[verifier::allow_in_spec]
pub fn fsub_v4s(rd: u8, rn: u8, rm: u8) -> u32
    requires
        rd < 32,
        rn < 32,
        rm < 32,
    returns
        rrr(0x4ea0_d400, rd, rn, rm),
{
    rrr(0x4ea0_d400, rd, rn, rm)
}

/// `FSUB Vd.2D, Vn.2D, Vm.2D`.
#[verifier::allow_in_spec]
pub fn fsub_v2d(rd: u8, rn: u8, rm: u8) -> u32
    requires
        rd < 32,
        rn < 32,
        rm < 32,
    returns
        rrr(0x4ee0_d400, rd, rn, rm),
{
    rrr(0x4ee0_d400, rd, rn, rm)
}

/// `FMUL Vd.4S, Vn.4S, Vm.4S`.
#[verifier::allow_in_spec]
pub fn fmul_v4s(rd: u8, rn: u8, rm: u8) -> u32
    requires
        rd < 32,
        rn < 32,
        rm < 32,
    returns
        rrr(0x6e20_dc00, rd, rn, rm),
{
    rrr(0x6e20_dc00, rd, rn, rm)
}

/// `FMUL Vd.2D, Vn.2D, Vm.2D`.
#[verifier::allow_in_spec]
pub fn fmul_v2d(rd: u8, rn: u8, rm: u8) -> u32
    requires
        rd < 32,
        rn < 32,
        rm < 32,
    returns
        rrr(0x6e60_dc00, rd, rn, rm),
{
    rrr(0x6e60_dc00, rd, rn, rm)
}

/// `FMULX Vd.4S, Vn.4S, Vm.4S`.
#[verifier::allow_in_spec]
pub fn fmulx_v4s(rd: u8, rn: u8, rm: u8) -> u32
    requires
        rd < 32,
        rn < 32,
        rm < 32,
    returns
        rrr(0x4e20_dc00, rd, rn, rm),
{
    rrr(0x4e20_dc00, rd, rn, rm)
}

/// `FMULX Vd.2D, Vn.2D, Vm.2D`.
#[verifier::allow_in_spec]
pub fn fmulx_v2d(rd: u8, rn: u8, rm: u8) -> u32
    requires
        rd < 32,
        rn < 32,
        rm < 32,
    returns
        rrr(0x4e60_dc00, rd, rn, rm),
{
    rrr(0x4e60_dc00, rd, rn, rm)
}

/// `FDIV Vd.4S, Vn.4S, Vm.4S`.
#[verifier::allow_in_spec]
pub fn fdiv_v4s(rd: u8, rn: u8, rm: u8) -> u32
    requires
        rd < 32,
        rn < 32,
        rm < 32,
    returns
        rrr(0x6e20_fc00, rd, rn, rm),
{
    rrr(0x6e20_fc00, rd, rn, rm)
}

/// `FDIV Vd.2D, Vn.2D, Vm.2D`.
#[verifier::allow_in_spec]
pub fn fdiv_v2d(rd: u8, rn: u8, rm: u8) -> u32
    requires
        rd < 32,
        rn < 32,
        rm < 32,
    returns
        rrr(0x6e60_fc00, rd, rn, rm),
{
    rrr(0x6e60_fc00, rd, rn, rm)
}

/// `FMAX Vd.4S, Vn.4S, Vm.4S`.
#[verifier::allow_in_spec]
pub fn fmax_v4s(rd: u8, rn: u8, rm: u8) -> u32
    requires
        rd < 32,
        rn < 32,
        rm < 32,
    returns
        rrr(0x4e20_f400, rd, rn, rm),
{
    rrr(0x4e20_f400, rd, rn, rm)
}

/// `FMAX Vd.2D, Vn.2D, Vm.2D`.
#[verifier::allow_in_spec]
pub fn fmax_v2d(rd: u8, rn: u8, rm: u8) -> u32
    requires
        rd < 32,
        rn < 32,
        rm < 32,
    returns
        rrr(0x4e60_f400, rd, rn, rm),
{
    rrr(0x4e60_f400, rd, rn, rm)
}

/// `FMAXNM Vd.4S, Vn.4S, Vm.4S`.
#[verifier::allow_in_spec]
pub fn fmaxnm_v4s(rd: u8, rn: u8, rm: u8) -> u32
    requires
        rd < 32,
        rn < 32,
        rm < 32,
    returns
        rrr(0x4e20_c400, rd, rn, rm),
{
    rrr(0x4e20_c400, rd, rn, rm)
}

/// `FMAXNM Vd.2D, Vn.2D, Vm.2D`.
#[verifier::allow_in_spec]
pub fn fmaxnm_v2d(rd: u8, rn: u8, rm: u8) -> u32
    requires
        rd < 32,
        rn < 32,
        rm < 32,
    returns
        rrr(0x4e60_c400, rd, rn, rm),
{
    rrr(0x4e60_c400, rd, rn, rm)
}

/// `FMIN Vd.4S, Vn.4S, Vm.4S`.
#[verifier::allow_in_spec]
pub fn fmin_v4s(rd: u8, rn: u8, rm: u8) -> u32
    requires
        rd < 32,
        rn < 32,
        rm < 32,
    returns
        rrr(0x4ea0_f400, rd, rn, rm),
{
    rrr(0x4ea0_f400, rd, rn, rm)
}

/// `FMIN Vd.2D, Vn.2D, Vm.2D`.
#[verifier::allow_in_spec]
pub fn fmin_v2d(rd: u8, rn: u8, rm: u8) -> u32
    requires
        rd < 32,
        rn < 32,
        rm < 32,
    returns
        rrr(0x4ee0_f400, rd, rn, rm),
{
    rrr(0x4ee0_f400, rd, rn, rm)
}

/// `FMINNM Vd.4S, Vn.4S, Vm.4S`.
#[verifier::allow_in_spec]
pub fn fminnm_v4s(rd: u8, rn: u8, rm: u8) -> u32
    requires
        rd < 32,
        rn < 32,
        rm < 32,
    returns
        rrr(0x4ea0_c400, rd, rn, rm),
{
    rrr(0x4ea0_c400, rd, rn, rm)
}

/// `FMINNM Vd.2D, Vn.2D, Vm.2D`.
#[verifier::allow_in_spec]
pub fn fminnm_v2d(rd: u8, rn: u8, rm: u8) -> u32
    requires
        rd < 32,
        rn < 32,
        rm < 32,
    returns
        rrr(0x4ee0_c400, rd, rn, rm),
{
    rrr(0x4ee0_c400, rd, rn, rm)
}

/// `FCMEQ Vd.4S, Vn.4S, Vm.4S`.
#[verifier::allow_in_spec]
pub fn fcmeq_v4s(rd: u8, rn: u8, rm: u8) -> u32
    requires
        rd < 32,
        rn < 32,
        rm < 32,
    returns
        rrr(0x4e20_e400, rd, rn, rm),
{
    rrr(0x4e20_e400, rd, rn, rm)
}

/// `FCMEQ Vd.2D, Vn.2D, Vm.2D`.
#[verifier::allow_in_spec]
pub fn fcmeq_v2d(rd: u8, rn: u8, rm: u8) -> u32
    requires
        rd < 32,
        rn < 32,
        rm < 32,
    returns
        rrr(0x4e60_e400, rd, rn, rm),
{
    rrr(0x4e60_e400, rd, rn, rm)
}

/// `FCMGT Vd.4S, Vn.4S, Vm.4S`.
#[verifier::allow_in_spec]
pub fn fcmgt_v4s(rd: u8, rn: u8, rm: u8) -> u32
    requires
        rd < 32,
        rn < 32,
        rm < 32,
    returns
        rrr(0x6ea0_e400, rd, rn, rm),
{
    rrr(0x6ea0_e400, rd, rn, rm)
}

/// `FCMGT Vd.2D, Vn.2D, Vm.2D`.
#[verifier::allow_in_spec]
pub fn fcmgt_v2d(rd: u8, rn: u8, rm: u8) -> u32
    requires
        rd < 32,
        rn < 32,
        rm < 32,
    returns
        rrr(0x6ee0_e400, rd, rn, rm),
{
    rrr(0x6ee0_e400, rd, rn, rm)
}

/// `FCMGE Vd.4S, Vn.4S, Vm.4S`.
#[verifier::allow_in_spec]
pub fn fcmge_v4s(rd: u8, rn: u8, rm: u8) -> u32
    requires
        rd < 32,
        rn < 32,
        rm < 32,
    returns
        rrr(0x6e20_e400, rd, rn, rm),
{
    rrr(0x6e20_e400, rd, rn, rm)
}

/// `FCMGE Vd.2D, Vn.2D, Vm.2D`.
#[verifier::allow_in_spec]
pub fn fcmge_v2d(rd: u8, rn: u8, rm: u8) -> u32
    requires
        rd < 32,
        rn < 32,
        rm < 32,
    returns
        rrr(0x6e60_e400, rd, rn, rm),
{
    rrr(0x6e60_e400, rd, rn, rm)
}

/// `FMLA Vd.4S, Vn.4S, Vm.4S`.
#[verifier::allow_in_spec]
pub fn fmla_v4s(rd: u8, rn: u8, rm: u8) -> u32
    requires
        rd < 32,
        rn < 32,
        rm < 32,
    returns
        rrr(0x4e20_cc00, rd, rn, rm),
{
    rrr(0x4e20_cc00, rd, rn, rm)
}

/// `FMLA Vd.2D, Vn.2D, Vm.2D`.
#[verifier::allow_in_spec]
pub fn fmla_v2d(rd: u8, rn: u8, rm: u8) -> u32
    requires
        rd < 32,
        rn < 32,
        rm < 32,
    returns
        rrr(0x4e60_cc00, rd, rn, rm),
{
    rrr(0x4e60_cc00, rd, rn, rm)
}

/// `FADDP Vd.4S, Vn.4S, Vm.4S`.
#[verifier::allow_in_spec]
pub fn faddp_v4s(rd: u8, rn: u8, rm: u8) -> u32
    requires
        rd < 32,
        rn < 32,
        rm < 32,
    returns
        rrr(0x6e20_d400, rd, rn, rm),
{
    rrr(0x6e20_d400, rd, rn, rm)
}

/// `FADDP Vd.2D, Vn.2D, Vm.2D`.
#[verifier::allow_in_spec]
pub fn faddp_v2d(rd: u8, rn: u8, rm: u8) -> u32
    requires
        rd < 32,
        rn < 32,
        rm < 32,
    returns
        rrr(0x6e60_d400, rd, rn, rm),
{
    rrr(0x6e60_d400, rd, rn, rm)
}

/// `FRECPS Vd.4S, Vn.4S, Vm.4S`.
#[verifier::allow_in_spec]
pub fn frecps_v4s(rd: u8, rn: u8, rm: u8) -> u32
    requires
        rd < 32,
        rn < 32,
        rm < 32,
    returns
        rrr(0x4e20_fc00, rd, rn, rm),
{
    rrr(0x4e20_fc00, rd, rn, rm)
}

/// `FRECPS Vd.2D, Vn.2D, Vm.2D`.
#[verifier::allow_in_spec]
pub fn frecps_v2d(rd: u8, rn: u8, rm: u8) -> u32
    requires
        rd < 32,
        rn < 32,
        rm < 32,
    returns
        rrr(0x4e60_fc00, rd, rn, rm),
{
    rrr(0x4e60_fc00, rd, rn, rm)
}

/// `FRSQRTS Vd.4S, Vn.4S, Vm.4S`.
#[verifier::allow_in_spec]
pub fn frsqrts_v4s(rd: u8, rn: u8, rm: u8) -> u32
    requires
        rd < 32,
        rn < 32,
        rm < 32,
    returns
        rrr(0x4ea0_fc00, rd, rn, rm),
{
    rrr(0x4ea0_fc00, rd, rn, rm)
}

/// `FRSQRTS Vd.2D, Vn.2D, Vm.2D`.
#[verifier::allow_in_spec]
pub fn frsqrts_v2d(rd: u8, rn: u8, rm: u8) -> u32
    requires
        rd < 32,
        rn < 32,
        rm < 32,
    returns
        rrr(0x4ee0_fc00, rd, rn, rm),
{
    rrr(0x4ee0_fc00, rd, rn, rm)
}

/// `FABS Vd.4S, Vn.4S`.
#[verifier::allow_in_spec]
pub fn fabs_v4s(rd: u8, rn: u8) -> u32
    requires
        rd < 32,
        rn < 32,
    returns
        rr(0x4ea0_f800, rd, rn),
{
    rr(0x4ea0_f800, rd, rn)
}

/// `FABS Vd.2D, Vn.2D`.
#[verifier::allow_in_spec]
pub fn fabs_v2d(rd: u8, rn: u8) -> u32
    requires
        rd < 32,
        rn < 32,
    returns
        rr(0x4ee0_f800, rd, rn),
{
    rr(0x4ee0_f800, rd, rn)
}

/// `FNEG Vd.4S, Vn.4S`.
#[verifier::allow_in_spec]
pub fn fneg_v4s(rd: u8, rn: u8) -> u32
    requires
        rd < 32,
        rn < 32,
    returns
        rr(0x6ea0_f800, rd, rn),
{
    rr(0x6ea0_f800, rd, rn)
}

/// `FNEG Vd.2D, Vn.2D`.
#[verifier::allow_in_spec]
pub fn fneg_v2d(rd: u8, rn: u8) -> u32
    requires
        rd < 32,
        rn < 32,
    returns
        rr(0x6ee0_f800, rd, rn),
{
    rr(0x6ee0_f800, rd, rn)
}

/// `FSQRT Vd.4S, Vn.4S`.
#[verifier::allow_in_spec]
pub fn fsqrt_v4s(rd: u8, rn: u8) -> u32
    requires
        rd < 32,
        rn < 32,
    returns
        rr(0x6ea1_f800, rd, rn),
{
    rr(0x6ea1_f800, rd, rn)
}

/// `FSQRT Vd.2D, Vn.2D`.
#[verifier::allow_in_spec]
pub fn fsqrt_v2d(rd: u8, rn: u8) -> u32
    requires
        rd < 32,
        rn < 32,
    returns
        rr(0x6ee1_f800, rd, rn),
{
    rr(0x6ee1_f800, rd, rn)
}

/// `FRECPE Vd.4S, Vn.4S`.
#[verifier::allow_in_spec]
pub fn frecpe_v4s(rd: u8, rn: u8) -> u32
    requires
        rd < 32,
        rn < 32,
    returns
        rr(0x4ea1_d800, rd, rn),
{
    rr(0x4ea1_d800, rd, rn)
}

/// `FRECPE Vd.2D, Vn.2D`.
#[verifier::allow_in_spec]
pub fn frecpe_v2d(rd: u8, rn: u8) -> u32
    requires
        rd < 32,
        rn < 32,
    returns
        rr(0x4ee1_d800, rd, rn),
{
    rr(0x4ee1_d800, rd, rn)
}

/// `FRSQRTE Vd.4S, Vn.4S`.
#[verifier::allow_in_spec]
pub fn frsqrte_v4s(rd: u8, rn: u8) -> u32
    requires
        rd < 32,
        rn < 32,
    returns
        rr(0x6ea1_d800, rd, rn),
{
    rr(0x6ea1_d800, rd, rn)
}

/// `FRSQRTE Vd.2D, Vn.2D`.
#[verifier::allow_in_spec]
pub fn frsqrte_v2d(rd: u8, rn: u8) -> u32
    requires
        rd < 32,
        rn < 32,
    returns
        rr(0x6ee1_d800, rd, rn),
{
    rr(0x6ee1_d800, rd, rn)
}

/// `FRINTN Vd.4S, Vn.4S`.
#[verifier::allow_in_spec]
pub fn frintn_v4s(rd: u8, rn: u8) -> u32
    requires
        rd < 32,
        rn < 32,
    returns
        rr(0x4e21_8800, rd, rn),
{
    rr(0x4e21_8800, rd, rn)
}

/// `FRINTN Vd.2D, Vn.2D`.
#[verifier::allow_in_spec]
pub fn frintn_v2d(rd: u8, rn: u8) -> u32
    requires
        rd < 32,
        rn < 32,
    returns
        rr(0x4e61_8800, rd, rn),
{
    rr(0x4e61_8800, rd, rn)
}

/// `FRINTP Vd.4S, Vn.4S`.
#[verifier::allow_in_spec]
pub fn frintp_v4s(rd: u8, rn: u8) -> u32
    requires
        rd < 32,
        rn < 32,
    returns
        rr(0x4ea1_8800, rd, rn),
{
    rr(0x4ea1_8800, rd, rn)
}

/// `FRINTP Vd.2D, Vn.2D`.
#[verifier::allow_in_spec]
pub fn frintp_v2d(rd: u8, rn: u8) -> u32
    requires
        rd < 32,
        rn < 32,
    returns
        rr(0x4ee1_8800, rd, rn),
{
    rr(0x4ee1_8800, rd, rn)
}

/// `FRINTM Vd.4S, Vn.4S`.
#[verifier::allow_in_spec]
pub fn frintm_v4s(rd: u8, rn: u8) -> u32
    requires
        rd < 32,
        rn < 32,
    returns
        rr(0x4e21_9800, rd, rn),
{
    rr(0x4e21_9800, rd, rn)
}

/// `FRINTM Vd.2D, Vn.2D`.
#[verifier::allow_in_spec]
pub fn frintm_v2d(rd: u8, rn: u8) -> u32
    requires
        rd < 32,
        rn < 32,
    returns
        rr(0x4e61_9800, rd, rn),
{
    rr(0x4e61_9800, rd, rn)
}

/// `FRINTZ Vd.4S, Vn.4S`.
#[verifier::allow_in_spec]
pub fn frintz_v4s(rd: u8, rn: u8) -> u32
    requires
        rd < 32,
        rn < 32,
    returns
        rr(0x4ea1_9800, rd, rn),
{
    rr(0x4ea1_9800, rd, rn)
}

/// `FRINTZ Vd.2D, Vn.2D`.
#[verifier::allow_in_spec]
pub fn frintz_v2d(rd: u8, rn: u8) -> u32
    requires
        rd < 32,
        rn < 32,
    returns
        rr(0x4ee1_9800, rd, rn),
{
    rr(0x4ee1_9800, rd, rn)
}

/// `FRINTA Vd.4S, Vn.4S`.
#[verifier::allow_in_spec]
pub fn frinta_v4s(rd: u8, rn: u8) -> u32
    requires
        rd < 32,
        rn < 32,
    returns
        rr(0x6e21_8800, rd, rn),
{
    rr(0x6e21_8800, rd, rn)
}

/// `FRINTA Vd.2D, Vn.2D`.
#[verifier::allow_in_spec]
pub fn frinta_v2d(rd: u8, rn: u8) -> u32
    requires
        rd < 32,
        rn < 32,
    returns
        rr(0x6e61_8800, rd, rn),
{
    rr(0x6e61_8800, rd, rn)
}

/// `FRINTX Vd.4S, Vn.4S`.
#[verifier::allow_in_spec]
pub fn frintx_v4s(rd: u8, rn: u8) -> u32
    requires
        rd < 32,
        rn < 32,
    returns
        rr(0x6e21_9800, rd, rn),
{
    rr(0x6e21_9800, rd, rn)
}

/// `FRINTX Vd.2D, Vn.2D`.
#[verifier::allow_in_spec]
pub fn frintx_v2d(rd: u8, rn: u8) -> u32
    requires
        rd < 32,
        rn < 32,
    returns
        rr(0x6e61_9800, rd, rn),
{
    rr(0x6e61_9800, rd, rn)
}

/// `SCVTF Vd.4S, Vn.4S`.
#[verifier::allow_in_spec]
pub fn scvtf_v4s(rd: u8, rn: u8) -> u32
    requires
        rd < 32,
        rn < 32,
    returns
        rr(0x4e21_d800, rd, rn),
{
    rr(0x4e21_d800, rd, rn)
}

/// `SCVTF Vd.2D, Vn.2D`.
#[verifier::allow_in_spec]
pub fn scvtf_v2d(rd: u8, rn: u8) -> u32
    requires
        rd < 32,
        rn < 32,
    returns
        rr(0x4e61_d800, rd, rn),
{
    rr(0x4e61_d800, rd, rn)
}

/// `UCVTF Vd.4S, Vn.4S`.
#[verifier::allow_in_spec]
pub fn ucvtf_v4s(rd: u8, rn: u8) -> u32
    requires
        rd < 32,
        rn < 32,
    returns
        rr(0x6e21_d800, rd, rn),
{
    rr(0x6e21_d800, rd, rn)
}

/// `UCVTF Vd.2D, Vn.2D`.
#[verifier::allow_in_spec]
pub fn ucvtf_v2d(rd: u8, rn: u8) -> u32
    requires
        rd < 32,
        rn < 32,
    returns
        rr(0x6e61_d800, rd, rn),
{
    rr(0x6e61_d800, rd, rn)
}

/// `FCVTZS Vd.4S, Vn.4S`.
#[verifier::allow_in_spec]
pub fn fcvtzs_v4s(rd: u8, rn: u8) -> u32
    requires
        rd < 32,
        rn < 32,
    returns
        rr(0x4ea1_b800, rd, rn),
{
    rr(0x4ea1_b800, rd, rn)
}

/// `FCVTZS Vd.2D, Vn.2D`.
#[verifier::allow_in_spec]
pub fn fcvtzs_v2d(rd: u8, rn: u8) -> u32
    requires
        rd < 32,
        rn < 32,
    returns
        rr(0x4ee1_b800, rd, rn),
{
    rr(0x4ee1_b800, rd, rn)
}

/// `FCVTZU Vd.4S, Vn.4S`.
#[verifier::allow_in_spec]
pub fn fcvtzu_v4s(rd: u8, rn: u8) -> u32
    requires
        rd < 32,
        rn < 32,
    returns
        rr(0x6ea1_b800, rd, rn),
{
    rr(0x6ea1_b800, rd, rn)
}

/// `FCVTZU Vd.2D, Vn.2D`.
#[verifier::allow_in_spec]
pub fn fcvtzu_v2d(rd: u8, rn: u8) -> u32
    requires
        rd < 32,
        rn < 32,
    returns
        rr(0x6ee1_b800, rd, rn),
{
    rr(0x6ee1_b800, rd, rn)
}

/// `FCVTNS Vd.4S, Vn.4S`.
#[verifier::allow_in_spec]
pub fn fcvtns_v4s(rd: u8, rn: u8) -> u32
    requires
        rd < 32,
        rn < 32,
    returns
        rr(0x4e21_a800, rd, rn),
{
    rr(0x4e21_a800, rd, rn)
}

/// `FCVTNS Vd.2D, Vn.2D`.
#[verifier::allow_in_spec]
pub fn fcvtns_v2d(rd: u8, rn: u8) -> u32
    requires
        rd < 32,
        rn < 32,
    returns
        rr(0x4e61_a800, rd, rn),
{
    rr(0x4e61_a800, rd, rn)
}

/// `FCVTPS Vd.4S, Vn.4S`.
#[verifier::allow_in_spec]
pub fn fcvtps_v4s(rd: u8, rn: u8) -> u32
    requires
        rd < 32,
        rn < 32,
    returns
        rr(0x4ea1_a800, rd, rn),
{
    rr(0x4ea1_a800, rd, rn)
}

/// `FCVTPS Vd.2D, Vn.2D`.
#[verifier::allow_in_spec]
pub fn fcvtps_v2d(rd: u8, rn: u8) -> u32
    requires
        rd < 32,
        rn < 32,
    returns
        rr(0x4ee1_a800, rd, rn),
{
    rr(0x4ee1_a800, rd, rn)
}

/// `FCVTMS Vd.4S, Vn.4S`.
#[verifier::allow_in_spec]
pub fn fcvtms_v4s(rd: u8, rn: u8) -> u32
    requires
        rd < 32,
        rn < 32,
    returns
        rr(0x4e21_b800, rd, rn),
{
    rr(0x4e21_b800, rd, rn)
}

/// `FCVTMS Vd.2D, Vn.2D`.
#[verifier::allow_in_spec]
pub fn fcvtms_v2d(rd: u8, rn: u8) -> u32
    requires
        rd < 32,
        rn < 32,
    returns
        rr(0x4e61_b800, rd, rn),
{
    rr(0x4e61_b800, rd, rn)
}

/// `FCVTAS Vd.4S, Vn.4S`.
#[verifier::allow_in_spec]
pub fn fcvtas_v4s(rd: u8, rn: u8) -> u32
    requires
        rd < 32,
        rn < 32,
    returns
        rr(0x4e21_c800, rd, rn),
{
    rr(0x4e21_c800, rd, rn)
}

/// `FCVTAS Vd.2D, Vn.2D`.
#[verifier::allow_in_spec]
pub fn fcvtas_v2d(rd: u8, rn: u8) -> u32
    requires
        rd < 32,
        rn < 32,
    returns
        rr(0x4e61_c800, rd, rn),
{
    rr(0x4e61_c800, rd, rn)
}

/// `FCVTNU Vd.4S, Vn.4S`.
#[verifier::allow_in_spec]
pub fn fcvtnu_v4s(rd: u8, rn: u8) -> u32
    requires
        rd < 32,
        rn < 32,
    returns
        rr(0x6e21_a800, rd, rn),
{
    rr(0x6e21_a800, rd, rn)
}

/// `FCVTNU Vd.2D, Vn.2D`.
#[verifier::allow_in_spec]
pub fn fcvtnu_v2d(rd: u8, rn: u8) -> u32
    requires
        rd < 32,
        rn < 32,
    returns
        rr(0x6e61_a800, rd, rn),
{
    rr(0x6e61_a800, rd, rn)
}

/// `FCVTPU Vd.4S, Vn.4S`.
#[verifier::allow_in_spec]
pub fn fcvtpu_v4s(rd: u8, rn: u8) -> u32
    requires
        rd < 32,
        rn < 32,
    returns
        rr(0x6ea1_a800, rd, rn),
{
    rr(0x6ea1_a800, rd, rn)
}

/// `FCVTPU Vd.2D, Vn.2D`.
#[verifier::allow_in_spec]
pub fn fcvtpu_v2d(rd: u8, rn: u8) -> u32
    requires
        rd < 32,
        rn < 32,
    returns
        rr(0x6ee1_a800, rd, rn),
{
    rr(0x6ee1_a800, rd, rn)
}

/// `FCVTMU Vd.4S, Vn.4S`.
#[verifier::allow_in_spec]
pub fn fcvtmu_v4s(rd: u8, rn: u8) -> u32
    requires
        rd < 32,
        rn < 32,
    returns
        rr(0x6e21_b800, rd, rn),
{
    rr(0x6e21_b800, rd, rn)
}

/// `FCVTMU Vd.2D, Vn.2D`.
#[verifier::allow_in_spec]
pub fn fcvtmu_v2d(rd: u8, rn: u8) -> u32
    requires
        rd < 32,
        rn < 32,
    returns
        rr(0x6e61_b800, rd, rn),
{
    rr(0x6e61_b800, rd, rn)
}

/// `FCVTAU Vd.4S, Vn.4S`.
#[verifier::allow_in_spec]
pub fn fcvtau_v4s(rd: u8, rn: u8) -> u32
    requires
        rd < 32,
        rn < 32,
    returns
        rr(0x6e21_c800, rd, rn),
{
    rr(0x6e21_c800, rd, rn)
}

/// `FCVTAU Vd.2D, Vn.2D`.
#[verifier::allow_in_spec]
pub fn fcvtau_v2d(rd: u8, rn: u8) -> u32
    requires
        rd < 32,
        rn < 32,
    returns
        rr(0x6e61_c800, rd, rn),
{
    rr(0x6e61_c800, rd, rn)
}

/// `SCVTF Vd.4S, Vn.4S, #fbits`.
#[verifier::allow_in_spec]
pub fn scvtf_v4s_fixed(rd: u8, rn: u8, fbits: u8) -> u32
    requires
        rd < 32,
        rn < 32,
        1 <= fbits,
        fbits <= 32,
    returns
        rr(0x4f00_e400, rd, rn) | place((64 - fbits) as u32, 16),
{
    rr(0x4f00_e400, rd, rn) | place((64 - fbits) as u32, 16)
}

/// `SCVTF Vd.2D, Vn.2D, #fbits`.
#[verifier::allow_in_spec]
pub fn scvtf_v2d_fixed(rd: u8, rn: u8, fbits: u8) -> u32
    requires
        rd < 32,
        rn < 32,
        1 <= fbits,
        fbits <= 64,
    returns
        rr(0x4f00_e400, rd, rn) | place((128 - fbits) as u32, 16),
{
    rr(0x4f00_e400, rd, rn) | place((128 - fbits) as u32, 16)
}

/// `UCVTF Vd.4S, Vn.4S, #fbits`.
#[verifier::allow_in_spec]
pub fn ucvtf_v4s_fixed(rd: u8, rn: u8, fbits: u8) -> u32
    requires
        rd < 32,
        rn < 32,
        1 <= fbits,
        fbits <= 32,
    returns
        rr(0x6f00_e400, rd, rn) | place((64 - fbits) as u32, 16),
{
    rr(0x6f00_e400, rd, rn) | place((64 - fbits) as u32, 16)
}

/// `UCVTF Vd.2D, Vn.2D, #fbits`.
#[verifier::allow_in_spec]
pub fn ucvtf_v2d_fixed(rd: u8, rn: u8, fbits: u8) -> u32
    requires
        rd < 32,
        rn < 32,
        1 <= fbits,
        fbits <= 64,
    returns
        rr(0x6f00_e400, rd, rn) | place((128 - fbits) as u32, 16),
{
    rr(0x6f00_e400, rd, rn) | place((128 - fbits) as u32, 16)
}

/// `FCVTZS Vd.4S, Vn.4S, #fbits`.
#[verifier::allow_in_spec]
pub fn fcvtzs_v4s_fixed(rd: u8, rn: u8, fbits: u8) -> u32
    requires
        rd < 32,
        rn < 32,
        1 <= fbits,
        fbits <= 32,
    returns
        rr(0x4f00_fc00, rd, rn) | place((64 - fbits) as u32, 16),
{
    rr(0x4f00_fc00, rd, rn) | place((64 - fbits) as u32, 16)
}

/// `FCVTZS Vd.2D, Vn.2D, #fbits`.
#[verifier::allow_in_spec]
pub fn fcvtzs_v2d_fixed(rd: u8, rn: u8, fbits: u8) -> u32
    requires
        rd < 32,
        rn < 32,
        1 <= fbits,
        fbits <= 64,
    returns
        rr(0x4f00_fc00, rd, rn) | place((128 - fbits) as u32, 16),
{
    rr(0x4f00_fc00, rd, rn) | place((128 - fbits) as u32, 16)
}

/// `FCVTZU Vd.4S, Vn.4S, #fbits`.
#[verifier::allow_in_spec]
pub fn fcvtzu_v4s_fixed(rd: u8, rn: u8, fbits: u8) -> u32
    requires
        rd < 32,
        rn < 32,
        1 <= fbits,
        fbits <= 32,
    returns
        rr(0x6f00_fc00, rd, rn) | place((64 - fbits) as u32, 16),
{
    rr(0x6f00_fc00, rd, rn) | place((64 - fbits) as u32, 16)
}

/// `FCVTZU Vd.2D, Vn.2D, #fbits`.
#[verifier::allow_in_spec]
pub fn fcvtzu_v2d_fixed(rd: u8, rn: u8, fbits: u8) -> u32
    requires
        rd < 32,
        rn < 32,
        1 <= fbits,
        fbits <= 64,
    returns
        rr(0x6f00_fc00, rd, rn) | place((128 - fbits) as u32, 16),
{
    rr(0x6f00_fc00, rd, rn) | place((128 - fbits) as u32, 16)
}

/// `UMOV Rd, Vn.T[index] (X for 64-bit lanes, W otherwise)`.
#[verifier::allow_in_spec]
pub fn umov_from_v(rd: u8, rn: u8, esize: u8, index: u8) -> u32
    requires
        rd < 32,
        rn < 32,
        lane_size(esize),
        (index as int) * (esize as int) < 128,
    returns
        rr(0x0e00_3c00, rd, rn) | q_field(esize == 64) | place(((index as u32 * 2 + 1) as u32) << size_field(esize), 16),
{
    rr(0x0e00_3c00, rd, rn) | q_field(esize == 64) | place(((index as u32 * 2 + 1) as u32) << size_field(esize), 16)
}

/// `INS Vd.T[index], Rn (MOV to element)`.
#[verifier::allow_in_spec]
pub fn mov_to_v_element(rd: u8, rn: u8, esize: u8, index: u8) -> u32
    requires
        rd < 32,
        rn < 32,
        lane_size(esize),
        (index as int) * (esize as int) < 128,
    returns
        rr(0x4e00_1c00, rd, rn) | place(((index as u32 * 2 + 1) as u32) << size_field(esize), 16),
{
    rr(0x4e00_1c00, rd, rn) | place(((index as u32 * 2 + 1) as u32) << size_field(esize), 16)
}

/// `DUP Vd.T, Rn`.
#[verifier::allow_in_spec]
pub fn dup_v_from_reg(rd: u8, rn: u8, esize: u8, q: bool) -> u32
    requires
        rd < 32,
        rn < 32,
        arrangement(esize, q),
    returns
        rr(0x0e00_0c00, rd, rn) | q_field(q) | place(1u32 << size_field(esize), 16),
{
    rr(0x0e00_0c00, rd, rn) | q_field(q) | place(1u32 << size_field(esize), 16)
}

/// `DUP Vd.T, Vn.Ts[index]`.
#[verifier::allow_in_spec]
pub fn dup_v_from_element(rd: u8, rn: u8, esize: u8, index: u8, q: bool) -> u32
    requires
        rd < 32,
        rn < 32,
        arrangement(esize, q),
        (index as int) * (esize as int) < 128,
    returns
        rr(0x0e00_0400, rd, rn) | q_field(q) | place(((index as u32 * 2 + 1) as u32) << size_field(esize), 16),
{
    rr(0x0e00_0400, rd, rn) | q_field(q) | place(((index as u32 * 2 + 1) as u32) << size_field(esize), 16)
}

/// `TBL Vd.T, {Vn.16B .. }, Vm.T (list of len registers)`.
#[verifier::allow_in_spec]
pub fn tbl_v(rd: u8, rn: u8, rm: u8, len: u8, q: bool) -> u32
    requires
        rd < 32,
        rn < 32,
        rm < 32,
        1 <= len,
        len <= 4,
    returns
        rrr(0x0e00_0000, rd, rn, rm) | q_field(q) | place((len - 1) as u32, 13),
{
    rrr(0x0e00_0000, rd, rn, rm) | q_field(q) | place((len - 1) as u32, 13)
}

/// `TBX Vd.T, {Vn.16B .. }, Vm.T (list of len registers)`.
#[verifier::allow_in_spec]
pub fn tbx_v(rd: u8, rn: u8, rm: u8, len: u8, q: bool) -> u32
    requires
        rd < 32,
        rn < 32,
        rm < 32,
        1 <= len,
        len <= 4,
    returns
        rrr(0x0e00_1000, rd, rn, rm) | q_field(q) | place((len - 1) as u32, 13),
{
    rrr(0x0e00_1000, rd, rn, rm) | q_field(q) | place((len - 1) as u32, 13)
}

/// `MOVI Dd, #0`.
#[verifier::allow_in_spec]
pub fn movi_d_imm0(rd: u8) -> u32
    requires
        rd < 32,
    returns
        0x2f00_e400u32 | (rd as u32),
{
    0x2f00_e400u32 | (rd as u32)
}

/// `MOVI Dd, #imm (each bit of mask selects an all-ones byte)`.
#[verifier::allow_in_spec]
pub fn movi_d_rep_imm(rd: u8, mask: u8) -> u32
    requires
        rd < 32,
    returns
        0x2f00_e400u32 | place((mask as u32) >> 5, 16) | place((mask as u32) & 0x1f, 5) | (rd as u32),
{
    0x2f00_e400u32 | place((mask as u32) >> 5, 16) | place((mask as u32) & 0x1f, 5) | (rd as u32)
}

/// `MOVI Vd.8B, #imm8`.
#[verifier::allow_in_spec]
pub fn movi_v8b_imm(rd: u8, imm8: u8) -> u32
    requires
        rd < 32,
    returns
        0x0f00_e400u32 | place((imm8 as u32) >> 5, 16) | place((imm8 as u32) & 0x1f, 5) | (rd as u32),
{
    0x0f00_e400u32 | place((imm8 as u32) >> 5, 16) | place((imm8 as u32) & 0x1f, 5) | (rd as u32)
}

/// `MOVI Vd.16B, #imm8`.
#[verifier::allow_in_spec]
pub fn movi_v16b_imm(rd: u8, imm8: u8) -> u32
    requires
        rd < 32,
    returns
        0x4f00_e400u32 | place((imm8 as u32) >> 5, 16) | place((imm8 as u32) & 0x1f, 5) | (rd as u32),
{
    0x4f00_e400u32 | place((imm8 as u32) >> 5, 16) | place((imm8 as u32) & 0x1f, 5) | (rd as u32)
}

/// `BIC Vd.8H, #imm8, LSL #lsl (lsl 0 or 8)`.
#[verifier::allow_in_spec]
pub fn bic_v8h_imm(rd: u8, imm8: u8, lsl: u8) -> u32
    requires
        rd < 32,
        lsl == 0 || lsl == 8,
    returns
        0x6f00_9400u32 | place((lsl as u32) / 8, 13) | place((imm8 as u32) >> 5, 16) | place((imm8 as u32) & 0x1f, 5) | (rd as u32),
{
    0x6f00_9400u32 | place((lsl as u32) / 8, 13) | place((imm8 as u32) >> 5, 16) | place((imm8 as u32) & 0x1f, 5) | (rd as u32)
}

/// `BIC Vd.8H, #0x80, LSL #8: clears the sign bit of every 16-bit lane`.
#[verifier::allow_in_spec]
pub fn bic_v8h_sign_bit(rd: u8) -> u32
    requires
        rd < 32,
    returns
        0x6f00_9400u32 | place(1u32, 13) | place(4u32, 16) | (rd as u32),
{
    0x6f00_9400u32 | place(1u32, 13) | place(4u32, 16) | (rd as u32)
}

/// `NOP`.
#[verifier::allow_in_spec]
pub fn nop() -> u32
    returns
        0xd503_201fu32,
{
    0xd503_201fu32
}

/// `RET (X30)`.
#[verifier::allow_in_spec]
pub fn ret() -> u32
    returns
        0xd65f_03c0u32,
{
    0xd65f_03c0u32
}

/// `DSB SY`.
#[verifier::allow_in_spec]
pub fn dsb_sy() -> u32
    returns
        0xd503_3f9fu32,
{
    0xd503_3f9fu32
}


/// The 26-bit word-offset field of `B`/`BL` (bits [25:0]) for a byte
/// offset: the offset in words, modulo 2^26.
#[verifier::allow_in_spec]
pub fn imm26(offset: i32) -> u32
    requires
        offset % 4 == 0,
        -0x800_0000 <= offset < 0x800_0000,
    returns
        ((offset / 4) % 0x400_0000) as u32,
{
    if offset < 0 {
        ((offset + 0x1000_0000) / 4) as u32
    } else {
        (offset / 4) as u32
    }
}

/// The 19-bit word-offset field of `B.cond`/`CBZ`/`CBNZ` (placed at bit 5)
/// for a byte offset: the offset in words, modulo 2^19.
#[verifier::allow_in_spec]
pub fn imm19(offset: i32) -> u32
    requires
        offset % 4 == 0,
        -0x10_0000 <= offset < 0x10_0000,
    returns
        ((offset / 4) % 0x8_0000) as u32,
{
    if offset < 0 {
        ((offset + 0x20_0000) / 4) as u32
    } else {
        (offset / 4) as u32
    }
}

/// The 14-bit word-offset field of `TBZ`/`TBNZ` (placed at bit 5) for a
/// byte offset: the offset in words, modulo 2^14.
#[verifier::allow_in_spec]
pub fn imm14(offset: i32) -> u32
    requires
        offset % 4 == 0,
        -0x8000 <= offset < 0x8000,
    returns
        ((offset / 4) % 0x4000) as u32,
{
    if offset < 0 {
        ((offset + 0x1_0000) / 4) as u32
    } else {
        (offset / 4) as u32
    }
}

/// A byte offset `B`/`BL` can encode.
pub open spec fn fits_imm26(offset: int) -> bool {
    offset % 4 == 0 && -0x800_0000 <= offset < 0x800_0000
}

/// A byte offset `B.cond`/`CBZ`/`CBNZ` can encode.
pub open spec fn fits_imm19(offset: int) -> bool {
    offset % 4 == 0 && -0x10_0000 <= offset < 0x10_0000
}

/// A byte offset `TBZ`/`TBNZ` can encode.
pub open spec fn fits_imm14(offset: int) -> bool {
    offset % 4 == 0 && -0x8000 <= offset < 0x8000
}

/// Two's-complement reading of the low `n` bits held in `v`.
pub open spec fn sign_extend(v: int, half: int) -> int {
    if v >= half {
        v - 2 * half
    } else {
        v
    }
}

/// The byte offset a `B`/`BL` word branches by.
pub open spec fn imm26_offset(word: u32) -> int {
    4 * sign_extend((word & 0x03ff_ffff) as int, 0x200_0000)
}

/// The byte offset a `B.cond`/`CBZ`/`CBNZ` word branches by.
pub open spec fn imm19_offset(word: u32) -> int {
    4 * sign_extend(((word >> 5u32) & 0x7_ffff) as int, 0x4_0000)
}

/// The byte offset a `TBZ`/`TBNZ` word branches by.
pub open spec fn imm14_offset(word: u32) -> int {
    4 * sign_extend(((word >> 5u32) & 0x3fff) as int, 0x2000)
}

/// `B label`, `offset` bytes from this instruction.
#[verifier::allow_in_spec]
pub fn b(offset: i32) -> u32
    requires
        fits_imm26(offset as int),
    returns
        0x1400_0000u32 | imm26(offset),
{
    0x1400_0000u32 | imm26(offset)
}

/// `BL label`, `offset` bytes from this instruction.
#[verifier::allow_in_spec]
pub fn bl(offset: i32) -> u32
    requires
        fits_imm26(offset as int),
    returns
        0x9400_0000u32 | imm26(offset),
{
    0x9400_0000u32 | imm26(offset)
}

/// `B.cond label`, `offset` bytes from this instruction.
#[verifier::allow_in_spec]
pub fn b_cond(cond: Cond, offset: i32) -> u32
    requires
        fits_imm19(offset as int),
    returns
        0x5400_0000u32 | (imm19(offset) << 5u32) | (cond.value() as u32),
{
    0x5400_0000u32 | (imm19(offset) << 5u32) | (cond.to_u8() as u32)
}

/// `CBZ Wt, label`, `offset` bytes from this instruction.
#[verifier::allow_in_spec]
pub fn cbz_w(rt: u8, offset: i32) -> u32
    requires
        rt < 32,
        fits_imm19(offset as int),
    returns
        0x3400_0000u32 | (imm19(offset) << 5u32) | (rt as u32),
{
    0x3400_0000u32 | (imm19(offset) << 5u32) | (rt as u32)
}

/// `CBZ Xt, label`, `offset` bytes from this instruction.
#[verifier::allow_in_spec]
pub fn cbz_x(rt: u8, offset: i32) -> u32
    requires
        rt < 32,
        fits_imm19(offset as int),
    returns
        0xb400_0000u32 | (imm19(offset) << 5u32) | (rt as u32),
{
    0xb400_0000u32 | (imm19(offset) << 5u32) | (rt as u32)
}

/// `CBNZ Wt, label`, `offset` bytes from this instruction.
#[verifier::allow_in_spec]
pub fn cbnz_w(rt: u8, offset: i32) -> u32
    requires
        rt < 32,
        fits_imm19(offset as int),
    returns
        0x3500_0000u32 | (imm19(offset) << 5u32) | (rt as u32),
{
    0x3500_0000u32 | (imm19(offset) << 5u32) | (rt as u32)
}

/// `CBNZ Xt, label`, `offset` bytes from this instruction.
#[verifier::allow_in_spec]
pub fn cbnz_x(rt: u8, offset: i32) -> u32
    requires
        rt < 32,
        fits_imm19(offset as int),
    returns
        0xb500_0000u32 | (imm19(offset) << 5u32) | (rt as u32),
{
    0xb500_0000u32 | (imm19(offset) << 5u32) | (rt as u32)
}

/// `TBZ Rt, #bit, label`, `offset` bytes from this instruction; bit 5 of
/// `bit` selects the `X` form.
#[verifier::allow_in_spec]
pub fn tbz(rt: u8, bit: u8, offset: i32) -> u32
    requires
        rt < 32,
        bit < 64,
        fits_imm14(offset as int),
    returns
        0x3600_0000u32 | (((bit as u32) >> 5u32) << 31u32) | (((bit as u32) & 0x1f) << 19u32) | (imm14(offset) << 5u32) | (rt as u32),
{
    0x3600_0000u32 | (((bit as u32) >> 5u32) << 31u32) | (((bit as u32) & 0x1f) << 19u32) | (imm14(offset) << 5u32) | (rt as u32)
}

/// `TBNZ Rt, #bit, label`, `offset` bytes from this instruction; bit 5 of
/// `bit` selects the `X` form.
#[verifier::allow_in_spec]
pub fn tbnz(rt: u8, bit: u8, offset: i32) -> u32
    requires
        rt < 32,
        bit < 64,
        fits_imm14(offset as int),
    returns
        0x3700_0000u32 | (((bit as u32) >> 5u32) << 31u32) | (((bit as u32) & 0x1f) << 19u32) | (imm14(offset) << 5u32) | (rt as u32),
{
    0x3700_0000u32 | (((bit as u32) >> 5u32) << 31u32) | (((bit as u32) & 0x1f) << 19u32) | (imm14(offset) << 5u32) | (rt as u32)
}

/// `word` with its `B`/`BL` offset field replaced by `offset`.
#[verifier::allow_in_spec]
pub fn with_imm26(word: u32, offset: i32) -> u32
    requires
        fits_imm26(offset as int),
    returns
        (word & 0xfc00_0000) | imm26(offset),
{
    (word & 0xfc00_0000) | imm26(offset)
}

/// `word` with its `B.cond`/`CBZ`/`CBNZ` offset field replaced by `offset`.
#[verifier::allow_in_spec]
pub fn with_imm19(word: u32, offset: i32) -> u32
    requires
        fits_imm19(offset as int),
    returns
        (word & 0xff00_001f) | (imm19(offset) << 5u32),
{
    (word & 0xff00_001f) | (imm19(offset) << 5u32)
}

/// The offset written by `with_imm26` is the one the word branches by, and
/// the other bits stay.
pub proof fn lemma_with_imm26(word: u32, offset: i32)
    requires
        fits_imm26(offset as int),
    ensures
        imm26_offset(with_imm26(word, offset)) == offset,
        with_imm26(word, offset) & 0xfc00_0000 == word & 0xfc00_0000,
{
    let f = imm26(offset);
    assert(f < 0x400_0000);
    assert(((word & 0xfc00_0000) | f) & 0x03ff_ffff == f && ((word & 0xfc00_0000) | f) & 0xfc00_0000
        == word & 0xfc00_0000) by (bit_vector)
        requires
            f < 0x400_0000u32,
    ;
}

/// The offset written by `with_imm19` is the one the word branches by, and
/// the other bits stay.
pub proof fn lemma_with_imm19(word: u32, offset: i32)
    requires
        fits_imm19(offset as int),
    ensures
        imm19_offset(with_imm19(word, offset)) == offset,
        with_imm19(word, offset) & 0xff00_001f == word & 0xff00_001f,
{
    let f = imm19(offset);
    assert(f < 0x8_0000);
    assert((((word & 0xff00_001f) | (f << 5u32)) >> 5u32) & 0x7_ffff == f && ((word & 0xff00_001f)
        | (f << 5u32)) & 0xff00_001f == word & 0xff00_001f) by (bit_vector)
        requires
            f < 0x8_0000u32,
    ;
}

/// A `TBZ`/`TBNZ` word branches by the offset it was encoded with.
pub proof fn lemma_tbz_offset(rt: u8, bit: u8, offset: i32)
    requires
        rt < 32,
        bit < 64,
        fits_imm14(offset as int),
    ensures
        imm14_offset(tbz(rt, bit, offset)) == offset,
        imm14_offset(tbnz(rt, bit, offset)) == offset,
{
    let f = imm14(offset);
    let b = bit as u32;
    let r = rt as u32;
    assert(f < 0x4000);
    assert((((0x3600_0000u32 | ((b >> 5u32) << 31u32) | ((b & 0x1f) << 19u32) | (f << 5u32) | r)
        >> 5u32) & 0x3fff) == f && (((0x3700_0000u32 | ((b >> 5u32) << 31u32) | ((b & 0x1f) << 19u32)
        | (f << 5u32) | r) >> 5u32) & 0x3fff) == f) by (bit_vector)
        requires
            f < 0x4000u32,
            r < 32u32,
            b < 64u32,
    ;
}

/// Filling in the offset of a branch emitted with offset 0 gives the word
/// the encoder produces for that offset: a branch resolved later is the
/// same instruction as one emitted with its target known.
pub proof fn lemma_resolved_branch_words(rt: u8, cond: Cond, offset: i32)
    requires
        rt < 32,
    ensures
        fits_imm26(offset as int) ==> with_imm26(b(0), offset) == b(offset),
        fits_imm26(offset as int) ==> with_imm26(bl(0), offset) == bl(offset),
        fits_imm19(offset as int) ==> with_imm19(b_cond(cond, 0), offset) == b_cond(cond, offset),
        fits_imm19(offset as int) ==> with_imm19(cbz_w(rt, 0), offset) == cbz_w(rt, offset),
        fits_imm19(offset as int) ==> with_imm19(cbz_x(rt, 0), offset) == cbz_x(rt, offset),
        fits_imm19(offset as int) ==> with_imm19(cbnz_w(rt, 0), offset) == cbnz_w(rt, offset),
        fits_imm19(offset as int) ==> with_imm19(cbnz_x(rt, 0), offset) == cbnz_x(rt, offset),
{
    let r = rt as u32;
    let c = cond.value() as u32;
    assert(imm26(0) == 0 && imm19(0) == 0);
    if fits_imm26(offset as int) {
        let f = imm26(offset);
        assert(f < 0x400_0000);
        assert(((0x1400_0000u32 | 0u32) & 0xfc00_0000) | f == 0x1400_0000u32 | f && ((0x9400_0000u32
            | 0u32) & 0xfc00_0000) | f == 0x9400_0000u32 | f) by (bit_vector)
            requires
                f < 0x400_0000u32,
        ;
    }
    if fits_imm19(offset as int) {
        let f = imm19(offset);
        assert(f < 0x8_0000);
        assert(c < 16);
        assert(forall|base: u32|
            #![auto]
            base & 0x00ff_ffff == 0 ==> ((base | (0u32 << 5u32) | r) & 0xff00_001f) | (f << 5u32) == base
                | (f << 5u32) | r) by (bit_vector)
            requires
                f < 0x8_0000u32,
                r < 32u32,
        ;
        assert(((0x5400_0000u32 | (0u32 << 5u32) | c) & 0xff00_001f) | (f << 5u32) == 0x5400_0000u32
            | (f << 5u32) | c) by (bit_vector)
            requires
                f < 0x8_0000u32,
                c < 16u32,
        ;
        assert(0x3400_0000u32 & 0x00ff_ffff == 0) by (bit_vector);
        assert(0xb400_0000u32 & 0x00ff_ffff == 0) by (bit_vector);
        assert(0x3500_0000u32 & 0x00ff_ffff == 0) by (bit_vector);
        assert(0xb500_0000u32 & 0x00ff_ffff == 0) by (bit_vector);
    }
}

/// All-ones in the low `k` bits (`k` up to 64).
pub open spec fn ones(k: u64) -> u64 {
    if k >= 64 {
        0xffff_ffff_ffff_ffffu64
    } else {
        ((1u64 << k) - 1) as u64
    }
}

/// `x`, an `e`-bit element, rotated right by `r` within its `e` bits.
pub open spec fn rotate_elem(x: u64, r: u64, e: u64) -> u64 {
    if r == 0 {
        x
    } else {
        ((x >> r) | (x << ((e - r) as u64))) & ones(e)
    }
}

/// One doubling step of `replicate`: copies the low `k` bits up by `k`
/// while the element is at most `k` bits wide.
pub open spec fn replicate_step(x: u64, e: u64, k: u64) -> u64 {
    if e <= k {
        x | (x << k)
    } else {
        x
    }
}

/// The `e`-bit element `x` repeated across 64 bits (`e` a power of two).
pub open spec fn replicate(x: u64, e: u64) -> u64 {
    replicate_step(
        replicate_step(
            replicate_step(replicate_step(replicate_step(x, e, 2), e, 4), e, 8),
            e,
            16,
        ),
        e,
        32,
    )
}

/// The element size a logical immediate's `N` and `imms` select (0 when
/// reserved).
pub open spec fn bitmask_esize(n: u64, imms: u64) -> u64 {
    if n == 1 {
        64
    } else if imms & 0x20 == 0 {
        32
    } else if imms & 0x10 == 0 {
        16
    } else if imms & 0x08 == 0 {
        8
    } else if imms & 0x04 == 0 {
        4
    } else if imms & 0x02 == 0 {
        2
    } else {
        0
    }
}

/// The value a logical-immediate field `f` (`N:immr:imms`, 13 bits) stands
/// for in a `datasize`-bit instruction: a run of `S + 1` ones rotated right
/// by `R` within an element, the element repeated across the register;
/// `None` for a reserved encoding.
pub open spec fn decode_bit_mask(f: u64, datasize: u64) -> Option<u64> {
    let n = (f >> 12u64) & 1;
    let immr = (f >> 6u64) & 0x3f;
    let imms = f & 0x3f;
    let e = bitmask_esize(n, imms);
    if e == 0 || e > datasize {
        None
    } else {
        let s = imms & ((e - 1) as u64);
        let r = immr & ((e - 1) as u64);
        if s == e - 1 {
            None
        } else {
            Some(replicate(rotate_elem(ones((s + 1) as u64), r, e), e) & ones(datasize))
        }
    }
}

/// `imm` is a logical immediate of a `datasize`-bit instruction.
pub open spec fn bit_mask_encodable(imm: u64, datasize: u64) -> bool {
    exists|f: u64| f < 0x2000 && decode_bit_mask(f, datasize) == Some(imm)
}

/// The least field that encodes `imm`, the canonical encoding.
pub open spec fn bit_mask_fields(imm: u64, datasize: u64) -> u64 {
    choose|f: u64|
        f < 0x2000 && decode_bit_mask(f, datasize) == Some(imm) && forall|g: u64|
            g < f ==> decode_bit_mask(g, datasize) != Some(imm)
}

/// `decode_bit_mask`, computed.
pub fn decode_bit_mask_exec(f: u64, datasize: u64) -> (r: Option<u64>)
    requires
        f < 0x2000,
        datasize == 32 || datasize == 64,
    ensures
        r == decode_bit_mask(f, datasize),
{
    let n = (f >> 12u64) & 1;
    let immr = (f >> 6u64) & 0x3f;
    let imms = f & 0x3f;
    let e: u64 = if n == 1 {
        64
    } else if imms & 0x20 == 0 {
        32
    } else if imms & 0x10 == 0 {
        16
    } else if imms & 0x08 == 0 {
        8
    } else if imms & 0x04 == 0 {
        4
    } else if imms & 0x02 == 0 {
        2
    } else {
        0
    };
    if e == 0 || e > datasize {
        return None;
    }
    let s = imms & (e - 1);
    let r = immr & (e - 1);
    if s == e - 1 {
        return None;
    }
    assert(imms < 64) by (bit_vector)
        requires
            imms == f & 0x3f,
    ;
    assert(s < 63) by (bit_vector)
        requires
            s == imms & ((e - 1) as u64),
            s != e - 1,
            2 <= e <= 64,
            imms < 64,
    ;
    assert(1u64 << (s + 1) >= 1) by (bit_vector)
        requires
            s < 63,
    ;
    let run: u64 = (1u64 << (s + 1)) - 1;
    assert(run == ones((s + 1) as u64));
    let mask_e: u64 = if e >= 64 {
        0xffff_ffff_ffff_ffff
    } else {
        assert(1u64 << e >= 1) by (bit_vector)
            requires
                e < 64,
        ;
        (1u64 << e) - 1
    };
    assert(mask_e == ones(e));
    assert(r < e) by (bit_vector)
        requires
            r == immr & ((e - 1) as u64),
            e >= 1,
    ;
    let elem: u64 = if r == 0 {
        run
    } else {
        ((run >> r) | (run << (e - r))) & mask_e
    };
    assert(elem == rotate_elem(ones((s + 1) as u64), r, e));
    let mut x = elem;
    if e <= 2 {
        x = x | (x << 2u64);
    }
    if e <= 4 {
        x = x | (x << 4u64);
    }
    if e <= 8 {
        x = x | (x << 8u64);
    }
    if e <= 16 {
        x = x | (x << 16u64);
    }
    if e <= 32 {
        x = x | (x << 32u64);
    }
    assert(x == replicate(elem, e));
    let mask_d: u64 = if datasize == 64 {
        0xffff_ffff_ffff_ffff
    } else {
        0xffff_ffff
    };
    assert(ones(32) == 0xffff_ffffu64) by (bit_vector);
    assert(mask_d == ones(datasize));
    Some(x & mask_d)
}

/// The canonical logical-immediate field for `imm` in a `datasize`-bit
/// instruction, or `None` when no field encodes it.
pub fn encode_bit_mask(imm: u64, datasize: u64) -> (r: Option<u64>)
    requires
        datasize == 32 || datasize == 64,
    ensures
        r is Some <==> bit_mask_encodable(imm, datasize),
        r is Some ==> r->0 == bit_mask_fields(imm, datasize) && r->0 < 0x2000,
        r is Some ==> decode_bit_mask(r->0, datasize) == Some(imm),
{
    let mut f: u64 = 0;
    while f < 0x2000
        invariant
            f <= 0x2000,
            datasize == 32 || datasize == 64,
            forall|g: u64| g < f ==> decode_bit_mask(g, datasize) != Some(imm),
        decreases 0x2000 - f,
    {
        match decode_bit_mask_exec(f, datasize) {
            Some(v) => {
                if v == imm {
                    proof {
                        let c = bit_mask_fields(imm, datasize);
                        assert(f < 0x2000 && decode_bit_mask(f, datasize) == Some(imm) && forall|g: u64|
                            g < f ==> decode_bit_mask(g, datasize) != Some(imm));
                        assert(c < 0x2000 && decode_bit_mask(c, datasize) == Some(imm));
                        assert(!(c < f));
                        assert(!(f < c));
                    }
                    return Some(f);
                }
            },
            None => {},
        }
        f = f + 1;
    }
    None
}

/// `AND Xd, Xn, #imm` with a logical immediate in its canonical encoding.
#[verifier::allow_in_spec]
pub fn and_x_imm(rd: u8, rn: u8, imm: u64) -> u32
    requires
        rd < 32,
        rn < 32,
        bit_mask_encodable(imm as u64, 64),
    returns
        rr(0x9200_0000, rd, rn) | ((bit_mask_fields(imm as u64, 64) as u32) << 10u32),
{
    match encode_bit_mask(imm as u64, 64) {
        Some(f) => rr(0x9200_0000, rd, rn) | ((f as u32) << 10u32),
        None => 0,
    }
}

/// `AND Wd, Wn, #imm` with a logical immediate in its canonical encoding.
#[verifier::allow_in_spec]
pub fn and_w_imm(rd: u8, rn: u8, imm: u32) -> u32
    requires
        rd < 32,
        rn < 32,
        bit_mask_encodable(imm as u64, 32),
    returns
        rr(0x1200_0000, rd, rn) | ((bit_mask_fields(imm as u64, 32) as u32) << 10u32),
{
    match encode_bit_mask(imm as u64, 32) {
        Some(f) => rr(0x1200_0000, rd, rn) | ((f as u32) << 10u32),
        None => 0,
    }
}

/// `ANDS Wd, Wn, #imm` with a logical immediate in its canonical encoding.
#[verifier::allow_in_spec]
pub fn ands_w_imm(rd: u8, rn: u8, imm: u32) -> u32
    requires
        rd < 32,
        rn < 32,
        bit_mask_encodable(imm as u64, 32),
    returns
        rr(0x7200_0000, rd, rn) | ((bit_mask_fields(imm as u64, 32) as u32) << 10u32),
{
    match encode_bit_mask(imm as u64, 32) {
        Some(f) => rr(0x7200_0000, rd, rn) | ((f as u32) << 10u32),
        None => 0,
    }
}

/// `ORR Wd, Wn, #imm` with a logical immediate in its canonical encoding.
#[verifier::allow_in_spec]
pub fn orr_w_imm(rd: u8, rn: u8, imm: u32) -> u32
    requires
        rd < 32,
        rn < 32,
        bit_mask_encodable(imm as u64, 32),
    returns
        rr(0x3200_0000, rd, rn) | ((bit_mask_fields(imm as u64, 32) as u32) << 10u32),
{
    match encode_bit_mask(imm as u64, 32) {
        Some(f) => rr(0x3200_0000, rd, rn) | ((f as u32) << 10u32),
        None => 0,
    }
}

/// `TST Xn, #imm (ANDS XZR)` with a logical immediate in its canonical encoding.
#[verifier::allow_in_spec]
pub fn tst_x_imm(rn: u8, imm: u64) -> u32
    requires
        rn < 32,
        bit_mask_encodable(imm as u64, 64),
    returns
        rr(0xf200_0000, 31, rn) | ((bit_mask_fields(imm as u64, 64) as u32) << 10u32),
{
    match encode_bit_mask(imm as u64, 64) {
        Some(f) => rr(0xf200_0000, 31, rn) | ((f as u32) << 10u32),
        None => 0,
    }
}

/// `TST Wn, #imm (ANDS WZR)` with a logical immediate in its canonical encoding.
#[verifier::allow_in_spec]
pub fn tst_w_imm(rn: u8, imm: u32) -> u32
    requires
        rn < 32,
        bit_mask_encodable(imm as u64, 32),
    returns
        rr(0x7200_0000, 31, rn) | ((bit_mask_fields(imm as u64, 32) as u32) << 10u32),
{
    match encode_bit_mask(imm as u64, 32) {
        Some(f) => rr(0x7200_0000, 31, rn) | ((f as u32) << 10u32),
        None => 0,
    }
}

/// The operands of a two-register word read back from their fields, and
/// the bits outside the fields are `base`'s.
pub proof fn lemma_rr_fields(base: u32, rd: u8, rn: u8)
    requires
        base & 0x3ff == 0,
        rd < 32,
        rn < 32,
    ensures
        rr(base, rd, rn) & 0x1f == rd as u32,
        (rr(base, rd, rn) >> 5u32) & 0x1f == rn as u32,
        rr(base, rd, rn) & 0xffff_fc00 == base,
{
    let (d, n) = (rd as u32, rn as u32);
    assert((base | (n << 5u32) | d) & 0x1f == d && ((base | (n << 5u32) | d) >> 5u32) & 0x1f == n
        && (base | (n << 5u32) | d) & 0xffff_fc00 == base) by (bit_vector)
        requires
            base & 0x3ff == 0,
            d < 32,
            n < 32,
    ;
}

/// The operands of a three-register word read back from their fields, and
/// the bits outside the fields are `base`'s.
pub proof fn lemma_rrr_fields(base: u32, rd: u8, rn: u8, rm: u8)
    requires
        base & 0x001f_03ff == 0,
        rd < 32,
        rn < 32,
        rm < 32,
    ensures
        rrr(base, rd, rn, rm) & 0x1f == rd as u32,
        (rrr(base, rd, rn, rm) >> 5u32) & 0x1f == rn as u32,
        (rrr(base, rd, rn, rm) >> 16u32) & 0x1f == rm as u32,
        rrr(base, rd, rn, rm) & 0xffe0_fc00 == base,
{
    let (d, n, m) = (rd as u32, rn as u32, rm as u32);
    let w = base | (m << 16u32) | (n << 5u32) | d;
    assert(w & 0x1f == d && (w >> 5u32) & 0x1f == n && (w >> 16u32) & 0x1f == m && w & 0xffe0_fc00
        == base) by (bit_vector)
        requires
            w == base | (m << 16u32) | (n << 5u32) | d,
            base & 0x001f_03ff == 0,
            d < 32,
            n < 32,
            m < 32,
    ;
}

/// The operands of a four-register word read back from their fields, and
/// the bits outside the fields are `base`'s.
pub proof fn lemma_rrrr_fields(base: u32, rd: u8, rn: u8, rm: u8, ra: u8)
    requires
        base & 0x001f_7fff == 0,
        rd < 32,
        rn < 32,
        rm < 32,
        ra < 32,
    ensures
        rrrr(base, rd, rn, rm, ra) & 0x1f == rd as u32,
        (rrrr(base, rd, rn, rm, ra) >> 5u32) & 0x1f == rn as u32,
        (rrrr(base, rd, rn, rm, ra) >> 10u32) & 0x1f == ra as u32,
        (rrrr(base, rd, rn, rm, ra) >> 16u32) & 0x1f == rm as u32,
        rrrr(base, rd, rn, rm, ra) & 0xffe0_8000 == base,
{
    let (d, n, m, a) = (rd as u32, rn as u32, rm as u32, ra as u32);
    let w = base | (m << 16u32) | (a << 10u32) | (n << 5u32) | d;
    assert(w & 0x1f == d && (w >> 5u32) & 0x1f == n && (w >> 10u32) & 0x1f == a && (w >> 16u32)
        & 0x1f == m && w & 0xffe0_8000 == base) by (bit_vector)
        requires
            w == base | (m << 16u32) | (a << 10u32) | (n << 5u32) | d,
            base & 0x001f_7fff == 0,
            d < 32,
            n < 32,
            m < 32,
            a < 32,
    ;
}

/// The operands and the arrangement of a three-register vector word read
/// back from their fields, and the bits outside the fields are `base`'s.
pub proof fn lemma_vec_rrr_fields(base: u32, rd: u8, rn: u8, rm: u8, esize: u8, q: bool)
    requires
        base & 0x40df_03ff == 0,
        rd < 32,
        rn < 32,
        rm < 32,
    ensures
        vec_rrr(base, rd, rn, rm, esize, q) & 0x1f == rd as u32,
        (vec_rrr(base, rd, rn, rm, esize, q) >> 5u32) & 0x1f == rn as u32,
        (vec_rrr(base, rd, rn, rm, esize, q) >> 16u32) & 0x1f == rm as u32,
        (vec_rrr(base, rd, rn, rm, esize, q) >> 22u32) & 3 == size_field(esize),
        ((vec_rrr(base, rd, rn, rm, esize, q) >> 30u32) & 1 == 1) == q,
        vec_rrr(base, rd, rn, rm, esize, q) & 0xbf20_fc00 == base,
{
    let (d, n, m) = (rd as u32, rn as u32, rm as u32);
    let z = size_field(esize);
    let qb = q_field(q);
    let w = base | qb | (z << 22u32) | (m << 16u32) | (n << 5u32) | d;
    assert(z < 4);
    assert(qb == 0 || qb == 0x4000_0000);
    assert(w & 0x1f == d && (w >> 5u32) & 0x1f == n && (w >> 16u32) & 0x1f == m && (w >> 22u32) & 3
        == z && ((w >> 30u32) & 1 == 1) == (qb == 0x4000_0000) && w & 0xbf20_fc00 == base) by (bit_vector)
        requires
            w == base | qb | (z << 22u32) | (m << 16u32) | (n << 5u32) | d,
            base & 0x40df_03ff == 0,
            d < 32,
            n < 32,
            m < 32,
            z < 4,
            qb == 0 || qb == 0x4000_0000,
    ;
}

/// The 8-bit immediate `a:b:c:d:e:f:g:h` of an Advanced SIMD modified
/// immediate word: `abc` in bits [18:16], `defgh` in bits [9:5].
pub open spec fn modified_imm8(word: u32) -> u32 {
    (((word >> 16u32) & 7) << 5u32) | ((word >> 5u32) & 0x1f)
}

/// Byte `i` of the 64-bit value of `MOVI Dd, #imm` for the immediate
/// `imm8`: all ones when bit `i` of `imm8` is set, else zero.
pub open spec fn mask_byte(imm8: u32, i: u32) -> u64 {
    if (imm8 >> i) & 1 == 1 {
        0xffu64 << ((8 * i) as u64)
    } else {
        0u64
    }
}

/// The 64-bit value of `MOVI Dd, #imm` for the immediate `imm8`.
pub open spec fn byte_mask_value(imm8: u32) -> u64 {
    mask_byte(imm8, 0) | mask_byte(imm8, 1) | mask_byte(imm8, 2) | mask_byte(imm8, 3) | mask_byte(
        imm8,
        4,
    ) | mask_byte(imm8, 5) | mask_byte(imm8, 6) | mask_byte(imm8, 7)
}

/// `word` is a `MOVI Dd, #imm` of the 64-bit byte-mask form (`Q = 0`,
/// `op = 1`, `cmode = 1110`), whatever its register and immediate.
pub open spec fn is_movi_byte_mask(word: u32) -> bool {
    word & 0xfff8_fc00 == 0x2f00_e400
}

/// `MOVI Dd, #mask` is the byte-mask form, writes `Dd`, and carries `mask`
/// in its modified-immediate field, so byte `i` of `Dd` is all ones exactly
/// when bit `i` of `mask` is set.
pub proof fn lemma_movi_rep_carries_mask(rd: u8, mask: u8)
    requires
        rd < 32,
    ensures
        is_movi_byte_mask(movi_d_rep_imm(rd, mask)),
        movi_d_rep_imm(rd, mask) & 0x1f == rd as u32,
        modified_imm8(movi_d_rep_imm(rd, mask)) == mask as u32,
        forall|i: u32|
            i < 8 ==> (#[trigger] (byte_mask_value(modified_imm8(movi_d_rep_imm(rd, mask))) >> (8
                * i) as u64)) & 0xff == if (mask >> i) & 1 == 1 {
                0xffu64
            } else {
                0u64
            },
{
    let m = mask as u32;
    let d = rd as u32;
    let w = 0x2f00_e400u32 | ((m >> 5u32) << 16u32) | ((m & 0x1f) << 5u32) | d;
    assert(movi_d_rep_imm(rd, mask) == w);
    assert((((w >> 16u32) & 7) << 5u32) | ((w >> 5u32) & 0x1f) == m && w & 0x1f == d && w
        & 0xfff8_fc00 == 0x2f00_e400) by (bit_vector)
        requires
            w == 0x2f00_e400u32 | ((m >> 5u32) << 16u32) | ((m & 0x1f) << 5u32) | d,
            m < 256,
            d < 32,
    ;
    let v = byte_mask_value(m);
    assert forall|i: u32| i < 8 implies (#[trigger] (v >> (8 * i) as u64)) & 0xff == if (mask >> i)
        & 1 == 1 {
        0xffu64
    } else {
        0u64
    } by {
        assert((m >> i) & 1 == (mask >> i) & 1) by (bit_vector)
            requires
                m == mask as u32,
                i < 8,
        ;
        assert((v >> (8 * i) as u64) & 0xff == if (m >> i) & 1 == 1 {
            0xffu64
        } else {
            0u64
        }) by (bit_vector)
            requires
                v == byte_mask_value(m),
                i < 8,
        ;
    }
}

/// A barrier word carries its option in `CRm` (bits [11:8]) over the fixed
/// `DMB` (`op2` = 101) or `DSB` (`op2` = 100) pattern.
pub proof fn lemma_barrier_words(crm: u8)
    requires
        crm < 16,
    ensures
        (dmb(crm) >> 8u32) & 0xf == crm as u32,
        (dsb(crm) >> 8u32) & 0xf == crm as u32,
        dmb(crm) & 0xffff_f0ff == 0xd503_30bf,
        dsb(crm) & 0xffff_f0ff == 0xd503_309f,
        (dmb(crm) >> 5u32) & 7 == 5,
        (dsb(crm) >> 5u32) & 7 == 4,
{
    let c = crm as u32;
    assert(((0xd503_30bfu32 | (c << 8u32)) >> 8u32) & 0xf == c && ((0xd503_309fu32 | (c << 8u32))
        >> 8u32) & 0xf == c && (0xd503_30bfu32 | (c << 8u32)) & 0xffff_f0ff == 0xd503_30bf && (
    0xd503_309fu32 | (c << 8u32)) & 0xffff_f0ff == 0xd503_309f && ((0xd503_30bfu32 | (c << 8u32))
        >> 5u32) & 7 == 5 && ((0xd503_309fu32 | (c << 8u32)) >> 5u32) & 7 == 4) by (bit_vector)
        requires
            c < 16,
    ;
}

/// The `op0:op1:CRn:CRm:op2` number of a system register, as bits [20:5]
/// of `MRS`/`MSR` hold it.
pub open spec fn sysreg_number(op0: u32, op1: u32, crn: u32, crm: u32, op2: u32) -> u32 {
    (op0 << 14u32) | (op1 << 11u32) | (crn << 7u32) | (crm << 3u32) | op2
}

/// `MRS`/`MSR` words name their system register by its architectural
/// `op0, op1, CRn, CRm, op2` (`FPCR` 3,3,4,4,0; `FPSR` 3,3,4,4,1; `NZCV`
/// 3,3,4,2,0), carry the direction in bit 21 (1 reads into `Xt`, 0 writes
/// from it) and `Xt` in bits [4:0].
pub proof fn lemma_system_register_words(rt: u8)
    requires
        rt < 32,
    ensures
        (mrs_fpcr(rt) >> 5u32) & 0xffff == sysreg_number(3, 3, 4, 4, 0),
        (msr_fpcr(rt) >> 5u32) & 0xffff == sysreg_number(3, 3, 4, 4, 0),
        (mrs_fpsr(rt) >> 5u32) & 0xffff == sysreg_number(3, 3, 4, 4, 1),
        (msr_fpsr(rt) >> 5u32) & 0xffff == sysreg_number(3, 3, 4, 4, 1),
        (mrs_nzcv(rt) >> 5u32) & 0xffff == sysreg_number(3, 3, 4, 2, 0),
        (msr_nzcv(rt) >> 5u32) & 0xffff == sysreg_number(3, 3, 4, 2, 0),
        (mrs_fpcr(rt) >> 21u32) & 1 == 1 && (mrs_fpsr(rt) >> 21u32) & 1 == 1 && (mrs_nzcv(rt) >> 21u32)
            & 1 == 1,
        (msr_fpcr(rt) >> 21u32) & 1 == 0 && (msr_fpsr(rt) >> 21u32) & 1 == 0 && (msr_nzcv(rt) >> 21u32)
            & 1 == 0,
        mrs_fpcr(rt) & 0x1f == rt as u32 && msr_fpcr(rt) & 0x1f == rt as u32,
        mrs_fpsr(rt) & 0x1f == rt as u32 && msr_fpsr(rt) & 0x1f == rt as u32,
        mrs_nzcv(rt) & 0x1f == rt as u32 && msr_nzcv(rt) & 0x1f == rt as u32,
        mrs_fpcr(rt) >> 22u32 == 0x354 && msr_fpcr(rt) >> 22u32 == 0x354,
{
    let t = rt as u32;
    assert(forall|base: u32|
        #![auto]
        (base & 0x1f == 0) ==> ((base | (0u32 << 5u32) | t) >> 5u32) & 0xffff == (base >> 5u32) & 0xffff
            && ((base | (0u32 << 5u32) | t) >> 21u32) & 1 == (base >> 21u32) & 1 && (base | (0u32
            << 5u32) | t) & 0x1f == t && (base | (0u32 << 5u32) | t) >> 22u32 == base >> 22u32)
        by (bit_vector)
        requires
            t < 32,
    ;
    assert((0xd53b_4400u32 >> 5u32) & 0xffff == sysreg_number(3, 3, 4, 4, 0) && (0xd51b_4400u32
        >> 5u32) & 0xffff == sysreg_number(3, 3, 4, 4, 0) && (0xd53b_4420u32 >> 5u32) & 0xffff
        == sysreg_number(3, 3, 4, 4, 1) && (0xd51b_4420u32 >> 5u32) & 0xffff == sysreg_number(3, 3, 4, 4, 1)
        && (0xd53b_4200u32 >> 5u32) & 0xffff == sysreg_number(3, 3, 4, 2, 0) && (0xd51b_4200u32 >> 5u32)
        & 0xffff == sysreg_number(3, 3, 4, 2, 0) && (0xd53b_4400u32 >> 21u32) & 1 == 1 && (0xd53b_4420u32
        >> 21u32) & 1 == 1 && (0xd53b_4200u32 >> 21u32) & 1 == 1 && (0xd51b_4400u32 >> 21u32) & 1 == 0
        && (0xd51b_4420u32 >> 21u32) & 1 == 0 && (0xd51b_4200u32 >> 21u32) & 1 == 0 && 0xd53b_4400u32
        >> 22u32 == 0x354 && 0xd51b_4400u32 >> 22u32 == 0x354) by (bit_vector);
    assert(0xd53b_4400u32 & 0x1f == 0 && 0xd51b_4400u32 & 0x1f == 0 && 0xd53b_4420u32 & 0x1f == 0
        && 0xd51b_4420u32 & 0x1f == 0 && 0xd53b_4200u32 & 0x1f == 0 && 0xd51b_4200u32 & 0x1f == 0)
        by (bit_vector);
}


} // verus!
