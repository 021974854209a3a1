//! Integer data-processing mnemonics: carries, logic, multiply and divide,
//! variable shifts, bitfield moves and extracts.

use super::{arith_imm_shift12, CodeGenerator};
use crate::block_of_code::{emits, full_message};
use crate::inst;
use crate::reg::{GpReg, Register, WReg, XReg};
use vstd::prelude::*;

verus! {

impl<'a> CodeGenerator<'a> {
    /// `ADC(Rd, Rn, Rm)`.
    pub fn adc<R: GpReg>(&mut self, rd: R, rn: R, rm: R) -> (r: Result<(), String>)
        ensures
            emits(*old(self).code, *final(self).code, if R::sf() { inst::adc_x(rd.num(), rn.num(), rm.num()) } else { inst::adc_w(rd.num(), rn.num(), rm.num()) }, r is Ok),
            r is Err ==> r->Err_0@ == full_message(),
            *final(final(self).code) == *final(old(self).code),
    {
        self.emit(if R::sf() { inst::adc_x(rd.index(), rn.index(), rm.index()) } else { inst::adc_w(rd.index(), rn.index(), rm.index()) })
    }

    /// `ADCS(Rd, Rn, Rm)`.
    pub fn adcs<R: GpReg>(&mut self, rd: R, rn: R, rm: R) -> (r: Result<(), String>)
        ensures
            emits(*old(self).code, *final(self).code, if R::sf() { inst::adcs_x(rd.num(), rn.num(), rm.num()) } else { inst::adcs_w(rd.num(), rn.num(), rm.num()) }, r is Ok),
            r is Err ==> r->Err_0@ == full_message(),
            *final(final(self).code) == *final(old(self).code),
    {
        self.emit(if R::sf() { inst::adcs_x(rd.index(), rn.index(), rm.index()) } else { inst::adcs_w(rd.index(), rn.index(), rm.index()) })
    }

    /// `SBC(Rd, Rn, Rm)`.
    pub fn sbc<R: GpReg>(&mut self, rd: R, rn: R, rm: R) -> (r: Result<(), String>)
        ensures
            emits(*old(self).code, *final(self).code, if R::sf() { inst::sbc_x(rd.num(), rn.num(), rm.num()) } else { inst::sbc_w(rd.num(), rn.num(), rm.num()) }, r is Ok),
            r is Err ==> r->Err_0@ == full_message(),
            *final(final(self).code) == *final(old(self).code),
    {
        self.emit(if R::sf() { inst::sbc_x(rd.index(), rn.index(), rm.index()) } else { inst::sbc_w(rd.index(), rn.index(), rm.index()) })
    }

    /// `SBCS(Rd, Rn, Rm)`.
    pub fn sbcs<R: GpReg>(&mut self, rd: R, rn: R, rm: R) -> (r: Result<(), String>)
        ensures
            emits(*old(self).code, *final(self).code, if R::sf() { inst::sbcs_x(rd.num(), rn.num(), rm.num()) } else { inst::sbcs_w(rd.num(), rn.num(), rm.num()) }, r is Ok),
            r is Err ==> r->Err_0@ == full_message(),
            *final(final(self).code) == *final(old(self).code),
    {
        self.emit(if R::sf() { inst::sbcs_x(rd.index(), rn.index(), rm.index()) } else { inst::sbcs_w(rd.index(), rn.index(), rm.index()) })
    }

    /// `ANDS(Rd, Rn, Rm)`.
    pub fn ands<R: GpReg>(&mut self, rd: R, rn: R, rm: R) -> (r: Result<(), String>)
        ensures
            emits(*old(self).code, *final(self).code, if R::sf() { inst::ands_x_reg(rd.num(), rn.num(), rm.num()) } else { inst::ands_w_reg(rd.num(), rn.num(), rm.num()) }, r is Ok),
            r is Err ==> r->Err_0@ == full_message(),
            *final(final(self).code) == *final(old(self).code),
    {
        self.emit(if R::sf() { inst::ands_x_reg(rd.index(), rn.index(), rm.index()) } else { inst::ands_w_reg(rd.index(), rn.index(), rm.index()) })
    }

    /// `BIC(Rd, Rn, Rm)`.
    pub fn bic<R: GpReg>(&mut self, rd: R, rn: R, rm: R) -> (r: Result<(), String>)
        ensures
            emits(*old(self).code, *final(self).code, if R::sf() { inst::bic_x(rd.num(), rn.num(), rm.num()) } else { inst::bic_w(rd.num(), rn.num(), rm.num()) }, r is Ok),
            r is Err ==> r->Err_0@ == full_message(),
            *final(final(self).code) == *final(old(self).code),
    {
        self.emit(if R::sf() { inst::bic_x(rd.index(), rn.index(), rm.index()) } else { inst::bic_w(rd.index(), rn.index(), rm.index()) })
    }

    /// `BICS(Rd, Rn, Rm)`.
    pub fn bics<R: GpReg>(&mut self, rd: R, rn: R, rm: R) -> (r: Result<(), String>)
        ensures
            emits(*old(self).code, *final(self).code, if R::sf() { inst::bics_x(rd.num(), rn.num(), rm.num()) } else { inst::bics_w(rd.num(), rn.num(), rm.num()) }, r is Ok),
            r is Err ==> r->Err_0@ == full_message(),
            *final(final(self).code) == *final(old(self).code),
    {
        self.emit(if R::sf() { inst::bics_x(rd.index(), rn.index(), rm.index()) } else { inst::bics_w(rd.index(), rn.index(), rm.index()) })
    }

    /// `MUL(Rd, Rn, Rm)`.
    pub fn mul<R: GpReg>(&mut self, rd: R, rn: R, rm: R) -> (r: Result<(), String>)
        ensures
            emits(*old(self).code, *final(self).code, if R::sf() { inst::mul_x(rd.num(), rn.num(), rm.num()) } else { inst::mul_w(rd.num(), rn.num(), rm.num()) }, r is Ok),
            r is Err ==> r->Err_0@ == full_message(),
            *final(final(self).code) == *final(old(self).code),
    {
        self.emit(if R::sf() { inst::mul_x(rd.index(), rn.index(), rm.index()) } else { inst::mul_w(rd.index(), rn.index(), rm.index()) })
    }

    /// `SDIV(Rd, Rn, Rm)`.
    pub fn sdiv<R: GpReg>(&mut self, rd: R, rn: R, rm: R) -> (r: Result<(), String>)
        ensures
            emits(*old(self).code, *final(self).code, if R::sf() { inst::sdiv_x(rd.num(), rn.num(), rm.num()) } else { inst::sdiv_w(rd.num(), rn.num(), rm.num()) }, r is Ok),
            r is Err ==> r->Err_0@ == full_message(),
            *final(final(self).code) == *final(old(self).code),
    {
        self.emit(if R::sf() { inst::sdiv_x(rd.index(), rn.index(), rm.index()) } else { inst::sdiv_w(rd.index(), rn.index(), rm.index()) })
    }

    /// `UDIV(Rd, Rn, Rm)`.
    pub fn udiv<R: GpReg>(&mut self, rd: R, rn: R, rm: R) -> (r: Result<(), String>)
        ensures
            emits(*old(self).code, *final(self).code, if R::sf() { inst::udiv_x(rd.num(), rn.num(), rm.num()) } else { inst::udiv_w(rd.num(), rn.num(), rm.num()) }, r is Ok),
            r is Err ==> r->Err_0@ == full_message(),
            *final(final(self).code) == *final(old(self).code),
    {
        self.emit(if R::sf() { inst::udiv_x(rd.index(), rn.index(), rm.index()) } else { inst::udiv_w(rd.index(), rn.index(), rm.index()) })
    }

    /// `LSLV(Rd, Rn, Rm)`.
    pub fn lslv<R: GpReg>(&mut self, rd: R, rn: R, rm: R) -> (r: Result<(), String>)
        ensures
            emits(*old(self).code, *final(self).code, if R::sf() { inst::lslv_x(rd.num(), rn.num(), rm.num()) } else { inst::lslv_w(rd.num(), rn.num(), rm.num()) }, r is Ok),
            r is Err ==> r->Err_0@ == full_message(),
            *final(final(self).code) == *final(old(self).code),
    {
        self.emit(if R::sf() { inst::lslv_x(rd.index(), rn.index(), rm.index()) } else { inst::lslv_w(rd.index(), rn.index(), rm.index()) })
    }

    /// `LSRV(Rd, Rn, Rm)`.
    pub fn lsrv<R: GpReg>(&mut self, rd: R, rn: R, rm: R) -> (r: Result<(), String>)
        ensures
            emits(*old(self).code, *final(self).code, if R::sf() { inst::lsrv_x(rd.num(), rn.num(), rm.num()) } else { inst::lsrv_w(rd.num(), rn.num(), rm.num()) }, r is Ok),
            r is Err ==> r->Err_0@ == full_message(),
            *final(final(self).code) == *final(old(self).code),
    {
        self.emit(if R::sf() { inst::lsrv_x(rd.index(), rn.index(), rm.index()) } else { inst::lsrv_w(rd.index(), rn.index(), rm.index()) })
    }

    /// `ASRV(Rd, Rn, Rm)`.
    pub fn asrv<R: GpReg>(&mut self, rd: R, rn: R, rm: R) -> (r: Result<(), String>)
        ensures
            emits(*old(self).code, *final(self).code, if R::sf() { inst::asrv_x(rd.num(), rn.num(), rm.num()) } else { inst::asrv_w(rd.num(), rn.num(), rm.num()) }, r is Ok),
            r is Err ==> r->Err_0@ == full_message(),
            *final(final(self).code) == *final(old(self).code),
    {
        self.emit(if R::sf() { inst::asrv_x(rd.index(), rn.index(), rm.index()) } else { inst::asrv_w(rd.index(), rn.index(), rm.index()) })
    }

    /// `RORV(Rd, Rn, Rm)`.
    pub fn rorv<R: GpReg>(&mut self, rd: R, rn: R, rm: R) -> (r: Result<(), String>)
        ensures
            emits(*old(self).code, *final(self).code, if R::sf() { inst::rorv_x(rd.num(), rn.num(), rm.num()) } else { inst::rorv_w(rd.num(), rn.num(), rm.num()) }, r is Ok),
            r is Err ==> r->Err_0@ == full_message(),
            *final(final(self).code) == *final(old(self).code),
    {
        self.emit(if R::sf() { inst::rorv_x(rd.index(), rn.index(), rm.index()) } else { inst::rorv_w(rd.index(), rn.index(), rm.index()) })
    }

    /// `CLZ(Rd, Rn)`.
    pub fn clz<R: GpReg>(&mut self, rd: R, rn: R) -> (r: Result<(), String>)
        ensures
            emits(*old(self).code, *final(self).code, if R::sf() { inst::clz_x(rd.num(), rn.num()) } else { inst::clz_w(rd.num(), rn.num()) }, r is Ok),
            r is Err ==> r->Err_0@ == full_message(),
            *final(final(self).code) == *final(old(self).code),
    {
        self.emit(if R::sf() { inst::clz_x(rd.index(), rn.index()) } else { inst::clz_w(rd.index(), rn.index()) })
    }

    /// `MVN(Rd, Rn)`.
    pub fn mvn<R: GpReg>(&mut self, rd: R, rn: R) -> (r: Result<(), String>)
        ensures
            emits(*old(self).code, *final(self).code, if R::sf() { inst::mvn_x(rd.num(), rn.num()) } else { inst::mvn_w(rd.num(), rn.num()) }, r is Ok),
            r is Err ==> r->Err_0@ == full_message(),
            *final(final(self).code) == *final(old(self).code),
    {
        self.emit(if R::sf() { inst::mvn_x(rd.index(), rn.index()) } else { inst::mvn_w(rd.index(), rn.index()) })
    }

    /// `REV(Rd, Rn)`.
    pub fn rev<R: GpReg>(&mut self, rd: R, rn: R) -> (r: Result<(), String>)
        ensures
            emits(*old(self).code, *final(self).code, if R::sf() { inst::rev_x(rd.num(), rn.num()) } else { inst::rev_w(rd.num(), rn.num()) }, r is Ok),
            r is Err ==> r->Err_0@ == full_message(),
            *final(final(self).code) == *final(old(self).code),
    {
        self.emit(if R::sf() { inst::rev_x(rd.index(), rn.index()) } else { inst::rev_w(rd.index(), rn.index()) })
    }

    /// `LSR(Rd, Rn, #shift)`.
    pub fn lsr<R: GpReg>(&mut self, rd: R, rn: R, shift: u8) -> (r: Result<(), String>)
        requires
            shift < if R::sf() { 64u8 } else { 32u8 },
        ensures
            emits(*old(self).code, *final(self).code, if R::sf() { inst::lsr_x_imm(rd.num(), rn.num(), shift) } else { inst::lsr_w_imm(rd.num(), rn.num(), shift) }, r is Ok),
            r is Err ==> r->Err_0@ == full_message(),
            *final(final(self).code) == *final(old(self).code),
    {
        self.emit(if R::sf() { inst::lsr_x_imm(rd.index(), rn.index(), shift) } else { inst::lsr_w_imm(rd.index(), rn.index(), shift) })
    }

    /// `ROR(Rd, Rn, #shift)`.
    pub fn ror<R: GpReg>(&mut self, rd: R, rn: R, shift: u8) -> (r: Result<(), String>)
        requires
            shift < if R::sf() { 64u8 } else { 32u8 },
        ensures
            emits(*old(self).code, *final(self).code, if R::sf() { inst::ror_x_imm(rd.num(), rn.num(), shift) } else { inst::ror_w_imm(rd.num(), rn.num(), shift) }, r is Ok),
            r is Err ==> r->Err_0@ == full_message(),
            *final(final(self).code) == *final(old(self).code),
    {
        self.emit(if R::sf() { inst::ror_x_imm(rd.index(), rn.index(), shift) } else { inst::ror_w_imm(rd.index(), rn.index(), shift) })
    }

    /// `ADDS(Rd, Rn, #imm12, LSL #shift)` with `shift` 0 or 12.
    pub fn adds_imm_shift<R: GpReg>(&mut self, rd: R, rn: R, imm12: u32, shift: u8) -> (r: Result<(), String>)
        requires
            imm12 < 4096,
            shift == 0 || shift == 12,
        ensures
            emits(*old(self).code, *final(self).code, if R::sf() { inst::adds_x_imm_shift(rd.num(), rn.num(), imm12, shift == 12) } else { inst::adds_w_imm_shift(rd.num(), rn.num(), imm12, shift == 12) }, r is Ok),
            r is Err ==> r->Err_0@ == full_message(),
            *final(final(self).code) == *final(old(self).code),
    {
        self.emit(if R::sf() { inst::adds_x_imm_shift(rd.index(), rn.index(), imm12, arith_imm_shift12(shift)) } else { inst::adds_w_imm_shift(rd.index(), rn.index(), imm12, arith_imm_shift12(shift)) })
    }

    /// `SUBS(Rd, Rn, #imm12, LSL #shift)` with `shift` 0 or 12.
    pub fn subs_imm_shift<R: GpReg>(&mut self, rd: R, rn: R, imm12: u32, shift: u8) -> (r: Result<(), String>)
        requires
            imm12 < 4096,
            shift == 0 || shift == 12,
        ensures
            emits(*old(self).code, *final(self).code, if R::sf() { inst::subs_x_imm_shift(rd.num(), rn.num(), imm12, shift == 12) } else { inst::subs_w_imm_shift(rd.num(), rn.num(), imm12, shift == 12) }, r is Ok),
            r is Err ==> r->Err_0@ == full_message(),
            *final(final(self).code) == *final(old(self).code),
    {
        self.emit(if R::sf() { inst::subs_x_imm_shift(rd.index(), rn.index(), imm12, arith_imm_shift12(shift)) } else { inst::subs_w_imm_shift(rd.index(), rn.index(), imm12, arith_imm_shift12(shift)) })
    }

    /// `SXTB(Rd, Wn)`.
    pub fn sxtb<R: GpReg>(&mut self, rd: R, rn: WReg) -> (r: Result<(), String>)
        ensures
            emits(*old(self).code, *final(self).code, if R::sf() { inst::sxtb_x(rd.num(), rn.num()) } else { inst::sxtb_w(rd.num(), rn.num()) }, r is Ok),
            r is Err ==> r->Err_0@ == full_message(),
            *final(final(self).code) == *final(old(self).code),
    {
        self.emit(if R::sf() { inst::sxtb_x(rd.index(), rn.index()) } else { inst::sxtb_w(rd.index(), rn.index()) })
    }

    /// `SXTH(Rd, Wn)`.
    pub fn sxth<R: GpReg>(&mut self, rd: R, rn: WReg) -> (r: Result<(), String>)
        ensures
            emits(*old(self).code, *final(self).code, if R::sf() { inst::sxth_x(rd.num(), rn.num()) } else { inst::sxth_w(rd.num(), rn.num()) }, r is Ok),
            r is Err ==> r->Err_0@ == full_message(),
            *final(final(self).code) == *final(old(self).code),
    {
        self.emit(if R::sf() { inst::sxth_x(rd.index(), rn.index()) } else { inst::sxth_w(rd.index(), rn.index()) })
    }

    /// `SXTW(Xd, Wn)`.
    pub fn sxtw(&mut self, rd: XReg, rn: WReg) -> (r: Result<(), String>)
        ensures
            emits(*old(self).code, *final(self).code, inst::sxtw_x(rd.num(), rn.num()), r is Ok),
            r is Err ==> r->Err_0@ == full_message(),
            *final(final(self).code) == *final(old(self).code),
    {
        self.emit(inst::sxtw_x(rd.index(), rn.index()))
    }

    /// `UBFX(Rd, Rn, #lsb, #width)`.
    pub fn ubfx<R: GpReg>(&mut self, rd: R, rn: R, lsb: u8, width: u8) -> (r: Result<(), String>)
        requires
            1 <= width,
            lsb + width <= if R::sf() { 64u8 } else { 32u8 },
        ensures
            emits(*old(self).code, *final(self).code, if R::sf() { inst::ubfx_x(rd.num(), rn.num(), lsb, width) } else { inst::ubfx_w(rd.num(), rn.num(), lsb, width) }, r is Ok),
            r is Err ==> r->Err_0@ == full_message(),
            *final(final(self).code) == *final(old(self).code),
    {
        self.emit(if R::sf() { inst::ubfx_x(rd.index(), rn.index(), lsb, width) } else { inst::ubfx_w(rd.index(), rn.index(), lsb, width) })
    }

    /// `UBFIZ(Wd, Wn, #lsb, #width)`.
    pub fn ubfiz(&mut self, rd: WReg, rn: WReg, lsb: u8, width: u8) -> (r: Result<(), String>)
        requires
            1 <= width,
            lsb + width <= 32,
        ensures
            emits(*old(self).code, *final(self).code, inst::ubfiz_w(rd.num(), rn.num(), lsb, width), r is Ok),
            r is Err ==> r->Err_0@ == full_message(),
            *final(final(self).code) == *final(old(self).code),
    {
        self.emit(inst::ubfiz_w(rd.index(), rn.index(), lsb, width))
    }

    /// `EXTR(Rd, Rn, Rm, #lsb)`.
    pub fn extr<R: GpReg>(&mut self, rd: R, rn: R, rm: R, lsb: u8) -> (r: Result<(), String>)
        requires
            lsb < if R::sf() { 64u8 } else { 32u8 },
        ensures
            emits(*old(self).code, *final(self).code, if R::sf() { inst::extr_x(rd.num(), rn.num(), rm.num(), lsb) } else { inst::extr_w(rd.num(), rn.num(), rm.num(), lsb) }, r is Ok),
            r is Err ==> r->Err_0@ == full_message(),
            *final(final(self).code) == *final(old(self).code),
    {
        self.emit(if R::sf() { inst::extr_x(rd.index(), rn.index(), rm.index(), lsb) } else { inst::extr_w(rd.index(), rn.index(), rm.index(), lsb) })
    }

    /// `TST(Rn, Rm)`.
    pub fn tst<R: GpReg>(&mut self, rn: R, rm: R) -> (r: Result<(), String>)
        ensures
            emits(*old(self).code, *final(self).code, if R::sf() { inst::tst_x_reg(rn.num(), rm.num()) } else { inst::tst_w_reg(rn.num(), rm.num()) }, r is Ok),
            r is Err ==> r->Err_0@ == full_message(),
            *final(final(self).code) == *final(old(self).code),
    {
        self.emit(if R::sf() { inst::tst_x_reg(rn.index(), rm.index()) } else { inst::tst_w_reg(rn.index(), rm.index()) })
    }

    /// `SMULH(Xd, Xn, Xm)`.
    pub fn smulh(&mut self, rd: XReg, rn: XReg, rm: XReg) -> (r: Result<(), String>)
        ensures
            emits(*old(self).code, *final(self).code, inst::smulh_x(rd.num(), rn.num(), rm.num()), r is Ok),
            r is Err ==> r->Err_0@ == full_message(),
            *final(final(self).code) == *final(old(self).code),
    {
        self.emit(inst::smulh_x(rd.index(), rn.index(), rm.index()))
    }

    /// `UMULH(Xd, Xn, Xm)`.
    pub fn umulh(&mut self, rd: XReg, rn: XReg, rm: XReg) -> (r: Result<(), String>)
        ensures
            emits(*old(self).code, *final(self).code, inst::umulh_x(rd.num(), rn.num(), rm.num()), r is Ok),
            r is Err ==> r->Err_0@ == full_message(),
            *final(final(self).code) == *final(old(self).code),
    {
        self.emit(inst::umulh_x(rd.index(), rn.index(), rm.index()))
    }

    /// `REV16(Wd, Wn)`.
    pub fn rev16(&mut self, rd: WReg, rn: WReg) -> (r: Result<(), String>)
        ensures
            emits(*old(self).code, *final(self).code, inst::rev16_w(rd.num(), rn.num()), r is Ok),
            r is Err ==> r->Err_0@ == full_message(),
            *final(final(self).code) == *final(old(self).code),
    {
        self.emit(inst::rev16_w(rd.index(), rn.index()))
    }

    /// `NEG(Wd, Wn)`.
    pub fn neg(&mut self, rd: WReg, rn: WReg) -> (r: Result<(), String>)
        ensures
            emits(*old(self).code, *final(self).code, inst::neg_w(rd.num(), rn.num()), r is Ok),
            r is Err ==> r->Err_0@ == full_message(),
            *final(final(self).code) == *final(old(self).code),
    {
        self.emit(inst::neg_w(rd.index(), rn.index()))
    }

    /// `ORR(Wd, Wn, Wm, LSL #shift)`.
    pub fn orr_lsl(&mut self, rd: WReg, rn: WReg, rm: WReg, shift: u8) -> (r: Result<(), String>)
        requires
            shift < 32,
        ensures
            emits(*old(self).code, *final(self).code, inst::orr_w_reg_lsl(rd.num(), rn.num(), rm.num(), shift), r is Ok),
            r is Err ==> r->Err_0@ == full_message(),
            *final(final(self).code) == *final(old(self).code),
    {
        self.emit(inst::orr_w_reg_lsl(rd.index(), rn.index(), rm.index(), shift))
    }

    /// `ORR(Wd, Wn, Wm, LSR #shift)`.
    pub fn orr_lsr(&mut self, rd: WReg, rn: WReg, rm: WReg, shift: u8) -> (r: Result<(), String>)
        requires
            shift < 32,
        ensures
            emits(*old(self).code, *final(self).code, inst::orr_w_reg_lsr(rd.num(), rn.num(), rm.num(), shift), r is Ok),
            r is Err ==> r->Err_0@ == full_message(),
            *final(final(self).code) == *final(old(self).code),
    {
        self.emit(inst::orr_w_reg_lsr(rd.index(), rn.index(), rm.index(), shift))
    }

    /// `BFXIL(Rd, Rn, #lsb, #width)`.
    pub fn bfxil<R: GpReg>(&mut self, rd: R, rn: R, lsb: u8, width: u8) -> (r: Result<(), String>)
        requires
            1 <= width,
            lsb + width <= if R::sf() { 64u8 } else { 32u8 },
        ensures
            emits(*old(self).code, *final(self).code, if R::sf() { inst::bfxil_x(rd.num(), rn.num(), lsb, width) } else { inst::bfxil_w(rd.num(), rn.num(), lsb, width) }, r is Ok),
            r is Err ==> r->Err_0@ == full_message(),
            *final(final(self).code) == *final(old(self).code),
    {
        self.emit(if R::sf() { inst::bfxil_x(rd.index(), rn.index(), lsb, width) } else { inst::bfxil_w(rd.index(), rn.index(), lsb, width) })
    }

    /// `SBFM(Rd, Rn, #immr, #imms)`.
    pub fn sbfm<R: GpReg>(&mut self, rd: R, rn: R, immr: u8, imms: u8) -> (r: Result<(), String>)
        requires
            immr < if R::sf() { 64u8 } else { 32u8 },
            imms < if R::sf() { 64u8 } else { 32u8 },
        ensures
            emits(*old(self).code, *final(self).code, if R::sf() { inst::sbfm_x(rd.num(), rn.num(), immr, imms) } else { inst::sbfm_w(rd.num(), rn.num(), immr, imms) }, r is Ok),
            r is Err ==> r->Err_0@ == full_message(),
            *final(final(self).code) == *final(old(self).code),
    {
        self.emit(if R::sf() { inst::sbfm_x(rd.index(), rn.index(), immr, imms) } else { inst::sbfm_w(rd.index(), rn.index(), immr, imms) })
    }

    /// `ANDS(Wd, Wn, #imm)` with a logical immediate.
    pub fn ands_imm(&mut self, rd: WReg, rn: WReg, imm: u32) -> (r: Result<(), String>)
        requires
            inst::bit_mask_encodable(imm as u64, 32),
        ensures
            emits(*old(self).code, *final(self).code, inst::ands_w_imm(rd.num(), rn.num(), imm), r is Ok),
            r is Err ==> r->Err_0@ == full_message(),
            *final(final(self).code) == *final(old(self).code),
    {
        self.emit(inst::ands_w_imm(rd.index(), rn.index(), imm))
    }

    /// `ORR(Wd, Wn, #imm)` with a logical immediate.
    pub fn orr_imm(&mut self, rd: WReg, rn: WReg, imm: u32) -> (r: Result<(), String>)
        requires
            inst::bit_mask_encodable(imm as u64, 32),
        ensures
            emits(*old(self).code, *final(self).code, inst::orr_w_imm(rd.num(), rn.num(), imm), r is Ok),
            r is Err ==> r->Err_0@ == full_message(),
            *final(final(self).code) == *final(old(self).code),
    {
        self.emit(inst::orr_w_imm(rd.index(), rn.index(), imm))
    }
}

} // verus!
