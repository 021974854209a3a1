//! Memory operand forms: acquire/release accesses, unscaled offsets and
//! register offsets. A register offset is never scaled: an `X` offset
//! register selects `LSL #0`, a `W` one `UXTW #0`.

use super::CodeGenerator;
use crate::block_of_code::{emits, full_message};
use crate::inst;
use crate::reg::{BaseReg, GpReg, QReg, Register, WReg, XReg};
use vstd::prelude::*;

verus! {

impl<'a> CodeGenerator<'a> {
    /// `LDARB(Wt, [Xn|SP])`.
    pub fn ldarb<B: BaseReg>(&mut self, rt: WReg, rn: B) -> (r: Result<(), String>)
        ensures
            emits(*old(self).code, *final(self).code, inst::ldarb_w(rt.num(), rn.num()), r is Ok),
            r is Err ==> r->Err_0@ == full_message(),
            *final(final(self).code) == *final(old(self).code),
    {
        self.emit(inst::ldarb_w(rt.index(), rn.index()))
    }

    /// `LDARH(Wt, [Xn|SP])`.
    pub fn ldarh<B: BaseReg>(&mut self, rt: WReg, rn: B) -> (r: Result<(), String>)
        ensures
            emits(*old(self).code, *final(self).code, inst::ldarh_w(rt.num(), rn.num()), r is Ok),
            r is Err ==> r->Err_0@ == full_message(),
            *final(final(self).code) == *final(old(self).code),
    {
        self.emit(inst::ldarh_w(rt.index(), rn.index()))
    }

    /// `STLRB(Wt, [Xn|SP])`.
    pub fn stlrb<B: BaseReg>(&mut self, rt: WReg, rn: B) -> (r: Result<(), String>)
        ensures
            emits(*old(self).code, *final(self).code, inst::stlrb_w(rt.num(), rn.num()), r is Ok),
            r is Err ==> r->Err_0@ == full_message(),
            *final(final(self).code) == *final(old(self).code),
    {
        self.emit(inst::stlrb_w(rt.index(), rn.index()))
    }

    /// `STLRH(Wt, [Xn|SP])`.
    pub fn stlrh<B: BaseReg>(&mut self, rt: WReg, rn: B) -> (r: Result<(), String>)
        ensures
            emits(*old(self).code, *final(self).code, inst::stlrh_w(rt.num(), rn.num()), r is Ok),
            r is Err ==> r->Err_0@ == full_message(),
            *final(final(self).code) == *final(old(self).code),
    {
        self.emit(inst::stlrh_w(rt.index(), rn.index()))
    }

    /// `STLR(Rt, [Xn|SP])`: release store, with width selected by Rt.
    pub fn stlr<R: GpReg, B: BaseReg>(&mut self, rt: R, rn: B) -> (r: Result<(), String>)
        ensures
            emits(*old(self).code, *final(self).code, if R::sf() { inst::stlr_x(rt.num(), rn.num()) } else { inst::stlr_w(rt.num(), rn.num()) }, r is Ok),
            r is Err ==> r->Err_0@ == full_message(),
            *final(final(self).code) == *final(old(self).code),
    {
        self.emit(if R::sf() { inst::stlr_x(rt.index(), rn.index()) } else { inst::stlr_w(rt.index(), rn.index()) })
    }

    /// `ADD(Xd|SP, Xn|SP, Wm, UXTW #0)`.
    pub fn add_uxtw<D: BaseReg, N: BaseReg>(&mut self, rd: D, rn: N, rm: WReg) -> (r: Result<(), String>)
        ensures
            emits(*old(self).code, *final(self).code, inst::add_x_reg_uxtw(rd.num(), rn.num(), rm.num()), r is Ok),
            r is Err ==> r->Err_0@ == full_message(),
            *final(final(self).code) == *final(old(self).code),
    {
        self.emit(inst::add_x_reg_uxtw(rd.index(), rn.index(), rm.index()))
    }

    /// `LDUR(Xt, [Xn|SP, #simm9])`, including unaligned byte offsets.
    pub fn ldur<B: BaseReg>(&mut self, rt: XReg, rn: B, imm_bytes: i32) -> (r: Result<(), String>)
        requires
            -256 <= imm_bytes <= 255,
        ensures
            emits(*old(self).code, *final(self).code, inst::ldur_x(rt.num(), rn.num(), imm_bytes), r is Ok),
            r is Err ==> r->Err_0@ == full_message(),
            *final(final(self).code) == *final(old(self).code),
    {
        self.emit(inst::ldur_x(rt.index(), rn.index(), imm_bytes))
    }

    /// `STUR(Xt, [Xn|SP, #simm9])`, including unaligned byte offsets.
    pub fn stur<B: BaseReg>(&mut self, rt: XReg, rn: B, imm_bytes: i32) -> (r: Result<(), String>)
        requires
            -256 <= imm_bytes <= 255,
        ensures
            emits(*old(self).code, *final(self).code, inst::stur_x(rt.num(), rn.num(), imm_bytes), r is Ok),
            r is Err ==> r->Err_0@ == full_message(),
            *final(final(self).code) == *final(old(self).code),
    {
        self.emit(inst::stur_x(rt.index(), rn.index(), imm_bytes))
    }

    /// `LDR(Rt, [Xn|SP, Rm, LSL|UXTW #0])`.
    pub fn ldr_reg<R: GpReg, B: BaseReg, O: GpReg>(&mut self, rt: R, rn: B, rm: O) -> (r: Result<(), String>)
        ensures
            emits(*old(self).code, *final(self).code, if R::sf() { if O::sf() { inst::ldr_x_reg_lsl(rt.num(), rn.num(), rm.num()) } else { inst::ldr_x_reg_uxtw(rt.num(), rn.num(), rm.num()) } } else { if O::sf() { inst::ldr_w_reg_lsl(rt.num(), rn.num(), rm.num()) } else { inst::ldr_w_reg_uxtw(rt.num(), rn.num(), rm.num()) } }, r is Ok),
            r is Err ==> r->Err_0@ == full_message(),
            *final(final(self).code) == *final(old(self).code),
    {
        self.emit(if R::sf() { if O::sf() { inst::ldr_x_reg_lsl(rt.index(), rn.index(), rm.index()) } else { inst::ldr_x_reg_uxtw(rt.index(), rn.index(), rm.index()) } } else { if O::sf() { inst::ldr_w_reg_lsl(rt.index(), rn.index(), rm.index()) } else { inst::ldr_w_reg_uxtw(rt.index(), rn.index(), rm.index()) } })
    }

    /// `STR(Rt, [Xn|SP, Rm, LSL|UXTW #0])`.
    pub fn str_reg<R: GpReg, B: BaseReg, O: GpReg>(&mut self, rt: R, rn: B, rm: O) -> (r: Result<(), String>)
        ensures
            emits(*old(self).code, *final(self).code, if R::sf() { if O::sf() { inst::str_x_reg_lsl(rt.num(), rn.num(), rm.num()) } else { inst::str_x_reg_uxtw(rt.num(), rn.num(), rm.num()) } } else { if O::sf() { inst::str_w_reg_lsl(rt.num(), rn.num(), rm.num()) } else { inst::str_w_reg_uxtw(rt.num(), rn.num(), rm.num()) } }, r is Ok),
            r is Err ==> r->Err_0@ == full_message(),
            *final(final(self).code) == *final(old(self).code),
    {
        self.emit(if R::sf() { if O::sf() { inst::str_x_reg_lsl(rt.index(), rn.index(), rm.index()) } else { inst::str_x_reg_uxtw(rt.index(), rn.index(), rm.index()) } } else { if O::sf() { inst::str_w_reg_lsl(rt.index(), rn.index(), rm.index()) } else { inst::str_w_reg_uxtw(rt.index(), rn.index(), rm.index()) } })
    }

    /// `LDR(Qt, [Xn|SP, Rm, LSL|UXTW #0])`.
    pub fn ldr_q_reg<B: BaseReg, O: GpReg>(&mut self, rt: QReg, rn: B, rm: O) -> (r: Result<(), String>)
        ensures
            emits(*old(self).code, *final(self).code, if O::sf() { inst::ldr_q_reg_lsl(rt.num(), rn.num(), rm.num()) } else { inst::ldr_q_reg_uxtw(rt.num(), rn.num(), rm.num()) }, r is Ok),
            r is Err ==> r->Err_0@ == full_message(),
            *final(final(self).code) == *final(old(self).code),
    {
        self.emit(if O::sf() { inst::ldr_q_reg_lsl(rt.index(), rn.index(), rm.index()) } else { inst::ldr_q_reg_uxtw(rt.index(), rn.index(), rm.index()) })
    }

    /// `STR(Qt, [Xn|SP, Rm, LSL|UXTW #0])`.
    pub fn str_q_reg<B: BaseReg, O: GpReg>(&mut self, rt: QReg, rn: B, rm: O) -> (r: Result<(), String>)
        ensures
            emits(*old(self).code, *final(self).code, if O::sf() { inst::str_q_reg_lsl(rt.num(), rn.num(), rm.num()) } else { inst::str_q_reg_uxtw(rt.num(), rn.num(), rm.num()) }, r is Ok),
            r is Err ==> r->Err_0@ == full_message(),
            *final(final(self).code) == *final(old(self).code),
    {
        self.emit(if O::sf() { inst::str_q_reg_lsl(rt.index(), rn.index(), rm.index()) } else { inst::str_q_reg_uxtw(rt.index(), rn.index(), rm.index()) })
    }

    /// `LDRB(Wt, [Xn|SP, Rm, LSL|UXTW #0])`.
    pub fn ldrb_reg<B: BaseReg, O: GpReg>(&mut self, rt: WReg, rn: B, rm: O) -> (r: Result<(), String>)
        ensures
            emits(*old(self).code, *final(self).code, if O::sf() { inst::ldrb_w_reg_lsl(rt.num(), rn.num(), rm.num()) } else { inst::ldrb_w_reg_uxtw(rt.num(), rn.num(), rm.num()) }, r is Ok),
            r is Err ==> r->Err_0@ == full_message(),
            *final(final(self).code) == *final(old(self).code),
    {
        self.emit(if O::sf() { inst::ldrb_w_reg_lsl(rt.index(), rn.index(), rm.index()) } else { inst::ldrb_w_reg_uxtw(rt.index(), rn.index(), rm.index()) })
    }

    /// `LDRH(Wt, [Xn|SP, Rm, LSL|UXTW #0])`.
    pub fn ldrh_reg<B: BaseReg, O: GpReg>(&mut self, rt: WReg, rn: B, rm: O) -> (r: Result<(), String>)
        ensures
            emits(*old(self).code, *final(self).code, if O::sf() { inst::ldrh_w_reg_lsl(rt.num(), rn.num(), rm.num()) } else { inst::ldrh_w_reg_uxtw(rt.num(), rn.num(), rm.num()) }, r is Ok),
            r is Err ==> r->Err_0@ == full_message(),
            *final(final(self).code) == *final(old(self).code),
    {
        self.emit(if O::sf() { inst::ldrh_w_reg_lsl(rt.index(), rn.index(), rm.index()) } else { inst::ldrh_w_reg_uxtw(rt.index(), rn.index(), rm.index()) })
    }

    /// `STRB(Wt, [Xn|SP, Rm, LSL|UXTW #0])`.
    pub fn strb_reg<B: BaseReg, O: GpReg>(&mut self, rt: WReg, rn: B, rm: O) -> (r: Result<(), String>)
        ensures
            emits(*old(self).code, *final(self).code, if O::sf() { inst::strb_w_reg_lsl(rt.num(), rn.num(), rm.num()) } else { inst::strb_w_reg_uxtw(rt.num(), rn.num(), rm.num()) }, r is Ok),
            r is Err ==> r->Err_0@ == full_message(),
            *final(final(self).code) == *final(old(self).code),
    {
        self.emit(if O::sf() { inst::strb_w_reg_lsl(rt.index(), rn.index(), rm.index()) } else { inst::strb_w_reg_uxtw(rt.index(), rn.index(), rm.index()) })
    }

    /// `STRH(Wt, [Xn|SP, Rm, LSL|UXTW #0])`.
    pub fn strh_reg<B: BaseReg, O: GpReg>(&mut self, rt: WReg, rn: B, rm: O) -> (r: Result<(), String>)
        ensures
            emits(*old(self).code, *final(self).code, if O::sf() { inst::strh_w_reg_lsl(rt.num(), rn.num(), rm.num()) } else { inst::strh_w_reg_uxtw(rt.num(), rn.num(), rm.num()) }, r is Ok),
            r is Err ==> r->Err_0@ == full_message(),
            *final(final(self).code) == *final(old(self).code),
    {
        self.emit(if O::sf() { inst::strh_w_reg_lsl(rt.index(), rn.index(), rm.index()) } else { inst::strh_w_reg_uxtw(rt.index(), rn.index(), rm.index()) })
    }
}

} // verus!
