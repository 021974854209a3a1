//! Integer SIMD mnemonics over arranged vector registers.

use super::CodeGenerator;
use crate::block_of_code::{emits, full_message};
use crate::inst;
use crate::reg::{
    DReg, FpReg, GpReg, NarrowingSource, QReg, Register, VReg, VReg16B, VReg1D, VReg2D, VReg4S,
    VReg8B, VReg8H, VRegArranged, VRegBytes, WideningSource,
};
use vstd::prelude::*;

verus! {

impl<'a> CodeGenerator<'a> {
    /// `MOVI(Dd, #imm)`: each bit of `encoded` expands to an all-ones or all-zeros byte.
    pub fn movi_rep(&mut self, rd: DReg, encoded: u8) -> (r: Result<(), String>)
        ensures
            emits(*old(self).code, *final(self).code, inst::movi_d_rep_imm(rd.num(), encoded), r is Ok),
            r is Err ==> r->Err_0@ == full_message(),
            *final(final(self).code) == *final(old(self).code),
    {
        self.emit(inst::movi_d_rep_imm(rd.index(), encoded))
    }

    /// `TRN2(Vd.T, Vn.T, Vm.T)` with matching vector arrangements.
    pub fn trn2_v<V: VRegArranged>(&mut self, rd: V, rn: V, rm: V) -> (r: Result<(), String>)
        requires
            inst::arrangement(V::size(), V::q()),
        ensures
            emits(*old(self).code, *final(self).code, inst::trn2_v(rd.num(), rn.num(), rm.num(), V::size(), V::q()), r is Ok),
            r is Err ==> r->Err_0@ == full_message(),
            *final(final(self).code) == *final(old(self).code),
    {
        self.emit(inst::trn2_v(rd.index(), rn.index(), rm.index(), V::size(), V::q()))
    }

    /// `TRN1(Vd.T, Vn.T, Vm.T)` with matching vector arrangements.
    pub fn trn1_v<V: VRegArranged>(&mut self, rd: V, rn: V, rm: V) -> (r: Result<(), String>)
        requires
            inst::arrangement(V::size(), V::q()),
        ensures
            emits(*old(self).code, *final(self).code, inst::trn1_v(rd.num(), rn.num(), rm.num(), V::size(), V::q()), r is Ok),
            r is Err ==> r->Err_0@ == full_message(),
            *final(final(self).code) == *final(old(self).code),
    {
        self.emit(inst::trn1_v(rd.index(), rn.index(), rm.index(), V::size(), V::q()))
    }

    /// `CMGE(Vd.T, Vn.T, Vm.T)` with matching vector arrangements.
    pub fn cmge_v<V: VRegArranged>(&mut self, rd: V, rn: V, rm: V) -> (r: Result<(), String>)
        requires
            inst::arrangement(V::size(), V::q()),
        ensures
            emits(*old(self).code, *final(self).code, inst::cmge_v(rd.num(), rn.num(), rm.num(), V::size(), V::q()), r is Ok),
            r is Err ==> r->Err_0@ == full_message(),
            *final(final(self).code) == *final(old(self).code),
    {
        self.emit(inst::cmge_v(rd.index(), rn.index(), rm.index(), V::size(), V::q()))
    }

    /// `MUL(Vd.T, Vn.T, Vm.T)` with matching vector arrangements.
    pub fn mul_v<V: VRegArranged>(&mut self, rd: V, rn: V, rm: V) -> (r: Result<(), String>)
        requires
            inst::arrangement(V::size(), V::q()),
            V::size() != 64,
        ensures
            emits(*old(self).code, *final(self).code, inst::mul_v(rd.num(), rn.num(), rm.num(), V::size(), V::q()), r is Ok),
            r is Err ==> r->Err_0@ == full_message(),
            *final(final(self).code) == *final(old(self).code),
    {
        self.emit(inst::mul_v(rd.index(), rn.index(), rm.index(), V::size(), V::q()))
    }

    /// `CMEQ(Vd.T, Vn.T, Vm.T)` with matching vector arrangements.
    pub fn cmeq_v<V: VRegArranged>(&mut self, rd: V, rn: V, rm: V) -> (r: Result<(), String>)
        requires
            inst::arrangement(V::size(), V::q()),
        ensures
            emits(*old(self).code, *final(self).code, inst::cmeq_v(rd.num(), rn.num(), rm.num(), V::size(), V::q()), r is Ok),
            r is Err ==> r->Err_0@ == full_message(),
            *final(final(self).code) == *final(old(self).code),
    {
        self.emit(inst::cmeq_v(rd.index(), rn.index(), rm.index(), V::size(), V::q()))
    }

    /// `CMGT(Vd.T, Vn.T, Vm.T)` with matching vector arrangements.
    pub fn cmgt_v<V: VRegArranged>(&mut self, rd: V, rn: V, rm: V) -> (r: Result<(), String>)
        requires
            inst::arrangement(V::size(), V::q()),
        ensures
            emits(*old(self).code, *final(self).code, inst::cmgt_v(rd.num(), rn.num(), rm.num(), V::size(), V::q()), r is Ok),
            r is Err ==> r->Err_0@ == full_message(),
            *final(final(self).code) == *final(old(self).code),
    {
        self.emit(inst::cmgt_v(rd.index(), rn.index(), rm.index(), V::size(), V::q()))
    }

    /// `SMAX(Vd.T, Vn.T, Vm.T)` with matching vector arrangements.
    pub fn smax_v<V: VRegArranged>(&mut self, rd: V, rn: V, rm: V) -> (r: Result<(), String>)
        requires
            inst::arrangement(V::size(), V::q()),
            V::size() != 64,
        ensures
            emits(*old(self).code, *final(self).code, inst::smax_v(rd.num(), rn.num(), rm.num(), V::size(), V::q()), r is Ok),
            r is Err ==> r->Err_0@ == full_message(),
            *final(final(self).code) == *final(old(self).code),
    {
        self.emit(inst::smax_v(rd.index(), rn.index(), rm.index(), V::size(), V::q()))
    }

    /// `UMAX(Vd.T, Vn.T, Vm.T)` with matching vector arrangements.
    pub fn umax_v<V: VRegArranged>(&mut self, rd: V, rn: V, rm: V) -> (r: Result<(), String>)
        requires
            inst::arrangement(V::size(), V::q()),
            V::size() != 64,
        ensures
            emits(*old(self).code, *final(self).code, inst::umax_v(rd.num(), rn.num(), rm.num(), V::size(), V::q()), r is Ok),
            r is Err ==> r->Err_0@ == full_message(),
            *final(final(self).code) == *final(old(self).code),
    {
        self.emit(inst::umax_v(rd.index(), rn.index(), rm.index(), V::size(), V::q()))
    }

    /// `SMIN(Vd.T, Vn.T, Vm.T)` with matching vector arrangements.
    pub fn smin_v<V: VRegArranged>(&mut self, rd: V, rn: V, rm: V) -> (r: Result<(), String>)
        requires
            inst::arrangement(V::size(), V::q()),
            V::size() != 64,
        ensures
            emits(*old(self).code, *final(self).code, inst::smin_v(rd.num(), rn.num(), rm.num(), V::size(), V::q()), r is Ok),
            r is Err ==> r->Err_0@ == full_message(),
            *final(final(self).code) == *final(old(self).code),
    {
        self.emit(inst::smin_v(rd.index(), rn.index(), rm.index(), V::size(), V::q()))
    }

    /// `UMIN(Vd.T, Vn.T, Vm.T)` with matching vector arrangements.
    pub fn umin_v<V: VRegArranged>(&mut self, rd: V, rn: V, rm: V) -> (r: Result<(), String>)
        requires
            inst::arrangement(V::size(), V::q()),
            V::size() != 64,
        ensures
            emits(*old(self).code, *final(self).code, inst::umin_v(rd.num(), rn.num(), rm.num(), V::size(), V::q()), r is Ok),
            r is Err ==> r->Err_0@ == full_message(),
            *final(final(self).code) == *final(old(self).code),
    {
        self.emit(inst::umin_v(rd.index(), rn.index(), rm.index(), V::size(), V::q()))
    }

    /// `ADDP(Vd.T, Vn.T, Vm.T)` with matching vector arrangements.
    pub fn addp_v<V: VRegArranged>(&mut self, rd: V, rn: V, rm: V) -> (r: Result<(), String>)
        requires
            inst::arrangement(V::size(), V::q()),
        ensures
            emits(*old(self).code, *final(self).code, inst::addp_v(rd.num(), rn.num(), rm.num(), V::size(), V::q()), r is Ok),
            r is Err ==> r->Err_0@ == full_message(),
            *final(final(self).code) == *final(old(self).code),
    {
        self.emit(inst::addp_v(rd.index(), rn.index(), rm.index(), V::size(), V::q()))
    }

    /// `SMAXP(Vd.T, Vn.T, Vm.T)` with matching vector arrangements.
    pub fn smaxp_v<V: VRegArranged>(&mut self, rd: V, rn: V, rm: V) -> (r: Result<(), String>)
        requires
            inst::arrangement(V::size(), V::q()),
            V::size() != 64,
        ensures
            emits(*old(self).code, *final(self).code, inst::smaxp_v(rd.num(), rn.num(), rm.num(), V::size(), V::q()), r is Ok),
            r is Err ==> r->Err_0@ == full_message(),
            *final(final(self).code) == *final(old(self).code),
    {
        self.emit(inst::smaxp_v(rd.index(), rn.index(), rm.index(), V::size(), V::q()))
    }

    /// `UMAXP(Vd.T, Vn.T, Vm.T)` with matching vector arrangements.
    pub fn umaxp_v<V: VRegArranged>(&mut self, rd: V, rn: V, rm: V) -> (r: Result<(), String>)
        requires
            inst::arrangement(V::size(), V::q()),
            V::size() != 64,
        ensures
            emits(*old(self).code, *final(self).code, inst::umaxp_v(rd.num(), rn.num(), rm.num(), V::size(), V::q()), r is Ok),
            r is Err ==> r->Err_0@ == full_message(),
            *final(final(self).code) == *final(old(self).code),
    {
        self.emit(inst::umaxp_v(rd.index(), rn.index(), rm.index(), V::size(), V::q()))
    }

    /// `SMINP(Vd.T, Vn.T, Vm.T)` with matching vector arrangements.
    pub fn sminp_v<V: VRegArranged>(&mut self, rd: V, rn: V, rm: V) -> (r: Result<(), String>)
        requires
            inst::arrangement(V::size(), V::q()),
            V::size() != 64,
        ensures
            emits(*old(self).code, *final(self).code, inst::sminp_v(rd.num(), rn.num(), rm.num(), V::size(), V::q()), r is Ok),
            r is Err ==> r->Err_0@ == full_message(),
            *final(final(self).code) == *final(old(self).code),
    {
        self.emit(inst::sminp_v(rd.index(), rn.index(), rm.index(), V::size(), V::q()))
    }

    /// `UMINP(Vd.T, Vn.T, Vm.T)` with matching vector arrangements.
    pub fn uminp_v<V: VRegArranged>(&mut self, rd: V, rn: V, rm: V) -> (r: Result<(), String>)
        requires
            inst::arrangement(V::size(), V::q()),
            V::size() != 64,
        ensures
            emits(*old(self).code, *final(self).code, inst::uminp_v(rd.num(), rn.num(), rm.num(), V::size(), V::q()), r is Ok),
            r is Err ==> r->Err_0@ == full_message(),
            *final(final(self).code) == *final(old(self).code),
    {
        self.emit(inst::uminp_v(rd.index(), rn.index(), rm.index(), V::size(), V::q()))
    }

    /// `PMUL(Vd.T, Vn.T, Vm.T)` with matching vector arrangements.
    pub fn pmul_v<V: VRegArranged>(&mut self, rd: V, rn: V, rm: V) -> (r: Result<(), String>)
        requires
            inst::arrangement(V::size(), V::q()),
            V::size() == 8,
        ensures
            emits(*old(self).code, *final(self).code, inst::pmul_v(rd.num(), rn.num(), rm.num(), V::size(), V::q()), r is Ok),
            r is Err ==> r->Err_0@ == full_message(),
            *final(final(self).code) == *final(old(self).code),
    {
        self.emit(inst::pmul_v(rd.index(), rn.index(), rm.index(), V::size(), V::q()))
    }

    /// `SSHL(Vd.T, Vn.T, Vm.T)` with matching vector arrangements.
    pub fn sshl_v<V: VRegArranged>(&mut self, rd: V, rn: V, rm: V) -> (r: Result<(), String>)
        requires
            inst::arrangement(V::size(), V::q()),
        ensures
            emits(*old(self).code, *final(self).code, inst::sshl_v(rd.num(), rn.num(), rm.num(), V::size(), V::q()), r is Ok),
            r is Err ==> r->Err_0@ == full_message(),
            *final(final(self).code) == *final(old(self).code),
    {
        self.emit(inst::sshl_v(rd.index(), rn.index(), rm.index(), V::size(), V::q()))
    }

    /// `USHL(Vd.T, Vn.T, Vm.T)` with matching vector arrangements.
    pub fn ushl_v<V: VRegArranged>(&mut self, rd: V, rn: V, rm: V) -> (r: Result<(), String>)
        requires
            inst::arrangement(V::size(), V::q()),
        ensures
            emits(*old(self).code, *final(self).code, inst::ushl_v(rd.num(), rn.num(), rm.num(), V::size(), V::q()), r is Ok),
            r is Err ==> r->Err_0@ == full_message(),
            *final(final(self).code) == *final(old(self).code),
    {
        self.emit(inst::ushl_v(rd.index(), rn.index(), rm.index(), V::size(), V::q()))
    }

    /// `SRSHL(Vd.T, Vn.T, Vm.T)` with matching vector arrangements.
    pub fn srshl_v<V: VRegArranged>(&mut self, rd: V, rn: V, rm: V) -> (r: Result<(), String>)
        requires
            inst::arrangement(V::size(), V::q()),
        ensures
            emits(*old(self).code, *final(self).code, inst::srshl_v(rd.num(), rn.num(), rm.num(), V::size(), V::q()), r is Ok),
            r is Err ==> r->Err_0@ == full_message(),
            *final(final(self).code) == *final(old(self).code),
    {
        self.emit(inst::srshl_v(rd.index(), rn.index(), rm.index(), V::size(), V::q()))
    }

    /// `URSHL(Vd.T, Vn.T, Vm.T)` with matching vector arrangements.
    pub fn urshl_v<V: VRegArranged>(&mut self, rd: V, rn: V, rm: V) -> (r: Result<(), String>)
        requires
            inst::arrangement(V::size(), V::q()),
        ensures
            emits(*old(self).code, *final(self).code, inst::urshl_v(rd.num(), rn.num(), rm.num(), V::size(), V::q()), r is Ok),
            r is Err ==> r->Err_0@ == full_message(),
            *final(final(self).code) == *final(old(self).code),
    {
        self.emit(inst::urshl_v(rd.index(), rn.index(), rm.index(), V::size(), V::q()))
    }

    /// `SABD(Vd.T, Vn.T, Vm.T)` with matching vector arrangements.
    pub fn sabd_v<V: VRegArranged>(&mut self, rd: V, rn: V, rm: V) -> (r: Result<(), String>)
        requires
            inst::arrangement(V::size(), V::q()),
            V::size() != 64,
        ensures
            emits(*old(self).code, *final(self).code, inst::sabd_v(rd.num(), rn.num(), rm.num(), V::size(), V::q()), r is Ok),
            r is Err ==> r->Err_0@ == full_message(),
            *final(final(self).code) == *final(old(self).code),
    {
        self.emit(inst::sabd_v(rd.index(), rn.index(), rm.index(), V::size(), V::q()))
    }

    /// `SRHADD(Vd.T, Vn.T, Vm.T)` with matching vector arrangements.
    pub fn srhadd_v<V: VRegArranged>(&mut self, rd: V, rn: V, rm: V) -> (r: Result<(), String>)
        requires
            inst::arrangement(V::size(), V::q()),
            V::size() != 64,
        ensures
            emits(*old(self).code, *final(self).code, inst::srhadd_v(rd.num(), rn.num(), rm.num(), V::size(), V::q()), r is Ok),
            r is Err ==> r->Err_0@ == full_message(),
            *final(final(self).code) == *final(old(self).code),
    {
        self.emit(inst::srhadd_v(rd.index(), rn.index(), rm.index(), V::size(), V::q()))
    }

    /// `URHADD(Vd.T, Vn.T, Vm.T)` with matching vector arrangements.
    pub fn urhadd_v<V: VRegArranged>(&mut self, rd: V, rn: V, rm: V) -> (r: Result<(), String>)
        requires
            inst::arrangement(V::size(), V::q()),
            V::size() != 64,
        ensures
            emits(*old(self).code, *final(self).code, inst::urhadd_v(rd.num(), rn.num(), rm.num(), V::size(), V::q()), r is Ok),
            r is Err ==> r->Err_0@ == full_message(),
            *final(final(self).code) == *final(old(self).code),
    {
        self.emit(inst::urhadd_v(rd.index(), rn.index(), rm.index(), V::size(), V::q()))
    }

    /// `SQDMULH(Vd.T, Vn.T, Vm.T)` with matching vector arrangements.
    pub fn sqdmulh_v<V: VRegArranged>(&mut self, rd: V, rn: V, rm: V) -> (r: Result<(), String>)
        requires
            V::size() == 16 || V::size() == 32,
        ensures
            emits(*old(self).code, *final(self).code, inst::sqdmulh_v(rd.num(), rn.num(), rm.num(), V::size(), V::q()), r is Ok),
            r is Err ==> r->Err_0@ == full_message(),
            *final(final(self).code) == *final(old(self).code),
    {
        self.emit(inst::sqdmulh_v(rd.index(), rn.index(), rm.index(), V::size(), V::q()))
    }

    /// `SQRDMULH(Vd.T, Vn.T, Vm.T)` with matching vector arrangements.
    pub fn sqrdmulh_v<V: VRegArranged>(&mut self, rd: V, rn: V, rm: V) -> (r: Result<(), String>)
        requires
            V::size() == 16 || V::size() == 32,
        ensures
            emits(*old(self).code, *final(self).code, inst::sqrdmulh_v(rd.num(), rn.num(), rm.num(), V::size(), V::q()), r is Ok),
            r is Err ==> r->Err_0@ == full_message(),
            *final(final(self).code) == *final(old(self).code),
    {
        self.emit(inst::sqrdmulh_v(rd.index(), rn.index(), rm.index(), V::size(), V::q()))
    }

    /// `SQSHL(Vd.T, Vn.T, Vm.T)` with matching vector arrangements.
    pub fn sqshl_v<V: VRegArranged>(&mut self, rd: V, rn: V, rm: V) -> (r: Result<(), String>)
        requires
            inst::arrangement(V::size(), V::q()),
        ensures
            emits(*old(self).code, *final(self).code, inst::sqshl_v(rd.num(), rn.num(), rm.num(), V::size(), V::q()), r is Ok),
            r is Err ==> r->Err_0@ == full_message(),
            *final(final(self).code) == *final(old(self).code),
    {
        self.emit(inst::sqshl_v(rd.index(), rn.index(), rm.index(), V::size(), V::q()))
    }

    /// `UQSHL(Vd.T, Vn.T, Vm.T)` with matching vector arrangements.
    pub fn uqshl_v<V: VRegArranged>(&mut self, rd: V, rn: V, rm: V) -> (r: Result<(), String>)
        requires
            inst::arrangement(V::size(), V::q()),
        ensures
            emits(*old(self).code, *final(self).code, inst::uqshl_v(rd.num(), rn.num(), rm.num(), V::size(), V::q()), r is Ok),
            r is Err ==> r->Err_0@ == full_message(),
            *final(final(self).code) == *final(old(self).code),
    {
        self.emit(inst::uqshl_v(rd.index(), rn.index(), rm.index(), V::size(), V::q()))
    }

    /// `ZIP2(Vd.T, Vn.T, Vm.T)` with matching vector arrangements.
    pub fn zip2_v<V: VRegArranged>(&mut self, rd: V, rn: V, rm: V) -> (r: Result<(), String>)
        requires
            inst::arrangement(V::size(), V::q()),
        ensures
            emits(*old(self).code, *final(self).code, inst::zip2_v(rd.num(), rn.num(), rm.num(), V::size(), V::q()), r is Ok),
            r is Err ==> r->Err_0@ == full_message(),
            *final(final(self).code) == *final(old(self).code),
    {
        self.emit(inst::zip2_v(rd.index(), rn.index(), rm.index(), V::size(), V::q()))
    }

    /// `UZP1(Vd.T, Vn.T, Vm.T)` with matching vector arrangements.
    pub fn uzp1_v<V: VRegArranged>(&mut self, rd: V, rn: V, rm: V) -> (r: Result<(), String>)
        requires
            inst::arrangement(V::size(), V::q()),
        ensures
            emits(*old(self).code, *final(self).code, inst::uzp1_v(rd.num(), rn.num(), rm.num(), V::size(), V::q()), r is Ok),
            r is Err ==> r->Err_0@ == full_message(),
            *final(final(self).code) == *final(old(self).code),
    {
        self.emit(inst::uzp1_v(rd.index(), rn.index(), rm.index(), V::size(), V::q()))
    }

    /// `UZP2(Vd.T, Vn.T, Vm.T)` with matching vector arrangements.
    pub fn uzp2_v<V: VRegArranged>(&mut self, rd: V, rn: V, rm: V) -> (r: Result<(), String>)
        requires
            inst::arrangement(V::size(), V::q()),
        ensures
            emits(*old(self).code, *final(self).code, inst::uzp2_v(rd.num(), rn.num(), rm.num(), V::size(), V::q()), r is Ok),
            r is Err ==> r->Err_0@ == full_message(),
            *final(final(self).code) == *final(old(self).code),
    {
        self.emit(inst::uzp2_v(rd.index(), rn.index(), rm.index(), V::size(), V::q()))
    }

    /// `ABS(Vd.T, Vn.T)` with matching vector arrangements.
    pub fn abs_v<V: VRegArranged>(&mut self, rd: V, rn: V) -> (r: Result<(), String>)
        requires
            inst::arrangement(V::size(), V::q()),
        ensures
            emits(*old(self).code, *final(self).code, inst::abs_v(rd.num(), rn.num(), V::size(), V::q()), r is Ok),
            r is Err ==> r->Err_0@ == full_message(),
            *final(final(self).code) == *final(old(self).code),
    {
        self.emit(inst::abs_v(rd.index(), rn.index(), V::size(), V::q()))
    }

    /// `CLZ(Vd.T, Vn.T)` with matching vector arrangements.
    pub fn clz_v<V: VRegArranged>(&mut self, rd: V, rn: V) -> (r: Result<(), String>)
        requires
            inst::arrangement(V::size(), V::q()),
            V::size() != 64,
        ensures
            emits(*old(self).code, *final(self).code, inst::clz_v(rd.num(), rn.num(), V::size(), V::q()), r is Ok),
            r is Err ==> r->Err_0@ == full_message(),
            *final(final(self).code) == *final(old(self).code),
    {
        self.emit(inst::clz_v(rd.index(), rn.index(), V::size(), V::q()))
    }

    /// `REV32(Vd.T, Vn.T)` with matching vector arrangements.
    pub fn rev32_v<V: VRegArranged>(&mut self, rd: V, rn: V) -> (r: Result<(), String>)
        requires
            inst::arrangement(V::size(), V::q()),
            V::size() == 8 || V::size() == 16,
        ensures
            emits(*old(self).code, *final(self).code, inst::rev32_v(rd.num(), rn.num(), V::size(), V::q()), r is Ok),
            r is Err ==> r->Err_0@ == full_message(),
            *final(final(self).code) == *final(old(self).code),
    {
        self.emit(inst::rev32_v(rd.index(), rn.index(), V::size(), V::q()))
    }

    /// `REV64(Vd.T, Vn.T)` with matching vector arrangements.
    pub fn rev64_v<V: VRegArranged>(&mut self, rd: V, rn: V) -> (r: Result<(), String>)
        requires
            inst::arrangement(V::size(), V::q()),
            V::size() != 64,
        ensures
            emits(*old(self).code, *final(self).code, inst::rev64_v(rd.num(), rn.num(), V::size(), V::q()), r is Ok),
            r is Err ==> r->Err_0@ == full_message(),
            *final(final(self).code) == *final(old(self).code),
    {
        self.emit(inst::rev64_v(rd.index(), rn.index(), V::size(), V::q()))
    }

    /// `SQABS(Vd.T, Vn.T)` with matching vector arrangements.
    pub fn sqabs_v<V: VRegArranged>(&mut self, rd: V, rn: V) -> (r: Result<(), String>)
        requires
            inst::arrangement(V::size(), V::q()),
        ensures
            emits(*old(self).code, *final(self).code, inst::sqabs_v(rd.num(), rn.num(), V::size(), V::q()), r is Ok),
            r is Err ==> r->Err_0@ == full_message(),
            *final(final(self).code) == *final(old(self).code),
    {
        self.emit(inst::sqabs_v(rd.index(), rn.index(), V::size(), V::q()))
    }

    /// `SUQADD(Vd.T, Vn.T)` with matching vector arrangements.
    pub fn suqadd_v<V: VRegArranged>(&mut self, rd: V, rn: V) -> (r: Result<(), String>)
        requires
            inst::arrangement(V::size(), V::q()),
        ensures
            emits(*old(self).code, *final(self).code, inst::suqadd_v(rd.num(), rn.num(), V::size(), V::q()), r is Ok),
            r is Err ==> r->Err_0@ == full_message(),
            *final(final(self).code) == *final(old(self).code),
    {
        self.emit(inst::suqadd_v(rd.index(), rn.index(), V::size(), V::q()))
    }

    /// `SQNEG(Vd.T, Vn.T)` with matching vector arrangements.
    pub fn sqneg_v<V: VRegArranged>(&mut self, rd: V, rn: V) -> (r: Result<(), String>)
        requires
            inst::arrangement(V::size(), V::q()),
        ensures
            emits(*old(self).code, *final(self).code, inst::sqneg_v(rd.num(), rn.num(), V::size(), V::q()), r is Ok),
            r is Err ==> r->Err_0@ == full_message(),
            *final(final(self).code) == *final(old(self).code),
    {
        self.emit(inst::sqneg_v(rd.index(), rn.index(), V::size(), V::q()))
    }

    /// `USQADD(Vd.T, Vn.T)` with matching vector arrangements.
    pub fn usqadd_v<V: VRegArranged>(&mut self, rd: V, rn: V) -> (r: Result<(), String>)
        requires
            inst::arrangement(V::size(), V::q()),
        ensures
            emits(*old(self).code, *final(self).code, inst::usqadd_v(rd.num(), rn.num(), V::size(), V::q()), r is Ok),
            r is Err ==> r->Err_0@ == full_message(),
            *final(final(self).code) == *final(old(self).code),
    {
        self.emit(inst::usqadd_v(rd.index(), rn.index(), V::size(), V::q()))
    }

    /// `SQSHLU(Vd.T, Vn.T, #shift)` with matching vector arrangements.
    pub fn sqshlu_v<V: VRegArranged>(&mut self, rd: V, rn: V, shift: u8) -> (r: Result<(), String>)
        requires
            inst::arrangement(V::size(), V::q()),
            shift < V::size(),
        ensures
            emits(*old(self).code, *final(self).code, inst::sqshlu_v(rd.num(), rn.num(), V::size(), shift, V::q()), r is Ok),
            r is Err ==> r->Err_0@ == full_message(),
            *final(final(self).code) == *final(old(self).code),
    {
        self.emit(inst::sqshlu_v(rd.index(), rn.index(), V::size(), shift, V::q()))
    }

    /// `SHL(Vd.T, Vn.T, #shift)` with matching vector arrangements.
    pub fn shl_v<V: VRegArranged>(&mut self, rd: V, rn: V, shift: u8) -> (r: Result<(), String>)
        requires
            inst::arrangement(V::size(), V::q()),
            shift < V::size(),
        ensures
            emits(*old(self).code, *final(self).code, inst::shl_v(rd.num(), rn.num(), V::size(), shift, V::q()), r is Ok),
            r is Err ==> r->Err_0@ == full_message(),
            *final(final(self).code) == *final(old(self).code),
    {
        self.emit(inst::shl_v(rd.index(), rn.index(), V::size(), shift, V::q()))
    }

    /// `NOT(Vd.16B, Vn.16B)`.
    pub fn not_v(&mut self, rd: VReg16B, rn: VReg16B) -> (r: Result<(), String>)
        ensures
            emits(*old(self).code, *final(self).code, inst::not_v16b(rd.num(), rn.num()), r is Ok),
            r is Err ==> r->Err_0@ == full_message(),
            *final(final(self).code) == *final(old(self).code),
    {
        self.emit(inst::not_v16b(rd.index(), rn.index()))
    }

    /// `CNT(Vd.16B, Vn.16B)`.
    pub fn cnt_v(&mut self, rd: VReg16B, rn: VReg16B) -> (r: Result<(), String>)
        ensures
            emits(*old(self).code, *final(self).code, inst::cnt_v16b(rd.num(), rn.num()), r is Ok),
            r is Err ==> r->Err_0@ == full_message(),
            *final(final(self).code) == *final(old(self).code),
    {
        self.emit(inst::cnt_v16b(rd.index(), rn.index()))
    }

    /// `RBIT(Vd.16B, Vn.16B)`.
    pub fn rbit_v(&mut self, rd: VReg16B, rn: VReg16B) -> (r: Result<(), String>)
        ensures
            emits(*old(self).code, *final(self).code, inst::rbit_v16b(rd.num(), rn.num()), r is Ok),
            r is Err ==> r->Err_0@ == full_message(),
            *final(final(self).code) == *final(old(self).code),
    {
        self.emit(inst::rbit_v16b(rd.index(), rn.index()))
    }

    /// `REV16(Vd.16B, Vn.16B)`.
    pub fn rev16_v(&mut self, rd: VReg16B, rn: VReg16B) -> (r: Result<(), String>)
        ensures
            emits(*old(self).code, *final(self).code, inst::rev16_v16b(rd.num(), rn.num()), r is Ok),
            r is Err ==> r->Err_0@ == full_message(),
            *final(final(self).code) == *final(old(self).code),
    {
        self.emit(inst::rev16_v16b(rd.index(), rn.index()))
    }

    /// `BIC(Vd.8B|16B, Vn, Vm)`.
    pub fn bic_v<V: VRegBytes>(&mut self, rd: V, rn: V, rm: V) -> (r: Result<(), String>)
        ensures
            emits(*old(self).code, *final(self).code, if V::q() { inst::bic_v16b(rd.num(), rn.num(), rm.num()) } else { inst::bic_v8b(rd.num(), rn.num(), rm.num()) }, r is Ok),
            r is Err ==> r->Err_0@ == full_message(),
            *final(final(self).code) == *final(old(self).code),
    {
        self.emit(if V::q() { inst::bic_v16b(rd.index(), rn.index(), rm.index()) } else { inst::bic_v8b(rd.index(), rn.index(), rm.index()) })
    }

    /// `ORR(Vd.8B|16B, Vn, Vm)`.
    pub fn orr_v<V: VRegBytes>(&mut self, rd: V, rn: V, rm: V) -> (r: Result<(), String>)
        ensures
            emits(*old(self).code, *final(self).code, if V::q() { inst::orr_v16b(rd.num(), rn.num(), rm.num()) } else { inst::orr_v8b(rd.num(), rn.num(), rm.num()) }, r is Ok),
            r is Err ==> r->Err_0@ == full_message(),
            *final(final(self).code) == *final(old(self).code),
    {
        self.emit(if V::q() { inst::orr_v16b(rd.index(), rn.index(), rm.index()) } else { inst::orr_v8b(rd.index(), rn.index(), rm.index()) })
    }

    /// `URECPE(Vd.4S, Vn.4S)`.
    pub fn urecpe_v(&mut self, rd: VReg4S, rn: VReg4S) -> (r: Result<(), String>)
        ensures
            emits(*old(self).code, *final(self).code, inst::urecpe_v4s(rd.num(), rn.num()), r is Ok),
            r is Err ==> r->Err_0@ == full_message(),
            *final(final(self).code) == *final(old(self).code),
    {
        self.emit(inst::urecpe_v4s(rd.index(), rn.index()))
    }

    /// `URSQRTE(Vd.4S, Vn.4S)`.
    pub fn ursqrte_v(&mut self, rd: VReg4S, rn: VReg4S) -> (r: Result<(), String>)
        ensures
            emits(*old(self).code, *final(self).code, inst::ursqrte_v4s(rd.num(), rn.num()), r is Ok),
            r is Err ==> r->Err_0@ == full_message(),
            *final(final(self).code) == *final(old(self).code),
    {
        self.emit(inst::ursqrte_v4s(rd.index(), rn.index()))
    }

    /// `SMULL(Vd.Tw, Vn.Tn, Vm.Tn)`.
    pub fn smull_v<N: WideningSource>(&mut self, rd: N::Wide, rn: N, rm: N) -> (r: Result<(), String>)
        requires
            N::size() == 8 || N::size() == 16 || N::size() == 32,
        ensures
            emits(*old(self).code, *final(self).code, inst::smull_v(rd.num(), rn.num(), rm.num(), N::size()), r is Ok),
            r is Err ==> r->Err_0@ == full_message(),
            *final(final(self).code) == *final(old(self).code),
    {
        self.emit(inst::smull_v(rd.index(), rn.index(), rm.index(), N::size()))
    }

    /// `UMULL(Vd.Tw, Vn.Tn, Vm.Tn)`.
    pub fn umull_v<N: WideningSource>(&mut self, rd: N::Wide, rn: N, rm: N) -> (r: Result<(), String>)
        requires
            N::size() == 8 || N::size() == 16 || N::size() == 32,
        ensures
            emits(*old(self).code, *final(self).code, inst::umull_v(rd.num(), rn.num(), rm.num(), N::size()), r is Ok),
            r is Err ==> r->Err_0@ == full_message(),
            *final(final(self).code) == *final(old(self).code),
    {
        self.emit(inst::umull_v(rd.index(), rn.index(), rm.index(), N::size()))
    }

    /// `SQDMULL(Vd.Tw, Vn.Tn, Vm.Tn)`.
    pub fn sqdmull_v<N: WideningSource>(&mut self, rd: N::Wide, rn: N, rm: N) -> (r: Result<(), String>)
        requires
            N::size() == 16 || N::size() == 32,
        ensures
            emits(*old(self).code, *final(self).code, inst::sqdmull_v(rd.num(), rn.num(), rm.num(), N::size()), r is Ok),
            r is Err ==> r->Err_0@ == full_message(),
            *final(final(self).code) == *final(old(self).code),
    {
        self.emit(inst::sqdmull_v(rd.index(), rn.index(), rm.index(), N::size()))
    }

    /// `SQXTN(Vd.Tn, Vn.Tw)`.
    pub fn sqxtn_v<N: NarrowingSource>(&mut self, rd: N::Narrow, rn: N) -> (r: Result<(), String>)
        requires
            N::size() == 16 || N::size() == 32 || N::size() == 64,
        ensures
            emits(*old(self).code, *final(self).code, inst::sqxtn_v(rd.num(), rn.num(), N::size()), r is Ok),
            r is Err ==> r->Err_0@ == full_message(),
            *final(final(self).code) == *final(old(self).code),
    {
        self.emit(inst::sqxtn_v(rd.index(), rn.index(), N::size()))
    }

    /// `SQXTUN(Vd.Tn, Vn.Tw)`.
    pub fn sqxtun_v<N: NarrowingSource>(&mut self, rd: N::Narrow, rn: N) -> (r: Result<(), String>)
        requires
            N::size() == 16 || N::size() == 32 || N::size() == 64,
        ensures
            emits(*old(self).code, *final(self).code, inst::sqxtun_v(rd.num(), rn.num(), N::size()), r is Ok),
            r is Err ==> r->Err_0@ == full_message(),
            *final(final(self).code) == *final(old(self).code),
    {
        self.emit(inst::sqxtun_v(rd.index(), rn.index(), N::size()))
    }

    /// `UQXTN(Vd.Tn, Vn.Tw)`.
    pub fn uqxtn_v<N: NarrowingSource>(&mut self, rd: N::Narrow, rn: N) -> (r: Result<(), String>)
        requires
            N::size() == 16 || N::size() == 32 || N::size() == 64,
        ensures
            emits(*old(self).code, *final(self).code, inst::uqxtn_v(rd.num(), rn.num(), N::size()), r is Ok),
            r is Err ==> r->Err_0@ == full_message(),
            *final(final(self).code) == *final(old(self).code),
    {
        self.emit(inst::uqxtn_v(rd.index(), rn.index(), N::size()))
    }

    /// `SADDLP(Vd.Tw, Vn.Tn)`: pairwise widening over full registers.
    pub fn saddlp_v<D: VRegArranged, N: VRegArranged>(&mut self, rd: D, rn: N) -> (r: Result<(), String>)
        requires
            D::q() && N::q(),
            N::size() == 8 || N::size() == 16 || N::size() == 32,
            D::size() == 2 * N::size(),
        ensures
            emits(*old(self).code, *final(self).code, inst::saddlp_v(rd.num(), rn.num(), N::size()), r is Ok),
            r is Err ==> r->Err_0@ == full_message(),
            *final(final(self).code) == *final(old(self).code),
    {
        self.emit(inst::saddlp_v(rd.index(), rn.index(), N::size()))
    }

    /// `UADDLP(Vd.Tw, Vn.Tn)`: pairwise widening over full registers.
    pub fn uaddlp_v<D: VRegArranged, N: VRegArranged>(&mut self, rd: D, rn: N) -> (r: Result<(), String>)
        requires
            D::q() && N::q(),
            N::size() == 8 || N::size() == 16 || N::size() == 32,
            D::size() == 2 * N::size(),
        ensures
            emits(*old(self).code, *final(self).code, inst::uaddlp_v(rd.num(), rn.num(), N::size()), r is Ok),
            r is Err ==> r->Err_0@ == full_message(),
            *final(final(self).code) == *final(old(self).code),
    {
        self.emit(inst::uaddlp_v(rd.index(), rn.index(), N::size()))
    }

    /// `PMULL(Vd.8H, Vn.8B, Vm.8B)`.
    pub fn pmull_v(&mut self, rd: VReg8H, rn: VReg8B, rm: VReg8B) -> (r: Result<(), String>)
        ensures
            emits(*old(self).code, *final(self).code, inst::pmull_v(rd.num(), rn.num(), rm.num(), 8), r is Ok),
            r is Err ==> r->Err_0@ == full_message(),
            *final(final(self).code) == *final(old(self).code),
    {
        self.emit(inst::pmull_v(rd.index(), rn.index(), rm.index(), 8))
    }

    /// `PMULL(Vd.1Q, Vn.1D, Vm.1D)`; the 128-bit destination is a `QReg`.
    pub fn pmull_64(&mut self, rd: QReg, rn: VReg1D, rm: VReg1D) -> (r: Result<(), String>)
        ensures
            emits(*old(self).code, *final(self).code, inst::pmull_v(rd.num(), rn.num(), rm.num(), 64), r is Ok),
            r is Err ==> r->Err_0@ == full_message(),
            *final(final(self).code) == *final(old(self).code),
    {
        self.emit(inst::pmull_v(rd.index(), rn.index(), rm.index(), 64))
    }

    /// `ADDV(Rd, Vn.T)`: the scalar width matches the source lanes.
    pub fn addv_scalar<F: FpReg, V: VRegArranged>(&mut self, rd: F, rn: V) -> (r: Result<(), String>)
        requires
            V::q(),
            V::size() == 8 || V::size() == 16 || V::size() == 32,
            F::size() < 3,
            (if F::size() == 0 { 8u8 } else if F::size() == 1 { 16u8 } else { 32u8 }) == V::size(),
        ensures
            emits(*old(self).code, *final(self).code, inst::addv_from_v(rd.num(), rn.num(), V::size()), r is Ok),
            r is Err ==> r->Err_0@ == full_message(),
            *final(final(self).code) == *final(old(self).code),
    {
        self.emit(inst::addv_from_v(rd.index(), rn.index(), V::size()))
    }

    /// `ADDP(Dd, Vn.2D)`.
    pub fn addp_scalar(&mut self, rd: DReg, rn: VReg2D) -> (r: Result<(), String>)
        ensures
            emits(*old(self).code, *final(self).code, inst::addp_d_from_v2d(rd.num(), rn.num()), r is Ok),
            r is Err ==> r->Err_0@ == full_message(),
            *final(final(self).code) == *final(old(self).code),
    {
        self.emit(inst::addp_d_from_v2d(rd.index(), rn.index()))
    }

    /// `UMOV(Rd, Vn.T[index])`: X for 64-bit lanes, W otherwise.
    pub fn umov<R: GpReg, V: VRegArranged>(&mut self, rd: R, rn: V, index: u8) -> (r: Result<(), String>)
        requires
            R::sf() == (V::size() == 64),
            inst::lane_size(V::size()),
            (index as int) * (V::size() as int) < 128,
        ensures
            emits(*old(self).code, *final(self).code, inst::umov_from_v(rd.num(), rn.num(), V::size(), index), r is Ok),
            r is Err ==> r->Err_0@ == full_message(),
            *final(final(self).code) == *final(old(self).code),
    {
        self.emit(inst::umov_from_v(rd.index(), rn.index(), V::size(), index))
    }

    /// `MOV(Vd.T[index], Rn)`: X for 64-bit lanes, W otherwise.
    pub fn mov_to_element<V: VRegArranged, R: GpReg>(&mut self, rd: V, index: u8, rn: R) -> (r: Result<(), String>)
        requires
            R::sf() == (V::size() == 64),
            inst::lane_size(V::size()),
            (index as int) * (V::size() as int) < 128,
        ensures
            emits(*old(self).code, *final(self).code, inst::mov_to_v_element(rd.num(), rn.num(), V::size(), index), r is Ok),
            r is Err ==> r->Err_0@ == full_message(),
            *final(final(self).code) == *final(old(self).code),
    {
        self.emit(inst::mov_to_v_element(rd.index(), rn.index(), V::size(), index))
    }

    /// `MOV(Vd.D[1], Vn.D[0])`.
    pub fn mov_d1_from_d0(&mut self, rd: VReg2D, rn: VReg2D) -> (r: Result<(), String>)
        ensures
            emits(*old(self).code, *final(self).code, inst::mov_v_d1_from_v_d0(rd.num(), rn.num()), r is Ok),
            r is Err ==> r->Err_0@ == full_message(),
            *final(final(self).code) == *final(old(self).code),
    {
        self.emit(inst::mov_v_d1_from_v_d0(rd.index(), rn.index()))
    }

    /// `DUP(Vd.T, Rn)`: X for 2D, W for byte, half and word lanes.
    pub fn dup_from_gp<V: VRegArranged, R: GpReg>(&mut self, rd: V, rn: R) -> (r: Result<(), String>)
        requires
            R::sf() == (V::size() == 64),
            inst::arrangement(V::size(), V::q()),
        ensures
            emits(*old(self).code, *final(self).code, inst::dup_v_from_reg(rd.num(), rn.num(), V::size(), V::q()), r is Ok),
            r is Err ==> r->Err_0@ == full_message(),
            *final(final(self).code) == *final(old(self).code),
    {
        self.emit(inst::dup_v_from_reg(rd.index(), rn.index(), V::size(), V::q()))
    }

    /// `DUP(Vd.T, Vn.Ts[index])`; the source lane can be anywhere in the 128-bit register.
    pub fn dup_element<V: VRegArranged>(&mut self, rd: V, rn: VReg, index: u8) -> (r: Result<(), String>)
        requires
            inst::arrangement(V::size(), V::q()),
            (index as int) * (V::size() as int) < 128,
        ensures
            emits(*old(self).code, *final(self).code, inst::dup_v_from_element(rd.num(), rn.num(), V::size(), index, V::q()), r is Ok),
            r is Err ==> r->Err_0@ == full_message(),
            *final(final(self).code) == *final(old(self).code),
    {
        self.emit(inst::dup_v_from_element(rd.index(), rn.index(), V::size(), index, V::q()))
    }

    /// `TBL(Vd.T, {Vn.16B ..}, Vm.T)`: the table starts at `rn` and occupies `list_len` consecutive registers.
    pub fn tbl_v<V: VRegBytes>(&mut self, rd: V, rn: VReg16B, rm: V, list_len: u8) -> (r: Result<(), String>)
        requires
            1 <= list_len,
            list_len <= 4,
        ensures
            emits(*old(self).code, *final(self).code, inst::tbl_v(rd.num(), rn.num(), rm.num(), list_len, V::q()), r is Ok),
            r is Err ==> r->Err_0@ == full_message(),
            *final(final(self).code) == *final(old(self).code),
    {
        self.emit(inst::tbl_v(rd.index(), rn.index(), rm.index(), list_len, V::q()))
    }

    /// `TBX(Vd.T, {Vn.16B ..}, Vm.T)`: the table starts at `rn` and occupies `list_len` consecutive registers.
    pub fn tbx_v<V: VRegBytes>(&mut self, rd: V, rn: VReg16B, rm: V, list_len: u8) -> (r: Result<(), String>)
        requires
            1 <= list_len,
            list_len <= 4,
        ensures
            emits(*old(self).code, *final(self).code, inst::tbx_v(rd.num(), rn.num(), rm.num(), list_len, V::q()), r is Ok),
            r is Err ==> r->Err_0@ == full_message(),
            *final(final(self).code) == *final(old(self).code),
    {
        self.emit(inst::tbx_v(rd.index(), rn.index(), rm.index(), list_len, V::q()))
    }
}

} // verus!
