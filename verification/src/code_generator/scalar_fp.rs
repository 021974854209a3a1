//! Scalar floating-point mnemonics over `S` and `D` registers, and their
//! conversions to and from general-purpose registers.

use super::CodeGenerator;
use crate::block_of_code::{emits, full_message};
use crate::inst;
use crate::reg::{DReg, FpReg, GpReg, HReg, Register, SReg, WReg};
use vstd::prelude::*;

verus! {

/// The scalar registers of the single and double precision overloads.
pub trait Scalar {
}

impl Scalar for SReg {
}

impl Scalar for DReg {
}

/// The `S`/`D` overload set of scalar arithmetic and conversions; `DOUBLE`
/// selects the `D` form.
pub trait ScalarFp: FpReg + Scalar {
    const DOUBLE: bool;

    /// `true` for the double-precision (`D`) form.
    spec fn spec_double() -> bool;

    /// `DOUBLE`, readable in contracts as `spec_double`.
    #[verifier::when_used_as_spec(spec_double)]
    fn double() -> (r: bool)
        ensures
            r == Self::spec_double(),
    ;
}

impl ScalarFp for SReg {
    const DOUBLE: bool = false;

    open spec fn spec_double() -> bool {
        false
    }

    fn double() -> (r: bool) {
        <Self as ScalarFp>::DOUBLE
    }
}

impl ScalarFp for DReg {
    const DOUBLE: bool = true;

    open spec fn spec_double() -> bool {
        true
    }

    fn double() -> (r: bool) {
        <Self as ScalarFp>::DOUBLE
    }
}

/// The scalar overloads pick the precision of their operands: an `S`
/// register (4 bytes, width order 2) takes the single-precision form and a
/// `D` register (8 bytes, width order 3) the double-precision one.
pub proof fn lemma_scalar_precision()
    ensures
        !<SReg as ScalarFp>::spec_double() && <SReg as FpReg>::spec_size() == 2,
        <DReg as ScalarFp>::spec_double() && <DReg as FpReg>::spec_size() == 3,
{
}

impl<'a> CodeGenerator<'a> {
    /// `FCMP(Fn, #0.0)`, scalar form.
    pub fn fcmp_zero_fp<F: ScalarFp>(&mut self, rn: F) -> (r: Result<(), String>)
        ensures
            emits(*old(self).code, *final(self).code, if F::double() { inst::fcmp_d_zero(rn.num()) } else { inst::fcmp_s_zero(rn.num()) }, r is Ok),
            r is Err ==> r->Err_0@ == full_message(),
            *final(final(self).code) == *final(old(self).code),
    {
        self.emit(if F::double() { inst::fcmp_d_zero(rn.index()) } else { inst::fcmp_s_zero(rn.index()) })
    }

    /// `FCMPE(Fn, #0.0)`, scalar form.
    pub fn fcmpe_zero_fp<F: ScalarFp>(&mut self, rn: F) -> (r: Result<(), String>)
        ensures
            emits(*old(self).code, *final(self).code, if F::double() { inst::fcmpe_d_zero(rn.num()) } else { inst::fcmpe_s_zero(rn.num()) }, r is Ok),
            r is Err ==> r->Err_0@ == full_message(),
            *final(final(self).code) == *final(old(self).code),
    {
        self.emit(if F::double() { inst::fcmpe_d_zero(rn.index()) } else { inst::fcmpe_s_zero(rn.index()) })
    }

    /// `FCMP(Fn, Fm)`, scalar form.
    pub fn fcmp_fp<F: ScalarFp>(&mut self, rn: F, rm: F) -> (r: Result<(), String>)
        ensures
            emits(*old(self).code, *final(self).code, if F::double() { inst::fcmp_d(rn.num(), rm.num()) } else { inst::fcmp_s(rn.num(), rm.num()) }, r is Ok),
            r is Err ==> r->Err_0@ == full_message(),
            *final(final(self).code) == *final(old(self).code),
    {
        self.emit(if F::double() { inst::fcmp_d(rn.index(), rm.index()) } else { inst::fcmp_s(rn.index(), rm.index()) })
    }

    /// `FCMPE(Fn, Fm)`, scalar form.
    pub fn fcmpe_fp<F: ScalarFp>(&mut self, rn: F, rm: F) -> (r: Result<(), String>)
        ensures
            emits(*old(self).code, *final(self).code, if F::double() { inst::fcmpe_d(rn.num(), rm.num()) } else { inst::fcmpe_s(rn.num(), rm.num()) }, r is Ok),
            r is Err ==> r->Err_0@ == full_message(),
            *final(final(self).code) == *final(old(self).code),
    {
        self.emit(if F::double() { inst::fcmpe_d(rn.index(), rm.index()) } else { inst::fcmpe_s(rn.index(), rm.index()) })
    }

    /// `FCVTZU(Rd, Fn, #fbits)`, scaled fixed-point form.
    pub fn fcvtzu_fixed_fp<G: GpReg, F: ScalarFp>(&mut self, rd: G, rn: F, fbits: u8) -> (r: Result<(), String>)
        requires
            1 <= fbits && fbits <= if G::sf() { 64u8 } else { 32u8 },
        ensures
            emits(*old(self).code, *final(self).code, if G::sf() { if F::double() { inst::fcvtzu_x_from_d_fixed(rd.num(), rn.num(), fbits) } else { inst::fcvtzu_x_from_s_fixed(rd.num(), rn.num(), fbits) } } else { if F::double() { inst::fcvtzu_w_from_d_fixed(rd.num(), rn.num(), fbits) } else { inst::fcvtzu_w_from_s_fixed(rd.num(), rn.num(), fbits) } }, r is Ok),
            r is Err ==> r->Err_0@ == full_message(),
            *final(final(self).code) == *final(old(self).code),
    {
        self.emit(if G::sf() { if F::double() { inst::fcvtzu_x_from_d_fixed(rd.index(), rn.index(), fbits) } else { inst::fcvtzu_x_from_s_fixed(rd.index(), rn.index(), fbits) } } else { if F::double() { inst::fcvtzu_w_from_d_fixed(rd.index(), rn.index(), fbits) } else { inst::fcvtzu_w_from_s_fixed(rd.index(), rn.index(), fbits) } })
    }

    /// `FCVTZS(Rd, Fn, #fbits)`, scaled fixed-point form.
    pub fn fcvtzs_fixed_fp<G: GpReg, F: ScalarFp>(&mut self, rd: G, rn: F, fbits: u8) -> (r: Result<(), String>)
        requires
            1 <= fbits && fbits <= if G::sf() { 64u8 } else { 32u8 },
        ensures
            emits(*old(self).code, *final(self).code, if G::sf() { if F::double() { inst::fcvtzs_x_from_d_fixed(rd.num(), rn.num(), fbits) } else { inst::fcvtzs_x_from_s_fixed(rd.num(), rn.num(), fbits) } } else { if F::double() { inst::fcvtzs_w_from_d_fixed(rd.num(), rn.num(), fbits) } else { inst::fcvtzs_w_from_s_fixed(rd.num(), rn.num(), fbits) } }, r is Ok),
            r is Err ==> r->Err_0@ == full_message(),
            *final(final(self).code) == *final(old(self).code),
    {
        self.emit(if G::sf() { if F::double() { inst::fcvtzs_x_from_d_fixed(rd.index(), rn.index(), fbits) } else { inst::fcvtzs_x_from_s_fixed(rd.index(), rn.index(), fbits) } } else { if F::double() { inst::fcvtzs_w_from_d_fixed(rd.index(), rn.index(), fbits) } else { inst::fcvtzs_w_from_s_fixed(rd.index(), rn.index(), fbits) } })
    }

    /// `FCVTNU(Rd, Fn)`, scalar form.
    pub fn fcvtnu_fp<G: GpReg, F: ScalarFp>(&mut self, rd: G, rn: F) -> (r: Result<(), String>)
        ensures
            emits(*old(self).code, *final(self).code, if G::sf() { if F::double() { inst::fcvtnu_x_from_d(rd.num(), rn.num()) } else { inst::fcvtnu_x_from_s(rd.num(), rn.num()) } } else { if F::double() { inst::fcvtnu_w_from_d(rd.num(), rn.num()) } else { inst::fcvtnu_w_from_s(rd.num(), rn.num()) } }, r is Ok),
            r is Err ==> r->Err_0@ == full_message(),
            *final(final(self).code) == *final(old(self).code),
    {
        self.emit(if G::sf() { if F::double() { inst::fcvtnu_x_from_d(rd.index(), rn.index()) } else { inst::fcvtnu_x_from_s(rd.index(), rn.index()) } } else { if F::double() { inst::fcvtnu_w_from_d(rd.index(), rn.index()) } else { inst::fcvtnu_w_from_s(rd.index(), rn.index()) } })
    }

    /// `FCVTPU(Rd, Fn)`, scalar form.
    pub fn fcvtpu_fp<G: GpReg, F: ScalarFp>(&mut self, rd: G, rn: F) -> (r: Result<(), String>)
        ensures
            emits(*old(self).code, *final(self).code, if G::sf() { if F::double() { inst::fcvtpu_x_from_d(rd.num(), rn.num()) } else { inst::fcvtpu_x_from_s(rd.num(), rn.num()) } } else { if F::double() { inst::fcvtpu_w_from_d(rd.num(), rn.num()) } else { inst::fcvtpu_w_from_s(rd.num(), rn.num()) } }, r is Ok),
            r is Err ==> r->Err_0@ == full_message(),
            *final(final(self).code) == *final(old(self).code),
    {
        self.emit(if G::sf() { if F::double() { inst::fcvtpu_x_from_d(rd.index(), rn.index()) } else { inst::fcvtpu_x_from_s(rd.index(), rn.index()) } } else { if F::double() { inst::fcvtpu_w_from_d(rd.index(), rn.index()) } else { inst::fcvtpu_w_from_s(rd.index(), rn.index()) } })
    }

    /// `FCVTMU(Rd, Fn)`, scalar form.
    pub fn fcvtmu_fp<G: GpReg, F: ScalarFp>(&mut self, rd: G, rn: F) -> (r: Result<(), String>)
        ensures
            emits(*old(self).code, *final(self).code, if G::sf() { if F::double() { inst::fcvtmu_x_from_d(rd.num(), rn.num()) } else { inst::fcvtmu_x_from_s(rd.num(), rn.num()) } } else { if F::double() { inst::fcvtmu_w_from_d(rd.num(), rn.num()) } else { inst::fcvtmu_w_from_s(rd.num(), rn.num()) } }, r is Ok),
            r is Err ==> r->Err_0@ == full_message(),
            *final(final(self).code) == *final(old(self).code),
    {
        self.emit(if G::sf() { if F::double() { inst::fcvtmu_x_from_d(rd.index(), rn.index()) } else { inst::fcvtmu_x_from_s(rd.index(), rn.index()) } } else { if F::double() { inst::fcvtmu_w_from_d(rd.index(), rn.index()) } else { inst::fcvtmu_w_from_s(rd.index(), rn.index()) } })
    }

    /// `FCVTZU(Rd, Fn)`, scalar form.
    pub fn fcvtzu_fp<G: GpReg, F: ScalarFp>(&mut self, rd: G, rn: F) -> (r: Result<(), String>)
        ensures
            emits(*old(self).code, *final(self).code, if G::sf() { if F::double() { inst::fcvtzu_x_from_d(rd.num(), rn.num()) } else { inst::fcvtzu_x_from_s(rd.num(), rn.num()) } } else { if F::double() { inst::fcvtzu_w_from_d(rd.num(), rn.num()) } else { inst::fcvtzu_w_from_s(rd.num(), rn.num()) } }, r is Ok),
            r is Err ==> r->Err_0@ == full_message(),
            *final(final(self).code) == *final(old(self).code),
    {
        self.emit(if G::sf() { if F::double() { inst::fcvtzu_x_from_d(rd.index(), rn.index()) } else { inst::fcvtzu_x_from_s(rd.index(), rn.index()) } } else { if F::double() { inst::fcvtzu_w_from_d(rd.index(), rn.index()) } else { inst::fcvtzu_w_from_s(rd.index(), rn.index()) } })
    }

    /// `FCVTAU(Rd, Fn)`, scalar form.
    pub fn fcvtau_fp<G: GpReg, F: ScalarFp>(&mut self, rd: G, rn: F) -> (r: Result<(), String>)
        ensures
            emits(*old(self).code, *final(self).code, if G::sf() { if F::double() { inst::fcvtau_x_from_d(rd.num(), rn.num()) } else { inst::fcvtau_x_from_s(rd.num(), rn.num()) } } else { if F::double() { inst::fcvtau_w_from_d(rd.num(), rn.num()) } else { inst::fcvtau_w_from_s(rd.num(), rn.num()) } }, r is Ok),
            r is Err ==> r->Err_0@ == full_message(),
            *final(final(self).code) == *final(old(self).code),
    {
        self.emit(if G::sf() { if F::double() { inst::fcvtau_x_from_d(rd.index(), rn.index()) } else { inst::fcvtau_x_from_s(rd.index(), rn.index()) } } else { if F::double() { inst::fcvtau_w_from_d(rd.index(), rn.index()) } else { inst::fcvtau_w_from_s(rd.index(), rn.index()) } })
    }

    /// `FCVTNS(Rd, Fn)`, scalar form.
    pub fn fcvtns_fp<G: GpReg, F: ScalarFp>(&mut self, rd: G, rn: F) -> (r: Result<(), String>)
        ensures
            emits(*old(self).code, *final(self).code, if G::sf() { if F::double() { inst::fcvtns_x_from_d(rd.num(), rn.num()) } else { inst::fcvtns_x_from_s(rd.num(), rn.num()) } } else { if F::double() { inst::fcvtns_w_from_d(rd.num(), rn.num()) } else { inst::fcvtns_w_from_s(rd.num(), rn.num()) } }, r is Ok),
            r is Err ==> r->Err_0@ == full_message(),
            *final(final(self).code) == *final(old(self).code),
    {
        self.emit(if G::sf() { if F::double() { inst::fcvtns_x_from_d(rd.index(), rn.index()) } else { inst::fcvtns_x_from_s(rd.index(), rn.index()) } } else { if F::double() { inst::fcvtns_w_from_d(rd.index(), rn.index()) } else { inst::fcvtns_w_from_s(rd.index(), rn.index()) } })
    }

    /// `FCVTPS(Rd, Fn)`, scalar form.
    pub fn fcvtps_fp<G: GpReg, F: ScalarFp>(&mut self, rd: G, rn: F) -> (r: Result<(), String>)
        ensures
            emits(*old(self).code, *final(self).code, if G::sf() { if F::double() { inst::fcvtps_x_from_d(rd.num(), rn.num()) } else { inst::fcvtps_x_from_s(rd.num(), rn.num()) } } else { if F::double() { inst::fcvtps_w_from_d(rd.num(), rn.num()) } else { inst::fcvtps_w_from_s(rd.num(), rn.num()) } }, r is Ok),
            r is Err ==> r->Err_0@ == full_message(),
            *final(final(self).code) == *final(old(self).code),
    {
        self.emit(if G::sf() { if F::double() { inst::fcvtps_x_from_d(rd.index(), rn.index()) } else { inst::fcvtps_x_from_s(rd.index(), rn.index()) } } else { if F::double() { inst::fcvtps_w_from_d(rd.index(), rn.index()) } else { inst::fcvtps_w_from_s(rd.index(), rn.index()) } })
    }

    /// `FCVTMS(Rd, Fn)`, scalar form.
    pub fn fcvtms_fp<G: GpReg, F: ScalarFp>(&mut self, rd: G, rn: F) -> (r: Result<(), String>)
        ensures
            emits(*old(self).code, *final(self).code, if G::sf() { if F::double() { inst::fcvtms_x_from_d(rd.num(), rn.num()) } else { inst::fcvtms_x_from_s(rd.num(), rn.num()) } } else { if F::double() { inst::fcvtms_w_from_d(rd.num(), rn.num()) } else { inst::fcvtms_w_from_s(rd.num(), rn.num()) } }, r is Ok),
            r is Err ==> r->Err_0@ == full_message(),
            *final(final(self).code) == *final(old(self).code),
    {
        self.emit(if G::sf() { if F::double() { inst::fcvtms_x_from_d(rd.index(), rn.index()) } else { inst::fcvtms_x_from_s(rd.index(), rn.index()) } } else { if F::double() { inst::fcvtms_w_from_d(rd.index(), rn.index()) } else { inst::fcvtms_w_from_s(rd.index(), rn.index()) } })
    }

    /// `FCVTZS(Rd, Fn)`, scalar form.
    pub fn fcvtzs_fp<G: GpReg, F: ScalarFp>(&mut self, rd: G, rn: F) -> (r: Result<(), String>)
        ensures
            emits(*old(self).code, *final(self).code, if G::sf() { if F::double() { inst::fcvtzs_x_from_d(rd.num(), rn.num()) } else { inst::fcvtzs_x_from_s(rd.num(), rn.num()) } } else { if F::double() { inst::fcvtzs_w_from_d(rd.num(), rn.num()) } else { inst::fcvtzs_w_from_s(rd.num(), rn.num()) } }, r is Ok),
            r is Err ==> r->Err_0@ == full_message(),
            *final(final(self).code) == *final(old(self).code),
    {
        self.emit(if G::sf() { if F::double() { inst::fcvtzs_x_from_d(rd.index(), rn.index()) } else { inst::fcvtzs_x_from_s(rd.index(), rn.index()) } } else { if F::double() { inst::fcvtzs_w_from_d(rd.index(), rn.index()) } else { inst::fcvtzs_w_from_s(rd.index(), rn.index()) } })
    }

    /// `FCVTAS(Rd, Fn)`, scalar form.
    pub fn fcvtas_fp<G: GpReg, F: ScalarFp>(&mut self, rd: G, rn: F) -> (r: Result<(), String>)
        ensures
            emits(*old(self).code, *final(self).code, if G::sf() { if F::double() { inst::fcvtas_x_from_d(rd.num(), rn.num()) } else { inst::fcvtas_x_from_s(rd.num(), rn.num()) } } else { if F::double() { inst::fcvtas_w_from_d(rd.num(), rn.num()) } else { inst::fcvtas_w_from_s(rd.num(), rn.num()) } }, r is Ok),
            r is Err ==> r->Err_0@ == full_message(),
            *final(final(self).code) == *final(old(self).code),
    {
        self.emit(if G::sf() { if F::double() { inst::fcvtas_x_from_d(rd.index(), rn.index()) } else { inst::fcvtas_x_from_s(rd.index(), rn.index()) } } else { if F::double() { inst::fcvtas_w_from_d(rd.index(), rn.index()) } else { inst::fcvtas_w_from_s(rd.index(), rn.index()) } })
    }

    /// `ADD(Wd, Wn, Wm, LSR #shift)`.
    pub fn add_lsr_fp(&mut self, rd: WReg, rn: WReg, rm: WReg, shift: u8) -> (r: Result<(), String>)
        requires
            shift < 32,
        ensures
            emits(*old(self).code, *final(self).code, inst::add_w_reg_lsr(rd.num(), rn.num(), rm.num(), shift), r is Ok),
            r is Err ==> r->Err_0@ == full_message(),
            *final(final(self).code) == *final(old(self).code),
    {
        self.emit(inst::add_w_reg_lsr(rd.index(), rn.index(), rm.index(), shift))
    }

    /// `LSR(Wd, Wn, #shift)`.
    pub fn lsr_fp(&mut self, rd: WReg, rn: WReg, shift: u8) -> (r: Result<(), String>)
        requires
            shift < 32,
        ensures
            emits(*old(self).code, *final(self).code, inst::lsr_w_imm(rd.num(), rn.num(), shift), r is Ok),
            r is Err ==> r->Err_0@ == full_message(),
            *final(final(self).code) == *final(old(self).code),
    {
        self.emit(inst::lsr_w_imm(rd.index(), rn.index(), shift))
    }

    /// `UCVTF(Fd, Rn)`, scalar form.
    pub fn ucvtf_fp<G: GpReg, F: ScalarFp>(&mut self, rd: F, rn: G) -> (r: Result<(), String>)
        ensures
            emits(*old(self).code, *final(self).code, if G::sf() { if F::double() { inst::ucvtf_d_from_x(rd.num(), rn.num()) } else { inst::ucvtf_s_from_x(rd.num(), rn.num()) } } else { if F::double() { inst::ucvtf_d_from_w(rd.num(), rn.num()) } else { inst::ucvtf_s_from_w(rd.num(), rn.num()) } }, r is Ok),
            r is Err ==> r->Err_0@ == full_message(),
            *final(final(self).code) == *final(old(self).code),
    {
        self.emit(if G::sf() { if F::double() { inst::ucvtf_d_from_x(rd.index(), rn.index()) } else { inst::ucvtf_s_from_x(rd.index(), rn.index()) } } else { if F::double() { inst::ucvtf_d_from_w(rd.index(), rn.index()) } else { inst::ucvtf_s_from_w(rd.index(), rn.index()) } })
    }

    /// `SCVTF(Fd, Rn)`, scalar form.
    pub fn scvtf_fp<G: GpReg, F: ScalarFp>(&mut self, rd: F, rn: G) -> (r: Result<(), String>)
        ensures
            emits(*old(self).code, *final(self).code, if G::sf() { if F::double() { inst::scvtf_d_from_x(rd.num(), rn.num()) } else { inst::scvtf_s_from_x(rd.num(), rn.num()) } } else { if F::double() { inst::scvtf_d_from_w(rd.num(), rn.num()) } else { inst::scvtf_s_from_w(rd.num(), rn.num()) } }, r is Ok),
            r is Err ==> r->Err_0@ == full_message(),
            *final(final(self).code) == *final(old(self).code),
    {
        self.emit(if G::sf() { if F::double() { inst::scvtf_d_from_x(rd.index(), rn.index()) } else { inst::scvtf_s_from_x(rd.index(), rn.index()) } } else { if F::double() { inst::scvtf_d_from_w(rd.index(), rn.index()) } else { inst::scvtf_s_from_w(rd.index(), rn.index()) } })
    }

    /// `UCVTF(Fd, Rn, #fbits)`, scaled fixed-point form.
    pub fn ucvtf_fixed_fp<G: GpReg, F: ScalarFp>(&mut self, rd: F, rn: G, fbits: u8) -> (r: Result<(), String>)
        requires
            1 <= fbits && fbits <= if G::sf() { 64u8 } else { 32u8 },
        ensures
            emits(*old(self).code, *final(self).code, if G::sf() { if F::double() { inst::ucvtf_d_from_x_fixed(rd.num(), rn.num(), fbits) } else { inst::ucvtf_s_from_x_fixed(rd.num(), rn.num(), fbits) } } else { if F::double() { inst::ucvtf_d_from_w_fixed(rd.num(), rn.num(), fbits) } else { inst::ucvtf_s_from_w_fixed(rd.num(), rn.num(), fbits) } }, r is Ok),
            r is Err ==> r->Err_0@ == full_message(),
            *final(final(self).code) == *final(old(self).code),
    {
        self.emit(if G::sf() { if F::double() { inst::ucvtf_d_from_x_fixed(rd.index(), rn.index(), fbits) } else { inst::ucvtf_s_from_x_fixed(rd.index(), rn.index(), fbits) } } else { if F::double() { inst::ucvtf_d_from_w_fixed(rd.index(), rn.index(), fbits) } else { inst::ucvtf_s_from_w_fixed(rd.index(), rn.index(), fbits) } })
    }

    /// `SCVTF(Fd, Rn, #fbits)`, scaled fixed-point form.
    pub fn scvtf_fixed_fp<G: GpReg, F: ScalarFp>(&mut self, rd: F, rn: G, fbits: u8) -> (r: Result<(), String>)
        requires
            1 <= fbits && fbits <= if G::sf() { 64u8 } else { 32u8 },
        ensures
            emits(*old(self).code, *final(self).code, if G::sf() { if F::double() { inst::scvtf_d_from_x_fixed(rd.num(), rn.num(), fbits) } else { inst::scvtf_s_from_x_fixed(rd.num(), rn.num(), fbits) } } else { if F::double() { inst::scvtf_d_from_w_fixed(rd.num(), rn.num(), fbits) } else { inst::scvtf_s_from_w_fixed(rd.num(), rn.num(), fbits) } }, r is Ok),
            r is Err ==> r->Err_0@ == full_message(),
            *final(final(self).code) == *final(old(self).code),
    {
        self.emit(if G::sf() { if F::double() { inst::scvtf_d_from_x_fixed(rd.index(), rn.index(), fbits) } else { inst::scvtf_s_from_x_fixed(rd.index(), rn.index(), fbits) } } else { if F::double() { inst::scvtf_d_from_w_fixed(rd.index(), rn.index(), fbits) } else { inst::scvtf_s_from_w_fixed(rd.index(), rn.index(), fbits) } })
    }

    /// `FMUL(Fd, Fn, Fm)`, scalar form.
    pub fn fmul_fp<F: ScalarFp>(&mut self, rd: F, rn: F, rm: F) -> (r: Result<(), String>)
        ensures
            emits(*old(self).code, *final(self).code, if F::double() { inst::fmul_d(rd.num(), rn.num(), rm.num()) } else { inst::fmul_s(rd.num(), rn.num(), rm.num()) }, r is Ok),
            r is Err ==> r->Err_0@ == full_message(),
            *final(final(self).code) == *final(old(self).code),
    {
        self.emit(if F::double() { inst::fmul_d(rd.index(), rn.index(), rm.index()) } else { inst::fmul_s(rd.index(), rn.index(), rm.index()) })
    }

    /// `FMULX(Fd, Fn, Fm)`, scalar form.
    pub fn fmulx_fp<F: ScalarFp>(&mut self, rd: F, rn: F, rm: F) -> (r: Result<(), String>)
        ensures
            emits(*old(self).code, *final(self).code, if F::double() { inst::fmulx_d(rd.num(), rn.num(), rm.num()) } else { inst::fmulx_s(rd.num(), rn.num(), rm.num()) }, r is Ok),
            r is Err ==> r->Err_0@ == full_message(),
            *final(final(self).code) == *final(old(self).code),
    {
        self.emit(if F::double() { inst::fmulx_d(rd.index(), rn.index(), rm.index()) } else { inst::fmulx_s(rd.index(), rn.index(), rm.index()) })
    }

    /// `FADD(Fd, Fn, Fm)`, scalar form.
    pub fn fadd_fp<F: ScalarFp>(&mut self, rd: F, rn: F, rm: F) -> (r: Result<(), String>)
        ensures
            emits(*old(self).code, *final(self).code, if F::double() { inst::fadd_d(rd.num(), rn.num(), rm.num()) } else { inst::fadd_s(rd.num(), rn.num(), rm.num()) }, r is Ok),
            r is Err ==> r->Err_0@ == full_message(),
            *final(final(self).code) == *final(old(self).code),
    {
        self.emit(if F::double() { inst::fadd_d(rd.index(), rn.index(), rm.index()) } else { inst::fadd_s(rd.index(), rn.index(), rm.index()) })
    }

    /// `FSUB(Fd, Fn, Fm)`, scalar form.
    pub fn fsub_fp<F: ScalarFp>(&mut self, rd: F, rn: F, rm: F) -> (r: Result<(), String>)
        ensures
            emits(*old(self).code, *final(self).code, if F::double() { inst::fsub_d(rd.num(), rn.num(), rm.num()) } else { inst::fsub_s(rd.num(), rn.num(), rm.num()) }, r is Ok),
            r is Err ==> r->Err_0@ == full_message(),
            *final(final(self).code) == *final(old(self).code),
    {
        self.emit(if F::double() { inst::fsub_d(rd.index(), rn.index(), rm.index()) } else { inst::fsub_s(rd.index(), rn.index(), rm.index()) })
    }

    /// `FDIV(Fd, Fn, Fm)`, scalar form.
    pub fn fdiv_fp<F: ScalarFp>(&mut self, rd: F, rn: F, rm: F) -> (r: Result<(), String>)
        ensures
            emits(*old(self).code, *final(self).code, if F::double() { inst::fdiv_d(rd.num(), rn.num(), rm.num()) } else { inst::fdiv_s(rd.num(), rn.num(), rm.num()) }, r is Ok),
            r is Err ==> r->Err_0@ == full_message(),
            *final(final(self).code) == *final(old(self).code),
    {
        self.emit(if F::double() { inst::fdiv_d(rd.index(), rn.index(), rm.index()) } else { inst::fdiv_s(rd.index(), rn.index(), rm.index()) })
    }

    /// `FABS(Fd, Fn)`, scalar form.
    pub fn fabs_fp<F: ScalarFp>(&mut self, rd: F, rn: F) -> (r: Result<(), String>)
        ensures
            emits(*old(self).code, *final(self).code, if F::double() { inst::fabs_d(rd.num(), rn.num()) } else { inst::fabs_s(rd.num(), rn.num()) }, r is Ok),
            r is Err ==> r->Err_0@ == full_message(),
            *final(final(self).code) == *final(old(self).code),
    {
        self.emit(if F::double() { inst::fabs_d(rd.index(), rn.index()) } else { inst::fabs_s(rd.index(), rn.index()) })
    }

    /// `FMAXNM(Fd, Fn, Fm)`, scalar form.
    pub fn fmaxnm_fp<F: ScalarFp>(&mut self, rd: F, rn: F, rm: F) -> (r: Result<(), String>)
        ensures
            emits(*old(self).code, *final(self).code, if F::double() { inst::fmaxnm_d(rd.num(), rn.num(), rm.num()) } else { inst::fmaxnm_s(rd.num(), rn.num(), rm.num()) }, r is Ok),
            r is Err ==> r->Err_0@ == full_message(),
            *final(final(self).code) == *final(old(self).code),
    {
        self.emit(if F::double() { inst::fmaxnm_d(rd.index(), rn.index(), rm.index()) } else { inst::fmaxnm_s(rd.index(), rn.index(), rm.index()) })
    }

    /// `FMAX(Fd, Fn, Fm)`, scalar form.
    pub fn fmax_fp<F: ScalarFp>(&mut self, rd: F, rn: F, rm: F) -> (r: Result<(), String>)
        ensures
            emits(*old(self).code, *final(self).code, if F::double() { inst::fmax_d(rd.num(), rn.num(), rm.num()) } else { inst::fmax_s(rd.num(), rn.num(), rm.num()) }, r is Ok),
            r is Err ==> r->Err_0@ == full_message(),
            *final(final(self).code) == *final(old(self).code),
    {
        self.emit(if F::double() { inst::fmax_d(rd.index(), rn.index(), rm.index()) } else { inst::fmax_s(rd.index(), rn.index(), rm.index()) })
    }

    /// `FMADD(Fd, Fn, Fm, Fa)`, scalar form.
    pub fn fmadd_fp<F: ScalarFp>(&mut self, rd: F, rn: F, rm: F, ra: F) -> (r: Result<(), String>)
        ensures
            emits(*old(self).code, *final(self).code, if F::double() { inst::fmadd_d(rd.num(), rn.num(), rm.num(), ra.num()) } else { inst::fmadd_s(rd.num(), rn.num(), rm.num(), ra.num()) }, r is Ok),
            r is Err ==> r->Err_0@ == full_message(),
            *final(final(self).code) == *final(old(self).code),
    {
        self.emit(if F::double() { inst::fmadd_d(rd.index(), rn.index(), rm.index(), ra.index()) } else { inst::fmadd_s(rd.index(), rn.index(), rm.index(), ra.index()) })
    }

    /// `FMSUB(Fd, Fn, Fm, Fa)`, scalar form.
    pub fn fmsub_fp<F: ScalarFp>(&mut self, rd: F, rn: F, rm: F, ra: F) -> (r: Result<(), String>)
        ensures
            emits(*old(self).code, *final(self).code, if F::double() { inst::fmsub_d(rd.num(), rn.num(), rm.num(), ra.num()) } else { inst::fmsub_s(rd.num(), rn.num(), rm.num(), ra.num()) }, r is Ok),
            r is Err ==> r->Err_0@ == full_message(),
            *final(final(self).code) == *final(old(self).code),
    {
        self.emit(if F::double() { inst::fmsub_d(rd.index(), rn.index(), rm.index(), ra.index()) } else { inst::fmsub_s(rd.index(), rn.index(), rm.index(), ra.index()) })
    }

    /// `FMINNM(Fd, Fn, Fm)`, scalar form.
    pub fn fminnm_fp<F: ScalarFp>(&mut self, rd: F, rn: F, rm: F) -> (r: Result<(), String>)
        ensures
            emits(*old(self).code, *final(self).code, if F::double() { inst::fminnm_d(rd.num(), rn.num(), rm.num()) } else { inst::fminnm_s(rd.num(), rn.num(), rm.num()) }, r is Ok),
            r is Err ==> r->Err_0@ == full_message(),
            *final(final(self).code) == *final(old(self).code),
    {
        self.emit(if F::double() { inst::fminnm_d(rd.index(), rn.index(), rm.index()) } else { inst::fminnm_s(rd.index(), rn.index(), rm.index()) })
    }

    /// `FMIN(Fd, Fn, Fm)`, scalar form.
    pub fn fmin_fp<F: ScalarFp>(&mut self, rd: F, rn: F, rm: F) -> (r: Result<(), String>)
        ensures
            emits(*old(self).code, *final(self).code, if F::double() { inst::fmin_d(rd.num(), rn.num(), rm.num()) } else { inst::fmin_s(rd.num(), rn.num(), rm.num()) }, r is Ok),
            r is Err ==> r->Err_0@ == full_message(),
            *final(final(self).code) == *final(old(self).code),
    {
        self.emit(if F::double() { inst::fmin_d(rd.index(), rn.index(), rm.index()) } else { inst::fmin_s(rd.index(), rn.index(), rm.index()) })
    }

    /// `FNEG(Fd, Fn)`, scalar form.
    pub fn fneg_fp<F: ScalarFp>(&mut self, rd: F, rn: F) -> (r: Result<(), String>)
        ensures
            emits(*old(self).code, *final(self).code, if F::double() { inst::fneg_d(rd.num(), rn.num()) } else { inst::fneg_s(rd.num(), rn.num()) }, r is Ok),
            r is Err ==> r->Err_0@ == full_message(),
            *final(final(self).code) == *final(old(self).code),
    {
        self.emit(if F::double() { inst::fneg_d(rd.index(), rn.index()) } else { inst::fneg_s(rd.index(), rn.index()) })
    }

    /// `FRECPE(Fd, Fn)`, scalar form.
    pub fn frecpe_fp<F: ScalarFp>(&mut self, rd: F, rn: F) -> (r: Result<(), String>)
        ensures
            emits(*old(self).code, *final(self).code, if F::double() { inst::frecpe_d(rd.num(), rn.num()) } else { inst::frecpe_s(rd.num(), rn.num()) }, r is Ok),
            r is Err ==> r->Err_0@ == full_message(),
            *final(final(self).code) == *final(old(self).code),
    {
        self.emit(if F::double() { inst::frecpe_d(rd.index(), rn.index()) } else { inst::frecpe_s(rd.index(), rn.index()) })
    }

    /// `FRECPX(Fd, Fn)`, scalar form.
    pub fn frecpx_fp<F: ScalarFp>(&mut self, rd: F, rn: F) -> (r: Result<(), String>)
        ensures
            emits(*old(self).code, *final(self).code, if F::double() { inst::frecpx_d(rd.num(), rn.num()) } else { inst::frecpx_s(rd.num(), rn.num()) }, r is Ok),
            r is Err ==> r->Err_0@ == full_message(),
            *final(final(self).code) == *final(old(self).code),
    {
        self.emit(if F::double() { inst::frecpx_d(rd.index(), rn.index()) } else { inst::frecpx_s(rd.index(), rn.index()) })
    }

    /// `FRECPS(Fd, Fn, Fm)`, scalar form.
    pub fn frecps_fp<F: ScalarFp>(&mut self, rd: F, rn: F, rm: F) -> (r: Result<(), String>)
        ensures
            emits(*old(self).code, *final(self).code, if F::double() { inst::frecps_d(rd.num(), rn.num(), rm.num()) } else { inst::frecps_s(rd.num(), rn.num(), rm.num()) }, r is Ok),
            r is Err ==> r->Err_0@ == full_message(),
            *final(final(self).code) == *final(old(self).code),
    {
        self.emit(if F::double() { inst::frecps_d(rd.index(), rn.index(), rm.index()) } else { inst::frecps_s(rd.index(), rn.index(), rm.index()) })
    }

    /// `FRSQRTE(Fd, Fn)`, scalar form.
    pub fn frsqrte_fp<F: ScalarFp>(&mut self, rd: F, rn: F) -> (r: Result<(), String>)
        ensures
            emits(*old(self).code, *final(self).code, if F::double() { inst::frsqrte_d(rd.num(), rn.num()) } else { inst::frsqrte_s(rd.num(), rn.num()) }, r is Ok),
            r is Err ==> r->Err_0@ == full_message(),
            *final(final(self).code) == *final(old(self).code),
    {
        self.emit(if F::double() { inst::frsqrte_d(rd.index(), rn.index()) } else { inst::frsqrte_s(rd.index(), rn.index()) })
    }

    /// `FRSQRTS(Fd, Fn, Fm)`, scalar form.
    pub fn frsqrts_fp<F: ScalarFp>(&mut self, rd: F, rn: F, rm: F) -> (r: Result<(), String>)
        ensures
            emits(*old(self).code, *final(self).code, if F::double() { inst::frsqrts_d(rd.num(), rn.num(), rm.num()) } else { inst::frsqrts_s(rd.num(), rn.num(), rm.num()) }, r is Ok),
            r is Err ==> r->Err_0@ == full_message(),
            *final(final(self).code) == *final(old(self).code),
    {
        self.emit(if F::double() { inst::frsqrts_d(rd.index(), rn.index(), rm.index()) } else { inst::frsqrts_s(rd.index(), rn.index(), rm.index()) })
    }

    /// `FRINTX(Fd, Fn)`, scalar form.
    pub fn frintx_fp<F: ScalarFp>(&mut self, rd: F, rn: F) -> (r: Result<(), String>)
        ensures
            emits(*old(self).code, *final(self).code, if F::double() { inst::frintx_d(rd.num(), rn.num()) } else { inst::frintx_s(rd.num(), rn.num()) }, r is Ok),
            r is Err ==> r->Err_0@ == full_message(),
            *final(final(self).code) == *final(old(self).code),
    {
        self.emit(if F::double() { inst::frintx_d(rd.index(), rn.index()) } else { inst::frintx_s(rd.index(), rn.index()) })
    }

    /// `FRINTN(Fd, Fn)`, scalar form.
    pub fn frintn_fp<F: ScalarFp>(&mut self, rd: F, rn: F) -> (r: Result<(), String>)
        ensures
            emits(*old(self).code, *final(self).code, if F::double() { inst::frintn_d(rd.num(), rn.num()) } else { inst::frintn_s(rd.num(), rn.num()) }, r is Ok),
            r is Err ==> r->Err_0@ == full_message(),
            *final(final(self).code) == *final(old(self).code),
    {
        self.emit(if F::double() { inst::frintn_d(rd.index(), rn.index()) } else { inst::frintn_s(rd.index(), rn.index()) })
    }

    /// `FRINTP(Fd, Fn)`, scalar form.
    pub fn frintp_fp<F: ScalarFp>(&mut self, rd: F, rn: F) -> (r: Result<(), String>)
        ensures
            emits(*old(self).code, *final(self).code, if F::double() { inst::frintp_d(rd.num(), rn.num()) } else { inst::frintp_s(rd.num(), rn.num()) }, r is Ok),
            r is Err ==> r->Err_0@ == full_message(),
            *final(final(self).code) == *final(old(self).code),
    {
        self.emit(if F::double() { inst::frintp_d(rd.index(), rn.index()) } else { inst::frintp_s(rd.index(), rn.index()) })
    }

    /// `FRINTM(Fd, Fn)`, scalar form.
    pub fn frintm_fp<F: ScalarFp>(&mut self, rd: F, rn: F) -> (r: Result<(), String>)
        ensures
            emits(*old(self).code, *final(self).code, if F::double() { inst::frintm_d(rd.num(), rn.num()) } else { inst::frintm_s(rd.num(), rn.num()) }, r is Ok),
            r is Err ==> r->Err_0@ == full_message(),
            *final(final(self).code) == *final(old(self).code),
    {
        self.emit(if F::double() { inst::frintm_d(rd.index(), rn.index()) } else { inst::frintm_s(rd.index(), rn.index()) })
    }

    /// `FRINTZ(Fd, Fn)`, scalar form.
    pub fn frintz_fp<F: ScalarFp>(&mut self, rd: F, rn: F) -> (r: Result<(), String>)
        ensures
            emits(*old(self).code, *final(self).code, if F::double() { inst::frintz_d(rd.num(), rn.num()) } else { inst::frintz_s(rd.num(), rn.num()) }, r is Ok),
            r is Err ==> r->Err_0@ == full_message(),
            *final(final(self).code) == *final(old(self).code),
    {
        self.emit(if F::double() { inst::frintz_d(rd.index(), rn.index()) } else { inst::frintz_s(rd.index(), rn.index()) })
    }

    /// `FRINTA(Fd, Fn)`, scalar form.
    pub fn frinta_fp<F: ScalarFp>(&mut self, rd: F, rn: F) -> (r: Result<(), String>)
        ensures
            emits(*old(self).code, *final(self).code, if F::double() { inst::frinta_d(rd.num(), rn.num()) } else { inst::frinta_s(rd.num(), rn.num()) }, r is Ok),
            r is Err ==> r->Err_0@ == full_message(),
            *final(final(self).code) == *final(old(self).code),
    {
        self.emit(if F::double() { inst::frinta_d(rd.index(), rn.index()) } else { inst::frinta_s(rd.index(), rn.index()) })
    }

    /// `FSQRT(Fd, Fn)`, scalar form.
    pub fn fsqrt_fp<F: ScalarFp>(&mut self, rd: F, rn: F) -> (r: Result<(), String>)
        ensures
            emits(*old(self).code, *final(self).code, if F::double() { inst::fsqrt_d(rd.num(), rn.num()) } else { inst::fsqrt_s(rd.num(), rn.num()) }, r is Ok),
            r is Err ==> r->Err_0@ == full_message(),
            *final(final(self).code) == *final(old(self).code),
    {
        self.emit(if F::double() { inst::fsqrt_d(rd.index(), rn.index()) } else { inst::fsqrt_s(rd.index(), rn.index()) })
    }

    /// `FCVT(Dd, Sn)`, scalar form.
    pub fn fcvt_d_from_s_fp(&mut self, rd: DReg, rn: SReg) -> (r: Result<(), String>)
        ensures
            emits(*old(self).code, *final(self).code, inst::fcvt_d_from_s(rd.num(), rn.num()), r is Ok),
            r is Err ==> r->Err_0@ == full_message(),
            *final(final(self).code) == *final(old(self).code),
    {
        self.emit(inst::fcvt_d_from_s(rd.index(), rn.index()))
    }

    /// `FCVT(Sd, Hn)`, scalar form.
    pub fn fcvt_s_from_h_fp(&mut self, rd: SReg, rn: HReg) -> (r: Result<(), String>)
        ensures
            emits(*old(self).code, *final(self).code, inst::fcvt_s_from_h(rd.num(), rn.num()), r is Ok),
            r is Err ==> r->Err_0@ == full_message(),
            *final(final(self).code) == *final(old(self).code),
    {
        self.emit(inst::fcvt_s_from_h(rd.index(), rn.index()))
    }

    /// `FCVT(Dd, Hn)`, scalar form.
    pub fn fcvt_d_from_h_fp(&mut self, rd: DReg, rn: HReg) -> (r: Result<(), String>)
        ensures
            emits(*old(self).code, *final(self).code, inst::fcvt_d_from_h(rd.num(), rn.num()), r is Ok),
            r is Err ==> r->Err_0@ == full_message(),
            *final(final(self).code) == *final(old(self).code),
    {
        self.emit(inst::fcvt_d_from_h(rd.index(), rn.index()))
    }

    /// `FCVT(Hd, Sn)`, scalar form.
    pub fn fcvt_h_from_s_fp(&mut self, rd: HReg, rn: SReg) -> (r: Result<(), String>)
        ensures
            emits(*old(self).code, *final(self).code, inst::fcvt_h_from_s(rd.num(), rn.num()), r is Ok),
            r is Err ==> r->Err_0@ == full_message(),
            *final(final(self).code) == *final(old(self).code),
    {
        self.emit(inst::fcvt_h_from_s(rd.index(), rn.index()))
    }

    /// `FCVT(Hd, Dn)`, scalar form.
    pub fn fcvt_h_from_d_fp(&mut self, rd: HReg, rn: DReg) -> (r: Result<(), String>)
        ensures
            emits(*old(self).code, *final(self).code, inst::fcvt_h_from_d(rd.num(), rn.num()), r is Ok),
            r is Err ==> r->Err_0@ == full_message(),
            *final(final(self).code) == *final(old(self).code),
    {
        self.emit(inst::fcvt_h_from_d(rd.index(), rn.index()))
    }

    /// `FCVTXN(Sd, Dn)`, scalar form.
    pub fn fcvtxn_s_from_d_fp(&mut self, rd: SReg, rn: DReg) -> (r: Result<(), String>)
        ensures
            emits(*old(self).code, *final(self).code, inst::fcvtxn_s_from_d(rd.num(), rn.num()), r is Ok),
            r is Err ==> r->Err_0@ == full_message(),
            *final(final(self).code) == *final(old(self).code),
    {
        self.emit(inst::fcvtxn_s_from_d(rd.index(), rn.index()))
    }

    /// `FCVT(Sd, Dn)`, scalar form.
    pub fn fcvt_s_from_d_fp(&mut self, rd: SReg, rn: DReg) -> (r: Result<(), String>)
        ensures
            emits(*old(self).code, *final(self).code, inst::fcvt_s_from_d(rd.num(), rn.num()), r is Ok),
            r is Err ==> r->Err_0@ == full_message(),
            *final(final(self).code) == *final(old(self).code),
    {
        self.emit(inst::fcvt_s_from_d(rd.index(), rn.index()))
    }
}

} // verus!
