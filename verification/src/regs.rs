//! Plain register numbers and system register encodings for code that
//! patches raw instruction words.

use vstd::prelude::*;

verus! {

/// 64-bit general-purpose register number (`XZR` is 31).
#[derive(Clone, Copy, PartialEq, Eq, Structural, Debug)]
pub struct XReg(pub u8);

/// 32-bit general-purpose register number (`WZR` is 31).
#[derive(Clone, Copy, PartialEq, Eq, Structural, Debug)]
pub struct WReg(pub u8);

/// 128-bit SIMD/FP register number.
#[derive(Clone, Copy, PartialEq, Eq, Structural, Debug)]
pub struct QReg(pub u8);

impl XReg {
    /// The register number.
    pub fn index(self) -> (r: usize)
        ensures
            r == self.0,
    {
        self.0 as usize
    }
}

impl WReg {
    /// The register number.
    pub fn index(self) -> (r: usize)
        ensures
            r == self.0,
    {
        self.0 as usize
    }
}

impl QReg {
    /// The register number.
    pub fn index(self) -> (r: usize)
        ensures
            r == self.0,
    {
        self.0 as usize
    }
}

/// The `op0:op1:CRn:CRm:op2` encoding packed into 16 bits, as `MRS`/`MSR`
/// carry it in bits [20:5].
pub open spec fn sysreg_bits(op0: nat, op1: nat, crn: nat, crm: nat, op2: nat) -> nat {
    op0 * 0x4000 + op1 * 0x800 + crn * 0x80 + crm * 0x8 + op2
}

/// AArch64 system registers used by code patching.
#[derive(Clone, Copy, PartialEq, Eq, Structural, Debug)]
pub enum SystemReg {
    /// TPIDR_EL0, the user read/write TLS register: 3,3,13,0,2
    TpidrEl0,
    /// TPIDRRO_EL0, the user read-only TLS register: 3,3,13,0,3
    TpidrroEl0,
    /// NZCV, the condition flags: 3,3,4,2,0
    Nzcv,
    /// FPSR, the floating-point status: 3,3,4,4,1
    Fpsr,
    /// FPCR, the floating-point control: 3,3,4,4,0
    Fpcr,
    /// CNTVCT_EL0, the virtual counter: 3,3,14,0,2
    CntvctEl0,
}

impl SystemReg {
    /// The `op0:op1:CRn:CRm:op2` encoding.
    pub open spec fn fields(self) -> nat {
        match self {
            SystemReg::TpidrEl0 => sysreg_bits(3, 3, 13, 0, 2),
            SystemReg::TpidrroEl0 => sysreg_bits(3, 3, 13, 0, 3),
            SystemReg::Nzcv => sysreg_bits(3, 3, 4, 2, 0),
            SystemReg::Fpsr => sysreg_bits(3, 3, 4, 4, 1),
            SystemReg::Fpcr => sysreg_bits(3, 3, 4, 4, 0),
            SystemReg::CntvctEl0 => sysreg_bits(3, 3, 14, 0, 2),
        }
    }

    /// The packed `op0:op1:CRn:CRm:op2` encoding used in `MRS`/`MSR`.
    pub fn encoding(self) -> (r: u32)
        ensures
            r == self.fields(),
    {
        match self {
            SystemReg::TpidrEl0 => 0b11_011_1101_0000_010,
            SystemReg::TpidrroEl0 => 0b11_011_1101_0000_011,
            SystemReg::Nzcv => 0b11_011_0100_0010_000,
            SystemReg::Fpsr => 0b11_011_0100_0100_001,
            SystemReg::Fpcr => 0b11_011_0100_0100_000,
            SystemReg::CntvctEl0 => 0b11_011_1110_0000_010,
        }
    }
}

} // verus!
