//! AArch64 condition codes.
//!
//! The variants are declared in the order of their architectural 4-bit
//! encoding, `EQ` = 0 through `NV` = 15.

use vstd::prelude::*;

verus! {

/// A condition code.
#[derive(Debug, Clone, Copy, PartialEq, Eq, Structural, Hash)]
pub enum Cond {
    EQ,
    NE,
    CS,
    CC,
    MI,
    PL,
    VS,
    VC,
    HI,
    LS,
    GE,
    LT,
    GT,
    LE,
    AL,
    NV,
}

impl Cond {
    /// `HS` is another name for `CS`.
    pub const HS: Cond = Cond::CS;

    /// `LO` is another name for `CC`.
    pub const LO: Cond = Cond::CC;

    /// The architectural 4-bit encoding.
    pub open spec fn value(self) -> u8 {
        match self {
            Cond::EQ => 0,
            Cond::NE => 1,
            Cond::CS => 2,
            Cond::CC => 3,
            Cond::MI => 4,
            Cond::PL => 5,
            Cond::VS => 6,
            Cond::VC => 7,
            Cond::HI => 8,
            Cond::LS => 9,
            Cond::GE => 10,
            Cond::LT => 11,
            Cond::GT => 12,
            Cond::LE => 13,
            Cond::AL => 14,
            Cond::NV => 15,
        }
    }

    /// The condition with encoding `val` (0..16).
    pub open spec fn of_value(val: u8) -> Cond {
        match val {
            0 => Cond::EQ,
            1 => Cond::NE,
            2 => Cond::CS,
            3 => Cond::CC,
            4 => Cond::MI,
            5 => Cond::PL,
            6 => Cond::VS,
            7 => Cond::VC,
            8 => Cond::HI,
            9 => Cond::LS,
            10 => Cond::GE,
            11 => Cond::LT,
            12 => Cond::GT,
            13 => Cond::LE,
            14 => Cond::AL,
            _ => Cond::NV,
        }
    }

    /// The architectural 4-bit encoding.
    pub fn to_u8(self) -> (r: u8)
        ensures
            r == self.value(),
            r < 16,
    {
        match self {
            Cond::EQ => 0,
            Cond::NE => 1,
            Cond::CS => 2,
            Cond::CC => 3,
            Cond::MI => 4,
            Cond::PL => 5,
            Cond::VS => 6,
            Cond::VC => 7,
            Cond::HI => 8,
            Cond::LS => 9,
            Cond::GE => 10,
            Cond::LT => 11,
            Cond::GT => 12,
            Cond::LE => 13,
            Cond::AL => 14,
            Cond::NV => 15,
        }
    }

    /// The opposite condition: the one whose encoding differs in the low bit.
    pub open spec fn inverted(self) -> Cond {
        Cond::of_value(
            if self.value() % 2 == 0 {
                (self.value() + 1) as u8
            } else {
                (self.value() - 1) as u8
            },
        )
    }

    /// The opposite condition.
    pub fn invert(self) -> (r: Cond)
        ensures
            r == self.inverted(),
    {
        Cond::from_u8(if self.to_u8() % 2 == 0 {
            self.to_u8() + 1
        } else {
            self.to_u8() - 1
        })
    }

    /// The condition whose encoding is the low four bits of `val`.
    pub fn from_u8(val: u8) -> (r: Cond)
        ensures
            r.value() == val % 16,
            r == Cond::of_value(val % 16),
    {
        match val % 16 {
            0 => Cond::EQ,
            1 => Cond::NE,
            2 => Cond::CS,
            3 => Cond::CC,
            4 => Cond::MI,
            5 => Cond::PL,
            6 => Cond::VS,
            7 => Cond::VC,
            8 => Cond::HI,
            9 => Cond::LS,
            10 => Cond::GE,
            11 => Cond::LT,
            12 => Cond::GT,
            13 => Cond::LE,
            14 => Cond::AL,
            _ => Cond::NV,
        }
    }

    /// The assembler spelling, in lower case.
    pub fn name(self) -> (r: &'static str)
        ensures
            r@ == match self {
                Cond::EQ => "eq"@,
                Cond::NE => "ne"@,
                Cond::CS => "cs"@,
                Cond::CC => "cc"@,
                Cond::MI => "mi"@,
                Cond::PL => "pl"@,
                Cond::VS => "vs"@,
                Cond::VC => "vc"@,
                Cond::HI => "hi"@,
                Cond::LS => "ls"@,
                Cond::GE => "ge"@,
                Cond::LT => "lt"@,
                Cond::GT => "gt"@,
                Cond::LE => "le"@,
                Cond::AL => "al"@,
                Cond::NV => "nv"@,
            },
    {
        match self {
            Cond::EQ => "eq",
            Cond::NE => "ne",
            Cond::CS => "cs",
            Cond::CC => "cc",
            Cond::MI => "mi",
            Cond::PL => "pl",
            Cond::VS => "vs",
            Cond::VC => "vc",
            Cond::HI => "hi",
            Cond::LS => "ls",
            Cond::GE => "ge",
            Cond::LT => "lt",
            Cond::GT => "gt",
            Cond::LE => "le",
            Cond::AL => "al",
            Cond::NV => "nv",
        }
    }
}

/// Each condition is determined by its encoding.
pub proof fn lemma_value_determines_cond(c: Cond)
    ensures
        c.value() < 16,
        Cond::of_value(c.value()) == c,
{
}

/// Inverting twice gives the condition back, and no condition is its own
/// inverse.
pub proof fn lemma_invert_involution(c: Cond)
    ensures
        c.inverted().inverted() == c,
        c.inverted() != c,
{
}

/// A condition's encoding names its test: bits [3:1] pick the flag test
/// (`EQ`/`NE` on Z, `CS`/`CC` on C, `MI`/`PL` on N, `VS`/`VC` on V, then
/// `HI`/`LS`, `GE`/`LT`, `GT`/`LE`, `AL`/`NV`) and bit 0 is clear for the
/// first of each pair and set for its negation.
pub proof fn lemma_cond_encoding(c: Cond)
    ensures
        c.value() / 2 == 0 <==> (c == Cond::EQ || c == Cond::NE),
        c.value() / 2 == 1 <==> (c == Cond::CS || c == Cond::CC),
        c.value() / 2 == 2 <==> (c == Cond::MI || c == Cond::PL),
        c.value() / 2 == 3 <==> (c == Cond::VS || c == Cond::VC),
        c.value() / 2 == 4 <==> (c == Cond::HI || c == Cond::LS),
        c.value() / 2 == 5 <==> (c == Cond::GE || c == Cond::LT),
        c.value() / 2 == 6 <==> (c == Cond::GT || c == Cond::LE),
        c.value() / 2 == 7 <==> (c == Cond::AL || c == Cond::NV),
        c.value() % 2 == 0 <==> (c == Cond::EQ || c == Cond::CS || c == Cond::MI || c == Cond::VS || c == Cond::HI || c == Cond::GE || c == Cond::GT || c == Cond::AL),
{
}

} // verus!
