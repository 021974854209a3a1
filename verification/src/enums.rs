//! Operand enumerations for `MRS`/`MSR` and the barrier instructions.

use vstd::prelude::*;

verus! {

/// The system registers `MRS`/`MSR` cover.
#[derive(Clone, Copy, Debug, PartialEq, Eq, Structural, Hash)]
pub enum SystemReg {
    FPCR,
    FPSR,
    NZCV,
}

/// `DMB`/`DSB` option.
#[derive(Clone, Copy, Debug, PartialEq, Eq, Structural, Hash)]
pub enum BarrierOp {
    OSHLD,
    OSHST,
    OSH,
    NSHLD,
    NSHST,
    NSH,
    ISHLD,
    ISHST,
    ISH,
    LD,
    ST,
    SY,
}

impl BarrierOp {
    /// The instruction's `CRm` field.
    pub open spec fn crm_value(self) -> u8 {
        match self {
            BarrierOp::OSHLD => 0b0001,
            BarrierOp::OSHST => 0b0010,
            BarrierOp::OSH => 0b0011,
            BarrierOp::NSHLD => 0b0101,
            BarrierOp::NSHST => 0b0110,
            BarrierOp::NSH => 0b0111,
            BarrierOp::ISHLD => 0b1001,
            BarrierOp::ISHST => 0b1010,
            BarrierOp::ISH => 0b1011,
            BarrierOp::LD => 0b1101,
            BarrierOp::ST => 0b1110,
            BarrierOp::SY => 0b1111,
        }
    }

    /// The instruction's `CRm` field.
    pub fn crm(self) -> (r: u8)
        ensures
            r == self.crm_value(),
            r < 16,
    {
        match self {
            BarrierOp::OSHLD => 0b0001,
            BarrierOp::OSHST => 0b0010,
            BarrierOp::OSH => 0b0011,
            BarrierOp::NSHLD => 0b0101,
            BarrierOp::NSHST => 0b0110,
            BarrierOp::NSH => 0b0111,
            BarrierOp::ISHLD => 0b1001,
            BarrierOp::ISHST => 0b1010,
            BarrierOp::ISH => 0b1011,
            BarrierOp::LD => 0b1101,
            BarrierOp::ST => 0b1110,
            BarrierOp::SY => 0b1111,
        }
    }
}

/// A barrier option's `CRm` names what it orders and how far: the low two
/// bits select the accesses (01 loads, 10 stores, 11 all) and the high two
/// the shareability domain (00 outer shareable, 01 non-shareable, 10 inner
/// shareable, 11 full system). So `*LD` options order loads only, `*ST`
/// options stores only, and the `OSH*`, `NSH*`, `ISH*` families and the
/// plain `LD`/`ST`/`SY` options each share one domain.
pub proof fn lemma_barrier_option_fields(op: BarrierOp)
    ensures
        op.crm_value() < 16,
        op.crm_value() % 4 == 1 <==> (op == BarrierOp::OSHLD || op == BarrierOp::NSHLD || op
            == BarrierOp::ISHLD || op == BarrierOp::LD),
        op.crm_value() % 4 == 2 <==> (op == BarrierOp::OSHST || op == BarrierOp::NSHST || op
            == BarrierOp::ISHST || op == BarrierOp::ST),
        op.crm_value() % 4 == 3 <==> (op == BarrierOp::OSH || op == BarrierOp::NSH || op
            == BarrierOp::ISH || op == BarrierOp::SY),
        op.crm_value() / 4 == 0 <==> (op == BarrierOp::OSHLD || op == BarrierOp::OSHST || op
            == BarrierOp::OSH),
        op.crm_value() / 4 == 1 <==> (op == BarrierOp::NSHLD || op == BarrierOp::NSHST || op
            == BarrierOp::NSH),
        op.crm_value() / 4 == 2 <==> (op == BarrierOp::ISHLD || op == BarrierOp::ISHST || op
            == BarrierOp::ISH),
        op.crm_value() / 4 == 3 <==> (op == BarrierOp::LD || op == BarrierOp::ST || op
            == BarrierOp::SY),
{
}


} // verus!
