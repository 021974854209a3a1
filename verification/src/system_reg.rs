//! System register names for `MRS`/`MSR`, limited to the registers the
//! encoders cover.

use vstd::prelude::*;

verus! {

/// A system register operand of `MRS`/`MSR`.
#[derive(Clone, Copy, Debug, PartialEq, Eq, Structural, Hash)]
pub enum SystemReg {
    FPCR,
    FPSR,
    NZCV,
}

} // verus!
