//! Exit statuses of the command-line tool.

use vstd::prelude::*;

verus! {

/// How a run ended. `status` gives the number handed to the shell.
#[derive(Debug, Clone, Copy, PartialEq, Eq, Structural)]
pub enum DtCode {
    Success,
    MissingArg,
    BadArg,
    IoReadFail,
    ElfParse,
}

impl DtCode {
    /// The exit status that stands for this outcome.
    pub open spec fn spec_status(self) -> int {
        match self {
            DtCode::Success => 0,
            DtCode::MissingArg => -1,
            DtCode::BadArg => -2,
            DtCode::IoReadFail => -3,
            DtCode::ElfParse => -4,
        }
    }

    /// The exit status that stands for this outcome: zero for success, a
    /// distinct negative number for each failure.
    pub fn status(self) -> (r: i32)
        ensures
            r == self.spec_status(),
    {
        match self {
            DtCode::Success => 0,
            DtCode::MissingArg => -1,
            DtCode::BadArg => -2,
            DtCode::IoReadFail => -3,
            DtCode::ElfParse => -4,
        }
    }
}

} // verus!
