use vstd::prelude::*;
use vstd::string::*;

use crate::status::{RetCode, name_of};

verus! {

/// Why an indicator could not be computed.
#[derive(Debug, Clone, Copy, PartialEq, Eq, Structural)]
pub enum ErrorKind {
    /// The TA-Lib routine returned a status other than success.
    Status(RetCode),
    /// The period does not fit the C `int` that TA-Lib takes.
    PeriodOutOfRange,
    /// The input is too long for its last index to fit a C `int`.
    InputTooLong,
    /// The routine reported a first index or a count that the output buffer
    /// cannot hold.
    OutputOutOfRange,
}

/// The error of a failed indicator computation.
#[derive(Debug, Clone, Copy, PartialEq, Eq, Structural)]
pub struct Error {
    pub kind: ErrorKind,
}

/// The text that describes an error of the given kind.
pub open spec fn message_of(kind: ErrorKind) -> Seq<char> {
    match kind {
        ErrorKind::Status(r) => "could not compute function; error: "@ + name_of(r),
        ErrorKind::PeriodOutOfRange => "period does not fit a C int"@,
        ErrorKind::InputTooLong => "input is too long for a C int index"@,
        ErrorKind::OutputOutOfRange => "routine reported an output range beyond its buffer"@,
    }
}

impl Error {
    /// A description of the error, naming the TA-Lib status where there is one.
    pub fn message(&self) -> (m: String)
        ensures
            m@ == message_of(self.kind),
    {
        match self.kind {
            ErrorKind::Status(r) => String::from_str("could not compute function; error: ").concat(
                r.name(),
            ),
            ErrorKind::PeriodOutOfRange => String::from_str("period does not fit a C int"),
            ErrorKind::InputTooLong => String::from_str("input is too long for a C int index"),
            ErrorKind::OutputOutOfRange => String::from_str(
                "routine reported an output range beyond its buffer",
            ),
        }
    }
}

} // verus!
