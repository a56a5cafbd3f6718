use vstd::prelude::*;

verus! {

/// The catalog of error codes that a zero-length wire word can select: the
/// `offset` field of such a word picks one of these.
#[derive(Copy, Clone, Debug, PartialEq, Eq, Structural)]
pub enum RibosomeReturnCode {
    Success,
    Failure,
    ArgumentDeserializationFailed,
    OutOfMemory,
    ReceivedWrongActionResult,
}

/// The code selected by a given offset. Offset 0 selects `Success` even
/// though it travels on the error channel — a quirk of the wire format that
/// downstream callers rely on, kept here deliberately. Every selector outside
/// the catalog falls back to the generic `Failure`.
pub open spec fn code_for_offset(offset: u16) -> RibosomeReturnCode {
    if offset == 0 {
        RibosomeReturnCode::Success
    } else if offset == 1 {
        RibosomeReturnCode::Failure
    } else if offset == 2 {
        RibosomeReturnCode::ArgumentDeserializationFailed
    } else if offset == 3 {
        RibosomeReturnCode::OutOfMemory
    } else if offset == 4 {
        RibosomeReturnCode::ReceivedWrongActionResult
    } else {
        RibosomeReturnCode::Failure
    }
}

impl RibosomeReturnCode {
    /// Looks an offset up in the catalog.
    pub fn from_offset(offset: u16) -> (code: Self)
        ensures
            code == code_for_offset(offset),
    {
        match offset {
            0 => RibosomeReturnCode::Success,
            1 => RibosomeReturnCode::Failure,
            2 => RibosomeReturnCode::ArgumentDeserializationFailed,
            3 => RibosomeReturnCode::OutOfMemory,
            4 => RibosomeReturnCode::ReceivedWrongActionResult,
            _ => RibosomeReturnCode::Failure,
        }
    }
}

} // verus!
