use vstd::prelude::*;

verus! {

/// Status code that a TA-Lib routine returns.
#[derive(Debug, Clone, Copy, PartialEq, Eq, Structural)]
pub enum RetCode {
    Success,
    LibNotInitialize,
    BadParam,
    AllocErr,
    GroupNotFound,
    FuncNotFound,
    InvalidHandle,
    InvalidParamHolder,
    InvalidParamHolderType,
    InvalidParamFunction,
    InputNotAllInitialize,
    OutputNotAllInitialize,
    OutOfRangeStartIndex,
    OutOfRangeEndIndex,
    InvalidListType,
    BadObject,
    NotSupported,
    InternalError,
    UnknownErr,
    /// A code that TA-Lib does not define.
    Unrecognized(i32),
}

/// The integer by which TA-Lib's C interface reports each status.
pub open spec fn code_of(r: RetCode) -> i32 {
    match r {
        RetCode::Success => 0,
        RetCode::LibNotInitialize => 1,
        RetCode::BadParam => 2,
        RetCode::AllocErr => 3,
        RetCode::GroupNotFound => 4,
        RetCode::FuncNotFound => 5,
        RetCode::InvalidHandle => 6,
        RetCode::InvalidParamHolder => 7,
        RetCode::InvalidParamHolderType => 8,
        RetCode::InvalidParamFunction => 9,
        RetCode::InputNotAllInitialize => 10,
        RetCode::OutputNotAllInitialize => 11,
        RetCode::OutOfRangeStartIndex => 12,
        RetCode::OutOfRangeEndIndex => 13,
        RetCode::InvalidListType => 14,
        RetCode::BadObject => 15,
        RetCode::NotSupported => 16,
        RetCode::InternalError => 5000,
        RetCode::UnknownErr => 0xFFFF,
        RetCode::Unrecognized(c) => c,
    }
}

/// Whether TA-Lib gives the code a status of its own.
pub open spec fn is_defined_code(c: i32) -> bool {
    (0 <= c <= 16) || c == 5000 || c == 0xFFFF
}

/// The status that a raw code stands for.
pub open spec fn status_of(c: i32) -> RetCode {
    if c == 0 { RetCode::Success }
    else if c == 1 { RetCode::LibNotInitialize }
    else if c == 2 { RetCode::BadParam }
    else if c == 3 { RetCode::AllocErr }
    else if c == 4 { RetCode::GroupNotFound }
    else if c == 5 { RetCode::FuncNotFound }
    else if c == 6 { RetCode::InvalidHandle }
    else if c == 7 { RetCode::InvalidParamHolder }
    else if c == 8 { RetCode::InvalidParamHolderType }
    else if c == 9 { RetCode::InvalidParamFunction }
    else if c == 10 { RetCode::InputNotAllInitialize }
    else if c == 11 { RetCode::OutputNotAllInitialize }
    else if c == 12 { RetCode::OutOfRangeStartIndex }
    else if c == 13 { RetCode::OutOfRangeEndIndex }
    else if c == 14 { RetCode::InvalidListType }
    else if c == 15 { RetCode::BadObject }
    else if c == 16 { RetCode::NotSupported }
    else if c == 5000 { RetCode::InternalError }
    else if c == 0xFFFF { RetCode::UnknownErr }
    else { RetCode::Unrecognized(c) }
}

/// Reading a code and writing it back gives the code again, and a well-formed
/// status is the one its own code is read as: the two are inverse.
pub proof fn lemma_code_round_trip(c: i32, r: RetCode)
    requires
        r.wf(),
    ensures
        code_of(status_of(c)) == c,
        status_of(c).wf(),
        status_of(code_of(r)) == r,
{
}

/// The name that TA-Lib's headers give each status.
pub open spec fn name_of(r: RetCode) -> Seq<char> {
    match r {
        RetCode::Success => "TA_SUCCESS"@,
        RetCode::LibNotInitialize => "TA_LIB_NOT_INITIALIZE"@,
        RetCode::BadParam => "TA_BAD_PARAM"@,
        RetCode::AllocErr => "TA_ALLOC_ERR"@,
        RetCode::GroupNotFound => "TA_GROUP_NOT_FOUND"@,
        RetCode::FuncNotFound => "TA_FUNC_NOT_FOUND"@,
        RetCode::InvalidHandle => "TA_INVALID_HANDLE"@,
        RetCode::InvalidParamHolder => "TA_INVALID_PARAM_HOLDER"@,
        RetCode::InvalidParamHolderType => "TA_INVALID_PARAM_HOLDER_TYPE"@,
        RetCode::InvalidParamFunction => "TA_INVALID_PARAM_FUNCTION"@,
        RetCode::InputNotAllInitialize => "TA_INPUT_NOT_ALL_INITIALIZE"@,
        RetCode::OutputNotAllInitialize => "TA_OUTPUT_NOT_ALL_INITIALIZE"@,
        RetCode::OutOfRangeStartIndex => "TA_OUT_OF_RANGE_START_INDEX"@,
        RetCode::OutOfRangeEndIndex => "TA_OUT_OF_RANGE_END_INDEX"@,
        RetCode::InvalidListType => "TA_INVALID_LIST_TYPE"@,
        RetCode::BadObject => "TA_BAD_OBJECT"@,
        RetCode::NotSupported => "TA_NOT_SUPPORTED"@,
        RetCode::InternalError => "TA_INTERNAL_ERROR"@,
        RetCode::UnknownErr => "TA_UNKNOWN_ERR"@,
        RetCode::Unrecognized(_) => "unrecognized status"@,
    }
}

impl RetCode {
    /// An `Unrecognized` status carries a code that no named status owns.
    pub open spec fn wf(self) -> bool {
        self matches RetCode::Unrecognized(c) ==> !is_defined_code(c)
    }

    /// Reads a raw status code.
    pub fn from_code(c: i32) -> (r: RetCode)
        ensures
            r == status_of(c),
    {
        match c {
            0 => RetCode::Success,
            1 => RetCode::LibNotInitialize,
            2 => RetCode::BadParam,
            3 => RetCode::AllocErr,
            4 => RetCode::GroupNotFound,
            5 => RetCode::FuncNotFound,
            6 => RetCode::InvalidHandle,
            7 => RetCode::InvalidParamHolder,
            8 => RetCode::InvalidParamHolderType,
            9 => RetCode::InvalidParamFunction,
            10 => RetCode::InputNotAllInitialize,
            11 => RetCode::OutputNotAllInitialize,
            12 => RetCode::OutOfRangeStartIndex,
            13 => RetCode::OutOfRangeEndIndex,
            14 => RetCode::InvalidListType,
            15 => RetCode::BadObject,
            16 => RetCode::NotSupported,
            5000 => RetCode::InternalError,
            0xFFFF => RetCode::UnknownErr,
            _ => RetCode::Unrecognized(c),
        }
    }

    /// The raw code of this status.
    pub fn code(&self) -> (c: i32)
        ensures
            c == code_of(*self),
    {
        match self {
            RetCode::Success => 0,
            RetCode::LibNotInitialize => 1,
            RetCode::BadParam => 2,
            RetCode::AllocErr => 3,
            RetCode::GroupNotFound => 4,
            RetCode::FuncNotFound => 5,
            RetCode::InvalidHandle => 6,
            RetCode::InvalidParamHolder => 7,
            RetCode::InvalidParamHolderType => 8,
            RetCode::InvalidParamFunction => 9,
            RetCode::InputNotAllInitialize => 10,
            RetCode::OutputNotAllInitialize => 11,
            RetCode::OutOfRangeStartIndex => 12,
            RetCode::OutOfRangeEndIndex => 13,
            RetCode::InvalidListType => 14,
            RetCode::BadObject => 15,
            RetCode::NotSupported => 16,
            RetCode::InternalError => 5000,
            RetCode::UnknownErr => 0xFFFF,
            RetCode::Unrecognized(c) => *c,
        }
    }

    /// The name of this status, as TA-Lib's headers spell it.
    pub fn name(&self) -> (n: &'static str)
        ensures
            n@ == name_of(*self),
    {
        match self {
            RetCode::Success => "TA_SUCCESS",
            RetCode::LibNotInitialize => "TA_LIB_NOT_INITIALIZE",
            RetCode::BadParam => "TA_BAD_PARAM",
            RetCode::AllocErr => "TA_ALLOC_ERR",
            RetCode::GroupNotFound => "TA_GROUP_NOT_FOUND",
            RetCode::FuncNotFound => "TA_FUNC_NOT_FOUND",
            RetCode::InvalidHandle => "TA_INVALID_HANDLE",
            RetCode::InvalidParamHolder => "TA_INVALID_PARAM_HOLDER",
            RetCode::InvalidParamHolderType => "TA_INVALID_PARAM_HOLDER_TYPE",
            RetCode::InvalidParamFunction => "TA_INVALID_PARAM_FUNCTION",
            RetCode::InputNotAllInitialize => "TA_INPUT_NOT_ALL_INITIALIZE",
            RetCode::OutputNotAllInitialize => "TA_OUTPUT_NOT_ALL_INITIALIZE",
            RetCode::OutOfRangeStartIndex => "TA_OUT_OF_RANGE_START_INDEX",
            RetCode::OutOfRangeEndIndex => "TA_OUT_OF_RANGE_END_INDEX",
            RetCode::InvalidListType => "TA_INVALID_LIST_TYPE",
            RetCode::BadObject => "TA_BAD_OBJECT",
            RetCode::NotSupported => "TA_NOT_SUPPORTED",
            RetCode::InternalError => "TA_INTERNAL_ERROR",
            RetCode::UnknownErr => "TA_UNKNOWN_ERR",
            RetCode::Unrecognized(_) => "unrecognized status",
        }
    }
}

} // verus!
