//! Return codes as the host sees them: a name on this side, a number on
//! the other.

use vstd::prelude::*;
use vstd::std_specs::convert::FromSpecImpl;

verus! {

/// What a call reports to the host.
#[allow(non_camel_case_types)]
#[derive(Clone, Copy, Debug, PartialEq, Eq, Structural)]
pub enum RetCode {
    OK,
    PREVENT,
    FAILED,
    CANCELLED,
    E_INVALID_ARGUMENT,
    E_INVALID_IMAGE,
    E_INVALID_OBJECT,
    E_INVALID_TYPE,
    E_INVALID_TRANSACTION,
    E_INVALID_SQL,
    E_INVALID_DATA,
    E_INVALID_DATAOBJECT,
    E_INVALID_HANDLE,
    E_OUT_OF_BOUND,
    E_OUT_OF_RANGE,
    E_OUT_OF_MEMORY,
    E_FILE_NOT_FOUND,
    E_OBJECT_NOT_FOUND,
    E_DATA_NOT_FOUND,
    E_FUNCTION_NOT_FOUND,
    E_EVENT_NOT_FOUND,
    E_MEMBER_NOT_FOUND,
    E_VAR_NOT_FOUND,
    E_NOT_EXISTS,
    E_BUSY,
    E_TIME_OUT,
    E_ACCESS_DENIED,
    E_WIN32_ERROR,
    E_INTERNAL_ERROR,
    E_DB_ERROR,
    E_HTTP_ERROR,
    E_WINHTTP_ERROR,
    E_IO_ERROR,
    E_SQL_BIND_ARG_FAILED,
    E_RETRY,
    E_NO_SUPPORT,
    E_NO_IMPLEMENTATION,
    UNKNOWN,
}

/// Why a value of the host is no return code.
#[derive(Clone, Copy, Debug, PartialEq, Eq, Structural)]
pub enum RetCodeError {
    /// No value was passed.
    WrongNumArgs,
    /// The number stands for no code.
    Unknown(i32),
}

impl RetCode {
    /// The number that stands for the code.
    pub open spec fn code(self) -> int {
        match self {
            RetCode::OK => 0,
            RetCode::PREVENT => 1,
            RetCode::FAILED => -1,
            RetCode::CANCELLED => -2,
            RetCode::E_INVALID_ARGUMENT => -3,
            RetCode::E_INVALID_IMAGE => -4,
            RetCode::E_INVALID_OBJECT => -5,
            RetCode::E_INVALID_TYPE => -6,
            RetCode::E_INVALID_TRANSACTION => -7,
            RetCode::E_INVALID_SQL => -8,
            RetCode::E_INVALID_DATA => -9,
            RetCode::E_INVALID_DATAOBJECT => -10,
            RetCode::E_INVALID_HANDLE => -11,
            RetCode::E_OUT_OF_BOUND => -12,
            RetCode::E_OUT_OF_RANGE => -13,
            RetCode::E_OUT_OF_MEMORY => -14,
            RetCode::E_FILE_NOT_FOUND => -15,
            RetCode::E_OBJECT_NOT_FOUND => -16,
            RetCode::E_DATA_NOT_FOUND => -17,
            RetCode::E_FUNCTION_NOT_FOUND => -18,
            RetCode::E_EVENT_NOT_FOUND => -19,
            RetCode::E_MEMBER_NOT_FOUND => -20,
            RetCode::E_VAR_NOT_FOUND => -21,
            RetCode::E_NOT_EXISTS => -22,
            RetCode::E_BUSY => -23,
            RetCode::E_TIME_OUT => -24,
            RetCode::E_ACCESS_DENIED => -25,
            RetCode::E_WIN32_ERROR => -26,
            RetCode::E_INTERNAL_ERROR => -27,
            RetCode::E_DB_ERROR => -28,
            RetCode::E_HTTP_ERROR => -29,
            RetCode::E_WINHTTP_ERROR => -30,
            RetCode::E_IO_ERROR => -31,
            RetCode::E_SQL_BIND_ARG_FAILED => -32,
            RetCode::E_RETRY => -33,
            RetCode::E_NO_SUPPORT => -2000,
            RetCode::E_NO_IMPLEMENTATION => -2001,
            RetCode::UNKNOWN => -4000,
        }
    }

    /// The code that `value` stands for, if it stands for one.
    pub open spec fn of(value: i32) -> Option<RetCode> {
        match value {
            0 => Some(RetCode::OK),
            1 => Some(RetCode::PREVENT),
            -1 => Some(RetCode::FAILED),
            -2 => Some(RetCode::CANCELLED),
            -3 => Some(RetCode::E_INVALID_ARGUMENT),
            -4 => Some(RetCode::E_INVALID_IMAGE),
            -5 => Some(RetCode::E_INVALID_OBJECT),
            -6 => Some(RetCode::E_INVALID_TYPE),
            -7 => Some(RetCode::E_INVALID_TRANSACTION),
            -8 => Some(RetCode::E_INVALID_SQL),
            -9 => Some(RetCode::E_INVALID_DATA),
            -10 => Some(RetCode::E_INVALID_DATAOBJECT),
            -11 => Some(RetCode::E_INVALID_HANDLE),
            -12 => Some(RetCode::E_OUT_OF_BOUND),
            -13 => Some(RetCode::E_OUT_OF_RANGE),
            -14 => Some(RetCode::E_OUT_OF_MEMORY),
            -15 => Some(RetCode::E_FILE_NOT_FOUND),
            -16 => Some(RetCode::E_OBJECT_NOT_FOUND),
            -17 => Some(RetCode::E_DATA_NOT_FOUND),
            -18 => Some(RetCode::E_FUNCTION_NOT_FOUND),
            -19 => Some(RetCode::E_EVENT_NOT_FOUND),
            -20 => Some(RetCode::E_MEMBER_NOT_FOUND),
            -21 => Some(RetCode::E_VAR_NOT_FOUND),
            -22 => Some(RetCode::E_NOT_EXISTS),
            -23 => Some(RetCode::E_BUSY),
            -24 => Some(RetCode::E_TIME_OUT),
            -25 => Some(RetCode::E_ACCESS_DENIED),
            -26 => Some(RetCode::E_WIN32_ERROR),
            -27 => Some(RetCode::E_INTERNAL_ERROR),
            -28 => Some(RetCode::E_DB_ERROR),
            -29 => Some(RetCode::E_HTTP_ERROR),
            -30 => Some(RetCode::E_WINHTTP_ERROR),
            -31 => Some(RetCode::E_IO_ERROR),
            -32 => Some(RetCode::E_SQL_BIND_ARG_FAILED),
            -33 => Some(RetCode::E_RETRY),
            -2000 => Some(RetCode::E_NO_SUPPORT),
            -2001 => Some(RetCode::E_NO_IMPLEMENTATION),
            -4000 => Some(RetCode::UNKNOWN),
            _ => None,
        }
    }

    /// The number that stands for the code.
    pub fn to_value(self) -> (r: i32)
        ensures
            r == self.code(),
    {
        match self {
            RetCode::OK => 0,
            RetCode::PREVENT => 1,
            RetCode::FAILED => -1,
            RetCode::CANCELLED => -2,
            RetCode::E_INVALID_ARGUMENT => -3,
            RetCode::E_INVALID_IMAGE => -4,
            RetCode::E_INVALID_OBJECT => -5,
            RetCode::E_INVALID_TYPE => -6,
            RetCode::E_INVALID_TRANSACTION => -7,
            RetCode::E_INVALID_SQL => -8,
            RetCode::E_INVALID_DATA => -9,
            RetCode::E_INVALID_DATAOBJECT => -10,
            RetCode::E_INVALID_HANDLE => -11,
            RetCode::E_OUT_OF_BOUND => -12,
            RetCode::E_OUT_OF_RANGE => -13,
            RetCode::E_OUT_OF_MEMORY => -14,
            RetCode::E_FILE_NOT_FOUND => -15,
            RetCode::E_OBJECT_NOT_FOUND => -16,
            RetCode::E_DATA_NOT_FOUND => -17,
            RetCode::E_FUNCTION_NOT_FOUND => -18,
            RetCode::E_EVENT_NOT_FOUND => -19,
            RetCode::E_MEMBER_NOT_FOUND => -20,
            RetCode::E_VAR_NOT_FOUND => -21,
            RetCode::E_NOT_EXISTS => -22,
            RetCode::E_BUSY => -23,
            RetCode::E_TIME_OUT => -24,
            RetCode::E_ACCESS_DENIED => -25,
            RetCode::E_WIN32_ERROR => -26,
            RetCode::E_INTERNAL_ERROR => -27,
            RetCode::E_DB_ERROR => -28,
            RetCode::E_HTTP_ERROR => -29,
            RetCode::E_WINHTTP_ERROR => -30,
            RetCode::E_IO_ERROR => -31,
            RetCode::E_SQL_BIND_ARG_FAILED => -32,
            RetCode::E_RETRY => -33,
            RetCode::E_NO_SUPPORT => -2000,
            RetCode::E_NO_IMPLEMENTATION => -2001,
            RetCode::UNKNOWN => -4000,
        }
    }

    /// The code that the host passed. No value at all is an error; a null
    /// value counts as 0; a number that stands for no code is an error.
    pub fn from_value(val: Option<Option<i32>>) -> (r: Result<RetCode, RetCodeError>)
        ensures
            r == match val {
                None => Err::<RetCode, RetCodeError>(RetCodeError::WrongNumArgs),
                Some(None) => Ok::<RetCode, RetCodeError>(RetCode::OK),
                Some(Some(value)) => match RetCode::of(value) {
                    Some(code) => Ok::<RetCode, RetCodeError>(code),
                    None => Err::<RetCode, RetCodeError>(RetCodeError::Unknown(value)),
                },
            },
    {
        match val {
            None => Err(RetCodeError::WrongNumArgs),
            Some(None) => Ok(RetCode::OK),
            Some(Some(value)) => match RetCode::lookup(value) {
                Some(code) => Ok(code),
                None => Err(RetCodeError::Unknown(value)),
            },
        }
    }

    /// The code that `value` stands for, if it stands for one.
    pub fn lookup(value: i32) -> (r: Option<RetCode>)
        ensures
            r == RetCode::of(value),
    {
        match value {
            0 => Some(RetCode::OK),
            1 => Some(RetCode::PREVENT),
            -1 => Some(RetCode::FAILED),
            -2 => Some(RetCode::CANCELLED),
            -3 => Some(RetCode::E_INVALID_ARGUMENT),
            -4 => Some(RetCode::E_INVALID_IMAGE),
            -5 => Some(RetCode::E_INVALID_OBJECT),
            -6 => Some(RetCode::E_INVALID_TYPE),
            -7 => Some(RetCode::E_INVALID_TRANSACTION),
            -8 => Some(RetCode::E_INVALID_SQL),
            -9 => Some(RetCode::E_INVALID_DATA),
            -10 => Some(RetCode::E_INVALID_DATAOBJECT),
            -11 => Some(RetCode::E_INVALID_HANDLE),
            -12 => Some(RetCode::E_OUT_OF_BOUND),
            -13 => Some(RetCode::E_OUT_OF_RANGE),
            -14 => Some(RetCode::E_OUT_OF_MEMORY),
            -15 => Some(RetCode::E_FILE_NOT_FOUND),
            -16 => Some(RetCode::E_OBJECT_NOT_FOUND),
            -17 => Some(RetCode::E_DATA_NOT_FOUND),
            -18 => Some(RetCode::E_FUNCTION_NOT_FOUND),
            -19 => Some(RetCode::E_EVENT_NOT_FOUND),
            -20 => Some(RetCode::E_MEMBER_NOT_FOUND),
            -21 => Some(RetCode::E_VAR_NOT_FOUND),
            -22 => Some(RetCode::E_NOT_EXISTS),
            -23 => Some(RetCode::E_BUSY),
            -24 => Some(RetCode::E_TIME_OUT),
            -25 => Some(RetCode::E_ACCESS_DENIED),
            -26 => Some(RetCode::E_WIN32_ERROR),
            -27 => Some(RetCode::E_INTERNAL_ERROR),
            -28 => Some(RetCode::E_DB_ERROR),
            -29 => Some(RetCode::E_HTTP_ERROR),
            -30 => Some(RetCode::E_WINHTTP_ERROR),
            -31 => Some(RetCode::E_IO_ERROR),
            -32 => Some(RetCode::E_SQL_BIND_ARG_FAILED),
            -33 => Some(RetCode::E_RETRY),
            -2000 => Some(RetCode::E_NO_SUPPORT),
            -2001 => Some(RetCode::E_NO_IMPLEMENTATION),
            -4000 => Some(RetCode::UNKNOWN),
            _ => None,
        }
    }

    /// A number that stands for a code stands for one code only, and every
    /// code is found again by its number.
    pub proof fn lemma_code_round_trip(code: RetCode, value: i32)
        ensures
            i32::MIN <= code.code() <= i32::MAX,
            forall|number: i32| number == code.code() ==> RetCode::of(number) == Some(code),
            RetCode::of(value) matches Some(found) ==> found.code() == value,
    {
    }
}

impl<T, E> From<Result<T, E>> for RetCode {
    /// `OK` for a success, `FAILED` for an error.
    fn from(res: Result<T, E>) -> (r: RetCode) {
        match res {
            Ok(_) => RetCode::OK,
            Err(_) => RetCode::FAILED,
        }
    }
}

impl<T, E> FromSpecImpl<Result<T, E>> for RetCode {
    open spec fn obeys_from_spec() -> bool {
        true
    }

    open spec fn from_spec(res: Result<T, E>) -> RetCode {
        match res {
            Ok(_) => RetCode::OK,
            Err(_) => RetCode::FAILED,
        }
    }
}

} // verus!
