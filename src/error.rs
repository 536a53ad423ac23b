use vstd::prelude::*;

verus! {

/// Status code of a successful host call.
pub const S_OK: i32 = 0;

/// `E_INVALIDARG`: a bad selection count or a malformed range.
pub const E_INVALIDARG: i32 = -2147024809;

/// `HRESULT_FROM_WIN32(ERROR_NOT_FOUND)`: a missing element or observer.
pub const E_NOT_FOUND: i32 = -2147023728;

/// `TS_E_NOLAYOUT`: no layout is available yet; the host retries later.
pub const TS_E_NOLAYOUT: i32 = -2147220986;

/// `E_NOTIMPL`: a deliberately unsupported feature.
pub const E_NOTIMPL: i32 = -2147467263;

/// `E_FAIL`: a generic failure.
pub const E_FAIL: i32 = -2147467259;

/// The failures that the adapter reports to the host.
#[derive(Clone, Copy, Debug, PartialEq, Eq, Structural)]
pub enum TsError {
    InvalidArgument,
    NotFound,
    NoLayoutAvailable,
    NotImplemented,
    InternalFailure,
}

/// The status code that stands for each error.
pub open spec fn code_of(e: TsError) -> i32 {
    match e {
        TsError::InvalidArgument => E_INVALIDARG,
        TsError::NotFound => E_NOT_FOUND,
        TsError::NoLayoutAvailable => TS_E_NOLAYOUT,
        TsError::NotImplemented => E_NOTIMPL,
        TsError::InternalFailure => E_FAIL,
    }
}

/// The error that a failing status code stands for; codes of no other
/// error are internal failures.
pub open spec fn error_of_code(code: i32) -> TsError {
    if code == E_INVALIDARG {
        TsError::InvalidArgument
    } else if code == E_NOT_FOUND {
        TsError::NotFound
    } else if code == TS_E_NOLAYOUT {
        TsError::NoLayoutAvailable
    } else if code == E_NOTIMPL {
        TsError::NotImplemented
    } else {
        TsError::InternalFailure
    }
}

impl TsError {
    /// The status code handed back to the host for this error.
    pub fn code(self) -> (r: i32)
        ensures
            r == code_of(self),
            r < 0,
    {
        match self {
            TsError::InvalidArgument => E_INVALIDARG,
            TsError::NotFound => E_NOT_FOUND,
            TsError::NoLayoutAvailable => TS_E_NOLAYOUT,
            TsError::NotImplemented => E_NOTIMPL,
            TsError::InternalFailure => E_FAIL,
        }
    }

    /// The error for a status code that a host call failed with.
    pub fn from_code(code: i32) -> (r: TsError)
        ensures
            r == error_of_code(code),
    {
        if code == E_INVALIDARG {
            TsError::InvalidArgument
        } else if code == E_NOT_FOUND {
            TsError::NotFound
        } else if code == TS_E_NOLAYOUT {
            TsError::NoLayoutAvailable
        } else if code == E_NOTIMPL {
            TsError::NotImplemented
        } else {
            TsError::InternalFailure
        }
    }
}

/// Converting an error to its code and back gives the same error.
pub proof fn lemma_code_round_trip(e: TsError)
    ensures
        error_of_code(code_of(e)) == e,
        code_of(e) < 0,
{
}

} // verus!
