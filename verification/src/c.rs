//! Integer types and status conventions shared with the C library.
use vstd::prelude::*;

verus! {

/// A plain status: zero means success.
pub type Error = cty::c_int;

pub type BitError = cty::c_uint;
pub type BitError8 = cty::uint8_t;
pub type BitError16 = cty::uint16_t;
pub type BitError32 = cty::uint32_t;
pub type BitError64 = cty::uint64_t;

/// A status code: zero means success, any other value names the failure.
pub type CodeError = cty::c_int;
pub type CodeError32 = cty::int32_t;
pub type CodeError64 = cty::int64_t;

pub type BitFlag = cty::c_uint;
pub type BitFlag8 = cty::uint8_t;
pub type BitFlag16 = cty::uint16_t;
pub type BitFlag32 = cty::uint32_t;
pub type BitFlag64 = cty::uint64_t;

/// What a plain status reports: `Ok` exactly when it is zero.
pub open spec fn spec_error_result(err: Error) -> Result<(), ()> {
    if err == 0 { Ok(()) } else { Err(()) }
}

/// Turns a plain status into a `Result`: zero is success, anything else failure.
pub fn error_result(err: Error) -> (r: Result<(), ()>)
    ensures
        r == spec_error_result(err),
{
    if err == 0 { Ok(()) } else { Err(()) }
}

/// What a status code reports: `Ok` exactly when it is zero, else the code itself.
pub open spec fn spec_code_result(code: CodeError) -> Result<(), CodeError> {
    if code == 0 { Ok(()) } else { Err(code) }
}

/// Turns a status code into a `Result`: zero is success, any other code is the error.
pub fn code_result(code: CodeError) -> (r: Result<(), CodeError>)
    ensures
        r == spec_code_result(code),
{
    if code == 0 { Ok(()) } else { Err(code) }
}

/// A plain status reports success exactly when it is zero.
pub proof fn lemma_error_result(err: Error)
    ensures
        spec_error_result(err) is Ok <==> err == 0,
        spec_error_result(err) is Err <==> err != 0,
{
}

/// A status code reports success exactly when it is zero, and any other code
/// comes back unchanged as the error, so distinct codes give distinct results.
pub proof fn lemma_code_result(code: CodeError, other: CodeError)
    ensures
        spec_code_result(code) is Ok <==> code == 0,
        spec_code_result(code) matches Err(e) ==> e == code,
        code != 0 ==> spec_code_result(code) == Err::<(), CodeError>(code),
        code != other ==> spec_code_result(code) != spec_code_result(other),
{
}

} // verus!
