use vstd::prelude::*;
use vstd::string::StringSliceAdditionalSpecFns;
use crate::error::HelperError;
use crate::translate::{describe_status, first_nul, has_nul, translated};

verus! {

/// True when `s` can be handed to the native library as a NUL-terminated
/// string: its bytes hold no NUL.
pub open spec fn c_text_ok(s: &str) -> bool {
    !has_nul(s.spec_bytes())
}

/// Checks that `s` has a C form; fails with an encoding error otherwise.
pub fn check_c_text(s: &str) -> (r: Result<(), HelperError>)
    ensures
        r is Ok <==> c_text_ok(s),
        r matches Err(e) ==> e is EncodingFailed,
{
    match first_nul(s.as_bytes()) {
        Some(_) => Err(HelperError::EncodingFailed),
        None => Ok(()),
    }
}

/// Checks the option name and value before the native option call is made:
/// an encoding error when either holds a NUL byte.
pub fn check_option_text(name: &str, val: &str) -> (r: Result<(), HelperError>)
    ensures
        r is Ok <==> c_text_ok(name) && c_text_ok(val),
        r matches Err(e) ==> e is EncodingFailed,
{
    check_c_text(name)?;
    check_c_text(val)
}

/// Outcome of the native option call that returned `code`: success on zero,
/// otherwise the translated error labelled `set_option`. `lookup_status` and
/// `buf` are the description lookup's result for `code`.
pub fn set_option_result(code: i32, lookup_status: i32, buf: &[u8]) -> (r: Result<(), HelperError>)
    ensures
        r is Ok <==> code == 0,
        r matches Err(e) ==> translated(e, "set_option"@, code, lookup_status, buf@),
{
    if code != 0 {
        return Err(describe_status("set_option", code, lookup_status, buf));
    }
    Ok(())
}

/// Outcome of the native make-writable call that returned `code`: success
/// unless it is negative, otherwise the translated error labelled
/// `av_frame_make`.
pub fn make_writable_result(code: i32, lookup_status: i32, buf: &[u8]) -> (r: Result<(), HelperError>)
    ensures
        r is Ok <==> code >= 0,
        r matches Err(e) ==> translated(e, "av_frame_make"@, code, lookup_status, buf@),
{
    if code < 0 {
        return Err(describe_status("av_frame_make", code, lookup_status, buf));
    }
    Ok(())
}

} // verus!
