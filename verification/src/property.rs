//! The shapes that every property and method of a native object follows.
//!
//! A native call returns a status and writes what it has to say through
//! out-parameters. What crosses the boundary is limited to a few kinds of
//! value, and each kind is marshalled in one way, whatever the property:
//! scalars pass as they are, booleans are 32-bit integers of which every
//! value but zero means true, text is a wide string, and an object is an
//! interface pointer. The functions here are those ways. An out-parameter
//! counts only when the status reports success.

use crate::handle::{InterfaceHandle, RefOp};
use crate::status::{check_hresult, checked, Error, E_FAIL, E_INVALIDARG};
use crate::wide::{decode_utf16, encode_utf16, WideString};
use vstd::prelude::*;

verus! {

/// The native form of a boolean: one for true, zero for false.
pub open spec fn native_bool(value: bool) -> i32 {
    if value {
        1
    } else {
        0
    }
}

/// The boolean that a native integer stands for: every value but zero is
/// true.
pub open spec fn host_bool(raw: i32) -> bool {
    raw != 0
}

/// Reads a scalar property, or the token that names a newly registered
/// event handler: the value that was written, where the status reports
/// success, else the error of the status.
pub fn get<T>(status: i32, value: T) -> (result: Result<T, Error>)
    ensures
        result == match checked(status) {
            Ok(_) => Ok(value),
            Err(e) => Err(e),
        },
{
    match check_hresult(status) {
        Ok(_) => Ok(value),
        Err(e) => Err(e),
    }
}

/// Ends a call that writes a scalar property, or that returns nothing but
/// its status: the checked status.
pub fn put(status: i32) -> (result: Result<(), Error>)
    ensures
        result == checked(status),
{
    check_hresult(status)
}

/// Reads a boolean property: true for every written value but zero, where
/// the status reports success, else the error of the status.
pub fn get_bool(status: i32, raw: i32) -> (result: Result<bool, Error>)
    ensures
        result == match checked(status) {
            Ok(_) => Ok(host_bool(raw)),
            Err(e) => Err(e),
        },
{
    match check_hresult(status) {
        Ok(_) => Ok(raw != 0),
        Err(e) => Err(e),
    }
}

/// Gives the native form of a boolean that is to be written.
pub fn put_bool(enabled: bool) -> (raw: i32)
    ensures
        raw == native_bool(enabled),
{
    if enabled {
        1
    } else {
        0
    }
}

/// Reads a text property from the units that the native side returned,
/// without their terminator. A status that reports failure gives its error
/// and the units are not looked at. Units that are not well-formed UTF-16
/// give the unspecified failure, whatever was wrong with them. Else the
/// text is what the units decode to.
pub fn get_string(status: i32, units: &[u16]) -> (result: Result<String, Error>)
    ensures
        status < 0 ==> (result matches Err(e) && e.hresult == status),
        status >= 0 && decode_utf16(units@) is None ==> (result matches Err(e) && e.hresult
            == E_FAIL),
        status >= 0 && decode_utf16(units@) is Some ==> (result matches Ok(text) && Some(text@)
            == decode_utf16(units@)),
{
    match check_hresult(status) {
        Ok(_) => WideString::decode(units),
        Err(e) => Err(e),
    }
}

/// Encodes text that is to be written or passed as an argument. Text with
/// a zero character gives the invalid-argument status, and no native call
/// is to be made.
pub fn put_string(text: &str) -> (result: Result<WideString, Error>)
    ensures
        result is Ok <==> !text@.contains('\0'),
        result matches Ok(wide) ==> wide@ == encode_utf16(text@),
        result matches Err(e) ==> e.hresult == E_INVALIDARG,
{
    WideString::from_str(text)
}

/// Encodes two texts that are passed together. The first text with a zero
/// character decides; both failures give the invalid-argument status.
pub fn put_string_pair(first: &str, second: &str) -> (result: Result<
    (WideString, WideString),
    Error,
>)
    ensures
        result is Ok <==> !first@.contains('\0') && !second@.contains('\0'),
        result matches Ok(pair) ==> pair.0@ == encode_utf16(first@) && pair.1@ == encode_utf16(
            second@,
        ),
        result matches Err(e) ==> e.hresult == E_INVALIDARG,
{
    let first_wide = match WideString::from_str(first) {
        Ok(wide) => wide,
        Err(e) => {
            return Err(e);
        },
    };
    match WideString::from_str(second) {
        Ok(second_wide) => Ok((first_wide, second_wide)),
        Err(e) => Err(e),
    }
}

/// Reads an object property: a handle that takes over the pointer that was
/// written, which carries a reference for the caller, where the status
/// reports success; else the error of the status. The count of the object
/// is left as it is.
pub fn get_interface(status: i32, pointer: usize) -> (result: Result<
    (InterfaceHandle, RefOp),
    Error,
>)
    requires
        status >= 0 ==> pointer != 0,
    ensures
        status < 0 ==> (result matches Err(e) && e.hresult == status),
        status >= 0 ==> (result matches Ok(made) && made.0@ == pointer && made.1
            == InterfaceHandle::wrap_owning_op()),
{
    match check_hresult(status) {
        Ok(_) => Ok(InterfaceHandle::wrap_owning(pointer)),
        Err(e) => Err(e),
    }
}

/// Gives the pointer of an object that is to be written or passed as an
/// argument. The native side borrows it: the handle is used up, and no
/// reference changes hands.
pub fn put_interface(handle: InterfaceHandle) -> (lent: (usize, RefOp))
    ensures
        lent.0 == handle@,
        lent.0 != 0,
        lent.1 == InterfaceHandle::lend_op(),
{
    handle.into_borrowed()
}

/// A boolean that is written and read back is the same boolean.
pub proof fn lemma_bool_round_trip(value: bool)
    ensures
        host_bool(native_bool(value)) == value,
{
}

} // verus!
