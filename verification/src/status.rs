//! Native status codes (`HRESULT`) and the error type built on them.
//!
//! A status is a signed 32-bit value. Its top bit tells failure from
//! success, the bits below name a facility, and the low 16 bits carry a
//! code of that facility. Every call across the native boundary answers
//! with a status; [`check_hresult`] turns one into a `Result` and
//! [`to_hresult`] turns a `Result` back into one.

use vstd::prelude::*;

verus! {

/// The canonical success status.
pub const S_OK: i32 = 0;

/// Unspecified failure (`0x80004005`).
pub const E_FAIL: i32 = -2147467259;

/// One or more arguments are invalid (`0x80070057`).
pub const E_INVALIDARG: i32 = -2147024809;

/// Severity value of a failure status.
pub const SEVERITY_ERROR: i32 = 1;

/// Facility of the statuses that carry an operating-system error code.
pub const FACILITY_WIN32: i32 = 7;

/// The failure status of the operating-system facility with code zero
/// (`0x80070000`). The statuses of that facility are this value plus a code
/// below `0x10000`.
pub const WIN32_FAILURE_BASE: i32 = -2147024896;

/// A status reports success exactly when it is not negative.
pub open spec fn succeeded_spec(hresult: i32) -> bool {
    hresult >= 0
}

/// Tells whether a status reports success.
#[verifier::when_used_as_spec(succeeded_spec)]
pub fn succeeded(hresult: i32) -> (ok: bool)
    ensures
        ok == succeeded_spec(hresult),
{
    hresult >= 0
}

/// A status is not negative exactly when its top bit, the failure bit, is
/// clear.
pub proof fn lemma_success_is_clear_failure_bit(hresult: i32)
    ensures
        succeeded(hresult) <==> (hresult as u32) & 0x8000_0000u32 == 0,
{
    assert(hresult >= 0 <==> (hresult as u32) & 0x8000_0000u32 == 0) by (bit_vector);
}

/// The low 16 bits of a status: the code within its facility.
pub open spec fn hresult_code_spec(hresult: i32) -> int {
    (hresult as int) % 0x1_0000
}

/// Extracts the code of a status, its low 16 bits.
pub fn hresult_code(hresult: i32) -> (code: i32)
    ensures
        code == hresult_code_spec(hresult),
        0 <= code <= 0xFFFF,
{
    let code = hresult & 0xFFFF;
    assert(0 <= hresult & 0xFFFF <= 0xFFFF) by (bit_vector);
    assert((hresult & 0xFFFF) as int == (hresult as int) % 0x1_0000) by (bit_vector);
    code
}

/// The bit pattern that [`make_hresult`] assembles.
pub open spec fn make_hresult_spec(severity: i32, facility: i32, code: i32) -> i32 {
    (severity << 31u32) | (facility << 16u32) | code
}

/// Assembles a status from a severity, a facility and a code: the severity
/// goes to bit 31, the facility to the bits from 16 up, the code to the low
/// bits. For fields within their ranges the status is the sum of the three
/// parts.
pub fn make_hresult(severity: i32, facility: i32, code: i32) -> (hresult: i32)
    ensures
        hresult == make_hresult_spec(severity, facility, code),
        0 <= severity <= 1 && 0 <= facility < 0x8000 && 0 <= code < 0x1_0000 ==> hresult
            == facility * 0x1_0000 + code - severity * 0x8000_0000,
{
    let hresult = (severity << 31u32) | (facility << 16u32) | code;
    assert(0 <= severity <= 1 && 0 <= facility < 0x8000 && 0 <= code < 0x1_0000 ==> ((severity
        << 31u32) | (facility << 16u32) | code) as int == facility * 0x1_0000 + code - severity
        * 0x8000_0000) by (bit_vector);
    hresult
}

/// The status that stands for an operating-system error code: zero and
/// codes with the top bit set stand for themselves, read as a signed value;
/// any other code is cut to 16 bits and placed in the operating-system
/// facility.
pub open spec fn hresult_from_win32_spec(code: u32) -> int {
    if code == 0 {
        0
    } else if code >= 0x8000_0000 {
        code - 0x1_0000_0000
    } else {
        WIN32_FAILURE_BASE + code % 0x1_0000
    }
}

/// Maps an operating-system error code to a status.
pub fn hresult_from_win32(code: u32) -> (hresult: i32)
    ensures
        hresult == hresult_from_win32_spec(code),
{
    let signed = code as i32;
    assert(code >= 0x8000_0000 ==> (code as i32) as int == code - 0x1_0000_0000) by (bit_vector);
    assert(code < 0x8000_0000 ==> (code as i32) as int == code as int) by (bit_vector);
    if signed <= 0 {
        signed
    } else {
        let bits = (code & 0x0000_FFFFu32) | 0x8007_0000u32;
        assert((((code & 0x0000_FFFFu32) | 0x8007_0000u32) as i32) as int == -2147024896 + (code
            % 0x1_0000u32) as int) by (bit_vector);
        bits as i32
    }
}

/// The status of an error that came with the raw operating-system code
/// `code`, or without one.
pub open spec fn status_of_os_error(code: Option<i32>) -> int {
    match code {
        Some(c) => if c <= 0 {
            c as int
        } else {
            WIN32_FAILURE_BASE + c % 0x1_0000
        },
        None => E_FAIL as int,
    }
}

/// Tells whether a status belongs to the operating-system facility with the
/// failure bit set: its upper 16 bits are `0x8007`.
pub open spec fn is_win32_failure(hresult: i32) -> bool {
    WIN32_FAILURE_BASE <= hresult <= WIN32_FAILURE_BASE + 0xFFFF
}

/// An error of the binding. It wraps one status and nothing else; two errors
/// are equal exactly when their statuses are.
#[derive(Debug, PartialEq, Eq, Structural)]
pub struct Error {
    /// The status that the error wraps.
    pub hresult: i32,
}

/// What an input/output error is made of when an [`Error`] is reported
/// through the host's input/output error type.
#[derive(Debug, PartialEq, Eq, Structural)]
pub enum IoErrorSource {
    /// An operating-system error with this raw code.
    Os { code: i32 },
    /// An error of no particular kind that carries the binding's error.
    Other { error: Error },
}

impl Error {
    /// Wraps a status.
    pub fn new(hresult: i32) -> (error: Self)
        ensures
            error.hresult == hresult,
    {
        Self { hresult }
    }

    /// The wrapped status.
    pub fn hresult(&self) -> (hresult: i32)
        ensures
            hresult == self.hresult,
    {
        self.hresult
    }

    /// The error that stands for an operating-system failure.
    pub open spec fn of_os_error(code: Option<i32>) -> Error {
        Error { hresult: status_of_os_error(code) as i32 }
    }

    /// The error for a failure that the operating system reported: with a
    /// raw code, the status that [`hresult_from_win32`] gives it; without
    /// one, the unspecified failure.
    pub fn from_raw_os_error(code: Option<i32>) -> (error: Self)
        ensures
            error == Self::of_os_error(code),
    {
        match code {
            Some(c) => {
                let bits = c as u32;
                assert((c as u32) == 0 <==> c == 0) by (bit_vector);
                assert((c as u32) >= 0x8000_0000u32 <==> c < 0) by (bit_vector);
                assert(c < 0 ==> (c as u32) as int - 0x1_0000_0000 == c as int) by (bit_vector);
                assert(c > 0 ==> ((c as u32) % 0x1_0000u32) as int == (c as int) % 0x1_0000)
                    by (bit_vector);
                Self { hresult: hresult_from_win32(bits) }
            },
            None => Self { hresult: E_FAIL },
        }
    }

    /// What the error becomes as an input/output error.
    pub open spec fn io_source(self) -> IoErrorSource {
        if is_win32_failure(self.hresult) {
            IoErrorSource::Os { code: (self.hresult - WIN32_FAILURE_BASE) as i32 }
        } else {
            IoErrorSource::Other { error: self }
        }
    }

    /// Classifies the error for the host's input/output error type: a
    /// failure status of the operating-system facility gives back the raw
    /// operating-system code, its low 16 bits; any other status stays as it
    /// is, inside an error of no particular kind.
    pub fn into_io_error(self) -> (source: IoErrorSource)
        ensures
            source == self.io_source(),
    {
        let hresult = self.hresult;
        let facility_bits = hresult & -65536i32;
        let pattern = make_hresult(SEVERITY_ERROR, FACILITY_WIN32, 0);
        assert((hresult & -65536i32) == -2147024896i32 <==> -2147024896i32 <= hresult
            <= -2147024896i32 + 0xFFFFi32) by (bit_vector);
        if facility_bits == pattern {
            let code = hresult_code(hresult);
            IoErrorSource::Os { code }
        } else {
            IoErrorSource::Other { error: self }
        }
    }

    /// The text of the error: a fixed phrase, then the status as an
    /// unsigned number in upper-case hexadecimal after `0x`.
    pub open spec fn message(self) -> Seq<char> {
        "webview2 error, HRESULT 0x"@ + hex_digits(unsigned_bits(self.hresult))
    }

    /// Renders the error as text.
    pub fn to_string(&self) -> (text: String)
        ensures
            text@ == self.message(),
    {
        let prefix = "webview2 error, HRESULT 0x";
        let mut chars: Vec<char> = Vec::new();
        let n = prefix.unicode_len();
        let mut i: usize = 0;
        while i < n
            invariant
                n == prefix@.len(),
                i <= n,
                chars@ == prefix@.subrange(0, i as int),
            decreases n - i,
        {
            chars.push(prefix.get_char(i));
            i += 1;
        }
        assert(chars@ == prefix@);
        let bits = self.hresult as u32;
        assert((self.hresult as u32) as nat == unsigned_bits(self.hresult)) by {
            let h = self.hresult;
            assert(h >= 0 ==> (h as u32) as int == h as int) by (bit_vector);
            assert(h < 0 ==> (h as u32) as int == h as int + 0x1_0000_0000) by (bit_vector);
        }
        push_hex(bits, &mut chars);
        string_from_chars(chars)
    }
}

/// A status read as an unsigned 32-bit number.
pub open spec fn unsigned_bits(hresult: i32) -> nat {
    if hresult >= 0 {
        hresult as nat
    } else {
        (hresult + 0x1_0000_0000) as nat
    }
}

/// The upper-case hexadecimal digit of a value below 16.
pub open spec fn hex_digit(value: nat) -> char {
    if value < 10 {
        (48 + value) as char
    } else {
        (55 + value) as char
    }
}

/// The upper-case hexadecimal digits of a number, most significant first,
/// without leading zeros; zero is the single digit `0`.
pub open spec fn hex_digits(n: nat) -> Seq<char>
    decreases n,
{
    if n < 16 {
        seq![hex_digit(n)]
    } else {
        hex_digits(n / 16).push(hex_digit(n % 16))
    }
}

/// The digit of a value below 16.
fn hex_char(value: u32) -> (c: char)
    requires
        value < 16,
    ensures
        c == hex_digit(value as nat),
{
    let byte: u8 = if value < 10 {
        48u8 + (value as u8)
    } else {
        55u8 + (value as u8)
    };
    byte as char
}

/// Appends the digits of a number to a text.
fn push_hex(n: u32, out: &mut Vec<char>)
    ensures
        final(out)@ == old(out)@ + hex_digits(n as nat),
    decreases n,
{
    if n >= 16 {
        push_hex(n / 16, out);
    }
    out.push(hex_char(n % 16));
}

/// Collects characters into a `String` with `String::from_iter`: the string
/// holds the characters of the vector, in order.
#[verifier::external_body]
fn string_from_chars(chars: Vec<char>) -> (text: String)
    ensures
        text@ == chars@,
{
    String::from_iter(chars)
}

/// What checking a status gives: success for a status that reports
/// success, else the error that wraps the very same status.
pub open spec fn checked(hresult: i32) -> Result<(), Error> {
    if succeeded(hresult) {
        Ok(())
    } else {
        Err(Error { hresult })
    }
}

/// Checks a status: `Ok` exactly when it reports success, else the error
/// that wraps the very same status.
pub fn check_hresult(hresult: i32) -> (result: Result<(), Error>)
    ensures
        result is Ok <==> succeeded(hresult),
        result matches Err(e) ==> e.hresult == hresult,
        result == checked(hresult),
{
    if succeeded(hresult) {
        Ok(())
    } else {
        Err(Error { hresult })
    }
}

/// The status that stands for a result when it crosses back to native code.
pub open spec fn status_of<T>(result: Result<T, Error>) -> i32 {
    match result {
        Ok(_) => S_OK,
        Err(e) => e.hresult,
    }
}

/// Turns a result into a status: success becomes the canonical success
/// status, an error the status that it wraps.
pub fn to_hresult<T>(result: Result<T, Error>) -> (hresult: i32)
    ensures
        hresult == status_of(result),
{
    match result {
        Ok(_) => S_OK,
        Err(e) => e.hresult,
    }
}

/// A failure status survives being checked and turned back into a status;
/// a success status comes back as the canonical one.
pub proof fn lemma_check_then_status(hresult: i32)
    ensures
        status_of(checked(hresult)) == if succeeded(hresult) {
            S_OK
        } else {
            hresult
        },
        succeeded(status_of(checked(hresult))) <==> succeeded(hresult),
{
}

/// A result survives being turned into a status and checked: success stays
/// success, and an error that wraps a failure status comes back as it was.
pub proof fn lemma_status_then_check(result: Result<(), Error>)
    requires
        result matches Err(e) ==> !succeeded(e.hresult),
    ensures
        checked(status_of(result)) == result,
{
    match result {
        Ok(unit) => {
            assert(unit == ());
        },
        Err(e) => {
            assert(e == Error { hresult: e.hresult });
        },
    }
}

/// An operating-system error code between 1 and `0xFFFF` comes back
/// unchanged when the error made from it is turned into an input/output
/// error.
pub proof fn lemma_os_error_round_trip(code: i32)
    requires
        0 < code <= 0xFFFF,
    ensures
        Error::of_os_error(Some(code)).io_source() == (IoErrorSource::Os { code }),
{
}

} // verus!
