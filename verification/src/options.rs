//! The options object that the creating call reads.
//!
//! The binding itself implements this object for the native side: a record
//! of three optional strings. It is filled from a builder before the call,
//! and the native side reads each string through a getter, of which the
//! reader gets a copy to own.

use crate::builder::EnvironmentBuilder;
use crate::status::{Error, E_INVALIDARG, S_OK};
use crate::wide::{encode_utf16, until_nul, WideString};
use vstd::prelude::*;

verus! {

/// What an options object holds: the code units of each string that is set.
pub struct EnvironmentOptionsView {
    /// Additional arguments for the browser process.
    pub additional_browser_arguments: Option<Seq<u16>>,
    /// The language of the browser's user interface.
    pub language: Option<Seq<u16>>,
    /// The version that the browser has to be compatible with.
    pub target_compatible_browser_version: Option<Seq<u16>>,
}

/// The options of an environment: additional arguments for the browser
/// process, the language of its user interface, and the version that the
/// browser has to be compatible with. Each may be left unset.
#[derive(Debug)]
pub struct EnvironmentOptions {
    additional_browser_arguments: Option<WideString>,
    language: Option<WideString>,
    target_compatible_browser_version: Option<WideString>,
}

/// The code units of a wide string that may be absent.
pub open spec fn units_of(value: Option<WideString>) -> Option<Seq<u16>> {
    match value {
        Some(wide) => Some(wide@),
        None => None,
    }
}

/// The encoding of a text that may be absent.
pub open spec fn encoding_of(text: Option<Seq<char>>) -> Option<Seq<u16>> {
    match text {
        Some(t) => Some(encode_utf16(t)),
        None => None,
    }
}

/// Tells whether a text that may be absent holds a zero character.
pub open spec fn text_has_nul(text: Option<Seq<char>>) -> bool {
    text matches Some(t) && t.contains('\0')
}

impl View for EnvironmentOptions {
    type V = EnvironmentOptionsView;

    /// The strings that the object holds.
    closed spec fn view(&self) -> EnvironmentOptionsView {
        EnvironmentOptionsView {
            additional_browser_arguments: units_of(self.additional_browser_arguments),
            language: units_of(self.language),
            target_compatible_browser_version: units_of(self.target_compatible_browser_version),
        }
    }
}

/// Encodes a text that may be absent.
fn encode_optional(text: Option<&str>) -> (result: Result<Option<WideString>, Error>)
    ensures
        result is Ok <==> !(text matches Some(t) && t@.contains('\0')),
        result matches Ok(wide) ==> units_of(wide) == match text {
            Some(t) => Some(encode_utf16(t@)),
            None => None,
        },
        result matches Err(e) ==> e.hresult == E_INVALIDARG,
{
    match text {
        Some(t) => match WideString::from_str(t) {
            Ok(wide) => Ok(Some(wide)),
            Err(e) => Err(e),
        },
        None => Ok(None),
    }
}

/// The code units of a borrowed wide string that may be absent.
pub open spec fn units_of_ref(value: Option<&WideString>) -> Option<Seq<u16>> {
    match value {
        Some(wide) => Some(wide@),
        None => None,
    }
}

impl EnvironmentOptions {
    /// Fills an options object from the three option strings of a builder.
    /// Fails with the invalid-argument status exactly when one of the
    /// strings that are set holds a zero character; else each string of the
    /// object is the encoding of the builder's, and unset where the
    /// builder's is.
    pub fn from_builder(builder: &EnvironmentBuilder) -> (result: Result<Self, Error>)
        ensures
            result is Ok <==> !text_has_nul(builder@.additional_browser_arguments)
                && !text_has_nul(builder@.language) && !text_has_nul(
                builder@.target_compatible_browser_version,
            ),
            result matches Ok(options) ==> options@ == (EnvironmentOptionsView {
                additional_browser_arguments: encoding_of(
                    builder@.additional_browser_arguments,
                ),
                language: encoding_of(builder@.language),
                target_compatible_browser_version: encoding_of(
                    builder@.target_compatible_browser_version,
                ),
            }),
            result matches Err(e) ==> e.hresult == E_INVALIDARG,
    {
        let additional_browser_arguments = match encode_optional(
            builder.additional_browser_arguments(),
        ) {
            Ok(value) => value,
            Err(e) => {
                return Err(e);
            },
        };
        let language = match encode_optional(builder.language()) {
            Ok(value) => value,
            Err(e) => {
                return Err(e);
            },
        };
        let target_compatible_browser_version = match encode_optional(
            builder.target_compatible_browser_version(),
        ) {
            Ok(value) => value,
            Err(e) => {
                return Err(e);
            },
        };
        Ok(
            EnvironmentOptions {
                additional_browser_arguments,
                language,
                target_compatible_browser_version,
            },
        )
    }

    /// Serves the getter of the additional browser arguments: the status is
    /// success, and with it comes the string of which the reader gets a
    /// copy, or nothing where the string is unset.
    pub fn get_additional_browser_arguments(&self) -> (answer: (i32, Option<&WideString>))
        ensures
            answer.0 == S_OK,
            units_of_ref(answer.1) == self@.additional_browser_arguments,
    {
        (S_OK, self.additional_browser_arguments.as_ref())
    }

    /// Serves the setter of the additional browser arguments: the string
    /// becomes the units of the buffer up to its terminator. The status is
    /// success.
    pub fn put_additional_browser_arguments(&mut self, value: &[u16]) -> (status: i32)
        ensures
            status == S_OK,
            final(self)@ == (EnvironmentOptionsView {
                additional_browser_arguments: Some(until_nul(value@)),
                ..old(self)@
            }),
    {
        self.additional_browser_arguments = Some(WideString::from_terminated(value));
        S_OK
    }

    /// Serves the getter of the language: the status is success, and with
    /// it comes the string of which the reader gets a copy, or nothing
    /// where the string is unset.
    pub fn get_language(&self) -> (answer: (i32, Option<&WideString>))
        ensures
            answer.0 == S_OK,
            units_of_ref(answer.1) == self@.language,
    {
        (S_OK, self.language.as_ref())
    }

    /// Serves the setter of the language: the string becomes the units of
    /// the buffer up to its terminator. The status is success.
    pub fn put_language(&mut self, value: &[u16]) -> (status: i32)
        ensures
            status == S_OK,
            final(self)@ == (EnvironmentOptionsView {
                language: Some(until_nul(value@)),
                ..old(self)@
            }),
    {
        self.language = Some(WideString::from_terminated(value));
        S_OK
    }

    /// Serves the getter of the compatible browser version: the status is
    /// success, and with it comes the string of which the reader gets a
    /// copy, or nothing where the string is unset.
    pub fn get_target_compatible_browser_version(&self) -> (answer: (i32, Option<&WideString>))
        ensures
            answer.0 == S_OK,
            units_of_ref(answer.1) == self@.target_compatible_browser_version,
    {
        (S_OK, self.target_compatible_browser_version.as_ref())
    }

    /// Serves the setter of the compatible browser version: the string
    /// becomes the units of the buffer up to its terminator. The status is
    /// success.
    pub fn put_target_compatible_browser_version(&mut self, value: &[u16]) -> (status: i32)
        ensures
            status == S_OK,
            final(self)@ == (EnvironmentOptionsView {
                target_compatible_browser_version: Some(until_nul(value@)),
                ..old(self)@
            }),
    {
        self.target_compatible_browser_version = Some(WideString::from_terminated(value));
        S_OK
    }
}

/// A string that is put into an options object comes back from the getter
/// as it went in: the copy that the reader gets, which is the kept string
/// and its terminator, holds up to its terminator what the writer's buffer
/// held up to its own.
pub proof fn lemma_put_then_get(written: Seq<u16>)
    ensures
        until_nul(until_nul(written).push(0u16)) == until_nul(written),
{
    crate::wide::lemma_until_nul(written);
    lemma_until_nul_of_terminated(until_nul(written));
}

/// Units without a zero, followed by a terminator, are what stands before
/// the first zero of the whole.
pub proof fn lemma_until_nul_of_terminated(units: Seq<u16>)
    requires
        !units.contains(0u16),
    ensures
        until_nul(units.push(0u16)) == units,
    decreases units.len(),
{
    let all = units.push(0u16);
    if units.len() == 0 {
        assert(all[0] == 0u16);
        assert(until_nul(all) =~= units);
    } else {
        assert(units[0] != 0u16) by {
            if units[0] == 0u16 {
                assert(units.contains(0u16));
            }
        }
        assert(all[0] == units[0]);
        assert(all.drop_first() =~= units.drop_first().push(0u16));
        assert(!units.drop_first().contains(0u16)) by {
            if units.drop_first().contains(0u16) {
                let i = choose|i: int|
                    0 <= i < units.drop_first().len() && units.drop_first()[i] == 0u16;
                assert(units[i + 1] == 0u16);
            }
        }
        lemma_until_nul_of_terminated(units.drop_first());
        assert(until_nul(all) =~= units);
    }
}

} // verus!
