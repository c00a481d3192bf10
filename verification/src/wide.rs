//! Wide strings: text as 16-bit code units with a terminating zero, the
//! form in which the native interfaces take and return text.
//!
//! Host text becomes a wide string by UTF-16 encoding, which fails when the
//! text holds a zero character, for the zero would end the string early.
//! A wide string becomes host text by UTF-16 decoding, which fails on a
//! surrogate that has no partner.

use crate::status::{Error, E_FAIL, E_INVALIDARG};
use vstd::prelude::*;
use widestring::{U16CString, U16Str};

verus! {

/// Tells whether a code unit is a surrogate, one half of a pair.
pub open spec fn is_surrogate(unit: u16) -> bool {
    0xD800 <= unit <= 0xDFFF
}

/// Tells whether a code unit is the first half of a surrogate pair.
pub open spec fn is_high_surrogate(unit: u16) -> bool {
    0xD800 <= unit <= 0xDBFF
}

/// Tells whether a code unit is the second half of a surrogate pair.
pub open spec fn is_low_surrogate(unit: u16) -> bool {
    0xDC00 <= unit <= 0xDFFF
}

/// The UTF-16 code units of one character: the character itself below
/// `0x10000`, else a surrogate pair that splits its offset from `0x10000`
/// into the upper and the lower ten bits.
pub open spec fn encode_char(c: char) -> Seq<u16> {
    let value = c as int;
    if value < 0x1_0000 {
        seq![value as u16]
    } else {
        seq![
            (0xD800 + (value - 0x1_0000) / 0x400) as u16,
            (0xDC00 + (value - 0x1_0000) % 0x400) as u16,
        ]
    }
}

/// The UTF-16 encoding of a text: the code units of its characters, in
/// order.
pub open spec fn encode_utf16(text: Seq<char>) -> Seq<u16>
    decreases text.len(),
{
    if text.len() == 0 {
        Seq::empty()
    } else {
        encode_char(text[0]) + encode_utf16(text.drop_first())
    }
}

/// The character that a surrogate pair stands for.
pub open spec fn pair_value(high: u16, low: u16) -> int {
    0x1_0000 + (high - 0xD800) * 0x400 + (low - 0xDC00)
}

/// The text that a sequence of UTF-16 code units decodes to, if it is well
/// formed: every unit outside the surrogate range is a character, every
/// high surrogate must be followed by a low one, and a low surrogate may
/// not stand alone.
pub open spec fn decode_utf16(units: Seq<u16>) -> Option<Seq<char>>
    decreases units.len(),
{
    if units.len() == 0 {
        Some(Seq::empty())
    } else if !is_surrogate(units[0]) {
        match decode_utf16(units.drop_first()) {
            Some(rest) => Some(seq![units[0] as char] + rest),
            None => None,
        }
    } else if is_high_surrogate(units[0]) && units.len() >= 2 && is_low_surrogate(units[1]) {
        match decode_utf16(units.skip(2)) {
            Some(rest) => Some(seq![pair_value(units[0], units[1]) as char] + rest),
            None => None,
        }
    } else {
        None
    }
}

/// The units before the first zero of a buffer, or the whole buffer where
/// it holds no zero.
pub open spec fn until_nul(buffer: Seq<u16>) -> Seq<u16>
    decreases buffer.len(),
{
    if buffer.len() == 0 || buffer[0] == 0 {
        Seq::empty()
    } else {
        seq![buffer[0]] + until_nul(buffer.drop_first())
    }
}

/// The code units of one character hold a zero exactly when the character
/// is the zero character, and a character of one unit is no surrogate.
pub proof fn lemma_encode_char(c: char)
    ensures
        encode_char(c).contains(0u16) <==> c == '\0',
        (c as int) < 0x1_0000 ==> encode_char(c).len() == 1 && !is_surrogate(encode_char(c)[0])
            && encode_char(c)[0] as char == c,
        (c as int) >= 0x1_0000 ==> encode_char(c).len() == 2 && is_high_surrogate(
            encode_char(c)[0],
        ) && is_low_surrogate(encode_char(c)[1]) && pair_value(encode_char(c)[0], encode_char(c)[1])
            == c as int,
{
    vstd::utf8::char_is_scalar(c);
    let value = c as int;
    let units = encode_char(c);
    if value < 0x1_0000 {
        assert(units[0] == value);
        if c == '\0' {
            assert(units[0] == 0u16);
        }
        if units.contains(0u16) {
            let i = choose|i: int| 0 <= i < units.len() && units[i] == 0u16;
            assert(value == 0);
        }
    } else {
        let offset = value - 0x1_0000;
        assert(0 <= offset < 0x10_0000);
        assert(0 <= offset / 0x400 < 0x400);
        assert(0 <= offset % 0x400 < 0x400);
        assert(units[0] == 0xD800 + offset / 0x400);
        assert(units[1] == 0xDC00 + offset % 0x400);
        assert(offset == (offset / 0x400) * 0x400 + offset % 0x400);
        if units.contains(0u16) {
            let i = choose|i: int| 0 <= i < units.len() && units[i] == 0u16;
            assert(false);
        }
    }
}

/// An encoding holds a zero unit exactly when the text holds the zero
/// character.
pub proof fn lemma_encoding_has_nul(text: Seq<char>)
    ensures
        encode_utf16(text).contains(0u16) <==> text.contains('\0'),
    decreases text.len(),
{
    if text.len() == 0 {
        assert(!encode_utf16(text).contains(0u16));
        assert(!text.contains('\0'));
    } else {
        let head = encode_char(text[0]);
        let tail = encode_utf16(text.drop_first());
        lemma_encode_char(text[0]);
        lemma_encoding_has_nul(text.drop_first());
        let all = head + tail;
        assert(encode_utf16(text) == all);
        if all.contains(0u16) {
            let i = choose|i: int| 0 <= i < all.len() && all[i] == 0u16;
            if i < head.len() {
                assert(head[i] == 0u16);
                assert(head.contains(0u16));
                assert(text[0] == '\0');
                assert(text.contains('\0'));
            } else {
                assert(tail[i - head.len()] == 0u16);
                assert(tail.contains(0u16));
                let j = choose|j: int|
                    0 <= j < text.drop_first().len() && text.drop_first()[j] == '\0';
                assert(text[j + 1] == '\0');
                assert(text.contains('\0'));
            }
        }
        if text.contains('\0') {
            let j = choose|j: int| 0 <= j < text.len() && text[j] == '\0';
            if j == 0 {
                let i = choose|i: int| 0 <= i < head.len() && head[i] == 0u16;
                assert(all[i] == 0u16);
            } else {
                assert(text.drop_first()[j - 1] == '\0');
                assert(text.drop_first().contains('\0'));
                let i = choose|i: int| 0 <= i < tail.len() && tail[i] == 0u16;
                assert(all[i + head.len()] == 0u16);
            }
            assert(all.contains(0u16));
        }
    }
}

/// Encoding loses nothing: the encoding of any text is well formed and
/// decodes to that text.
pub proof fn lemma_decode_encode(text: Seq<char>)
    ensures
        decode_utf16(encode_utf16(text)) == Some(text),
    decreases text.len(),
{
    if text.len() == 0 {
        assert(encode_utf16(text) =~= Seq::<u16>::empty());
    } else {
        let c = text[0];
        let head = encode_char(c);
        let tail = encode_utf16(text.drop_first());
        let all = head + tail;
        lemma_encode_char(c);
        lemma_decode_encode(text.drop_first());
        assert(encode_utf16(text) == all);
        assert(all[0] == head[0]);
        if (c as int) < 0x1_0000 {
            assert(all.drop_first() =~= tail);
            assert(seq![all[0] as char] + text.drop_first() =~= text);
        } else {
            assert(all[1] == head[1]);
            assert(all.skip(2) =~= tail);
            assert(seq![pair_value(all[0], all[1]) as char] + text.drop_first() =~= text);
        }
    }
}

/// Decoding loses nothing: units that decode to a text are the encoding of
/// that text.
pub proof fn lemma_encode_decode(units: Seq<u16>)
    requires
        decode_utf16(units) is Some,
    ensures
        encode_utf16(decode_utf16(units)->Some_0) == units,
    decreases units.len(),
{
    let text = decode_utf16(units)->Some_0;
    if units.len() == 0 {
        assert(encode_utf16(text) =~= units);
    } else if !is_surrogate(units[0]) {
        let rest = decode_utf16(units.drop_first())->Some_0;
        lemma_encode_decode(units.drop_first());
        let c = units[0] as char;
        assert(text == seq![c] + rest);
        assert(c as int == units[0] as int);
        assert(text.drop_first() =~= rest);
        assert(encode_char(c) =~= seq![units[0]]);
        assert(encode_utf16(text) =~= units);
    } else {
        let rest = decode_utf16(units.skip(2))->Some_0;
        lemma_encode_decode(units.skip(2));
        let value = pair_value(units[0], units[1]);
        let c = value as char;
        assert(0x1_0000 <= value <= 0x10_FFFF);
        assert(c as int == value);
        assert(text == seq![c] + rest);
        assert(text.drop_first() =~= rest);
        let offset = value - 0x1_0000;
        assert(offset == (units[0] - 0xD800) * 0x400 + (units[1] - 0xDC00));
        assert(offset / 0x400 == units[0] - 0xD800);
        assert(offset % 0x400 == units[1] - 0xDC00);
        assert(encode_char(c) =~= seq![units[0], units[1]]);
        assert(encode_utf16(text) =~= units);
    }
}

/// The units before the first zero hold no zero, are a prefix of the
/// buffer, and are followed by a zero unless they are the whole buffer.
pub proof fn lemma_until_nul(buffer: Seq<u16>)
    ensures
        until_nul(buffer).len() <= buffer.len(),
        until_nul(buffer) == buffer.subrange(0, until_nul(buffer).len() as int),
        !until_nul(buffer).contains(0u16),
        until_nul(buffer).len() < buffer.len() ==> buffer[until_nul(buffer).len() as int] == 0,
        !buffer.contains(0u16) ==> until_nul(buffer) == buffer,
    decreases buffer.len(),
{
    let prefix = until_nul(buffer);
    if buffer.len() == 0 || buffer[0] == 0 {
        assert(prefix =~= buffer.subrange(0, 0));
        if !buffer.contains(0u16) {
            assert(prefix =~= buffer);
        }
    } else {
        let rest = buffer.drop_first();
        lemma_until_nul(rest);
        let inner = until_nul(rest);
        assert(prefix == seq![buffer[0]] + inner);
        assert(prefix =~= buffer.subrange(0, prefix.len() as int));
        if prefix.contains(0u16) {
            let i = choose|i: int| 0 <= i < prefix.len() && prefix[i] == 0u16;
            assert(inner[i - 1] == 0u16);
            assert(inner.contains(0u16));
        }
        if inner.len() < rest.len() {
            assert(buffer[prefix.len() as int] == rest[inner.len() as int]);
        }
        if !buffer.contains(0u16) {
            if rest.contains(0u16) {
                let i = choose|i: int| 0 <= i < rest.len() && rest[i] == 0u16;
                assert(buffer[i + 1] == 0u16);
            }
            assert(prefix =~= buffer);
        }
    }
}

/// Tells whether `position` is where the first zero of `units` stands.
pub open spec fn is_first_nul(units: Seq<u16>, position: int) -> bool {
    &&& 0 <= position < units.len()
    &&& units[position] == 0
    &&& forall|i: int| 0 <= i < position ==> units[i] != 0
}

/// Calls `U16CString::from_str` and takes the units of the string with
/// their terminator, or the position that the error names. The call encodes
/// the text as UTF-16 and fails exactly when the encoding holds a zero,
/// naming the place of the first one; else the string is the encoding, and
/// the terminating zero follows it.
#[verifier::external_body]
fn terminated_from_str(text: &str) -> (result: Result<Vec<u16>, usize>)
    ensures
        result is Err <==> encode_utf16(text@).contains(0u16),
        result matches Ok(units) ==> units@ == encode_utf16(text@).push(0u16),
        result matches Err(position) ==> is_first_nul(encode_utf16(text@), position as int),
{
    match U16CString::from_str(text) {
        Ok(string) => Ok(string.into_vec_with_nul()),
        Err(error) => Err(error.nul_position()),
    }
}

/// Calls `U16CString::new` and takes the units of the string with their
/// terminator, or the position that the error names. The call fails exactly
/// when the given units hold a zero, naming the place of the first one;
/// else the string is those units, and the terminating zero follows them.
#[verifier::external_body]
fn terminated_from_units(units: &[u16]) -> (result: Result<Vec<u16>, usize>)
    ensures
        result is Err <==> units@.contains(0u16),
        result matches Ok(terminated) ==> terminated@ == units@.push(0u16),
        result matches Err(position) ==> is_first_nul(units@, position as int),
{
    match U16CString::new(units) {
        Ok(string) => Ok(string.into_vec_with_nul()),
        Err(error) => Err(error.nul_position()),
    }
}

/// Calls `U16Str::to_string` on the given units. The call decodes them as
/// UTF-16 and fails exactly when they are not well formed.
#[verifier::external_body]
fn string_from_units(units: &[u16]) -> (result: Option<String>)
    ensures
        result is Some <==> decode_utf16(units@) is Some,
        result matches Some(text) ==> decode_utf16(units@) == Some(text@),
{
    U16Str::from_slice(units).to_string().ok()
}

impl Error {
    /// The error for text that cannot become a wide string because it holds
    /// a zero: the invalid-argument status, wherever the zero stands.
    pub fn from_nul_position(position: usize) -> (error: Error)
        ensures
            error.hresult == E_INVALIDARG,
    {
        Error::new(E_INVALIDARG)
    }
}

/// An owned wide string: code units without a zero among them, stored with
/// the terminating zero that native code expects.
#[derive(Debug)]
pub struct WideString {
    terminated: Vec<u16>,
}

impl View for WideString {
    type V = Seq<u16>;

    /// The code units of the string, without the terminator.
    closed spec fn view(&self) -> Seq<u16> {
        self.terminated@.drop_last()
    }
}

impl WideString {
    #[verifier::type_invariant]
    spec fn well_formed(self) -> bool {
        &&& self.terminated@.len() > 0
        &&& self.terminated@.last() == 0
        &&& !self.terminated@.drop_last().contains(0u16)
    }

    /// Encodes host text. Fails with the invalid-argument status exactly
    /// when the text holds a zero character.
    pub fn from_str(text: &str) -> (result: Result<WideString, Error>)
        ensures
            result is Ok <==> !text@.contains('\0'),
            result matches Ok(wide) ==> wide@ == encode_utf16(text@),
            result matches Err(e) ==> e.hresult == E_INVALIDARG,
    {
        proof {
            lemma_encoding_has_nul(text@);
        }
        match terminated_from_str(text) {
            Ok(terminated) => {
                assert(terminated@.drop_last() =~= encode_utf16(text@));
                Ok(WideString { terminated })
            },
            Err(position) => Err(Error::from_nul_position(position)),
        }
    }

    /// Takes code units as they are, for text that is already wide, such as
    /// a path of the operating system. Fails with the invalid-argument
    /// status exactly when a unit is zero.
    pub fn from_units(units: &[u16]) -> (result: Result<WideString, Error>)
        ensures
            result is Ok <==> !units@.contains(0u16),
            result matches Ok(wide) ==> wide@ == units@,
            result matches Err(e) ==> e.hresult == E_INVALIDARG,
    {
        match terminated_from_units(units) {
            Ok(terminated) => {
                assert(terminated@.drop_last() =~= units@);
                Ok(WideString { terminated })
            },
            Err(position) => Err(Error::from_nul_position(position)),
        }
    }

    /// Copies a string out of a buffer that native code filled: the units
    /// before the first zero, or all of them where the buffer holds none.
    pub fn from_terminated(buffer: &[u16]) -> (wide: WideString)
        ensures
            wide@ == until_nul(buffer@),
    {
        proof {
            lemma_until_nul(buffer@);
        }
        let ghost prefix = until_nul(buffer@);
        let mut terminated: Vec<u16> = Vec::new();
        let mut i: usize = 0;
        while i < buffer.len() && buffer[i] != 0
            invariant
                i <= buffer@.len(),
                i <= prefix.len(),
                prefix.len() <= buffer@.len(),
                prefix == buffer@.subrange(0, prefix.len() as int),
                !prefix.contains(0u16),
                prefix.len() < buffer@.len() ==> buffer@[prefix.len() as int] == 0,
                terminated@ == buffer@.subrange(0, i as int),
            decreases buffer@.len() - i,
        {
            proof {
                if i == prefix.len() {
                    assert(buffer@[i as int] == 0);
                }
            }
            terminated.push(buffer[i]);
            i += 1;
            assert(terminated@ =~= buffer@.subrange(0, i as int));
        }
        proof {
            if i < prefix.len() {
                assert(prefix[i as int] == buffer@[i as int]);
                assert(prefix.contains(0u16));
            }
        }
        assert(terminated@ =~= prefix);
        terminated.push(0);
        assert(terminated@.drop_last() =~= prefix);
        WideString { terminated }
    }

    /// The number of code units, without the terminator.
    pub fn len(&self) -> (n: usize)
        ensures
            n == self@.len(),
    {
        proof {
            use_type_invariant(self);
        }
        self.terminated.len() - 1
    }

    /// Tells whether the string holds no code unit.
    pub fn is_empty(&self) -> (empty: bool)
        ensures
            empty == (self@.len() == 0),
    {
        self.len() == 0
    }

    /// The code units with their terminator, as native code reads them. No
    /// unit before the terminator is zero.
    pub fn as_slice_with_nul(&self) -> (units: &[u16])
        ensures
            units@ == self@.push(0u16),
            !self@.contains(0u16),
    {
        proof {
            use_type_invariant(self);
            assert(self.terminated@ =~= self@.push(0u16));
        }
        self.terminated.as_slice()
    }

    /// A copy of the code units with their terminator, to be handed to
    /// native code that will own it.
    pub fn to_vec_with_nul(&self) -> (units: Vec<u16>)
        ensures
            units@ == self@.push(0u16),
    {
        proof {
            use_type_invariant(self);
            assert(self.terminated@ =~= self@.push(0u16));
        }
        let mut units: Vec<u16> = Vec::new();
        let mut i: usize = 0;
        while i < self.terminated.len()
            invariant
                i <= self.terminated@.len(),
                units@ == self.terminated@.subrange(0, i as int),
            decreases self.terminated@.len() - i,
        {
            units.push(self.terminated[i]);
            i += 1;
            assert(units@ =~= self.terminated@.subrange(0, i as int));
        }
        assert(units@ =~= self.terminated@);
        units
    }

    /// The size in bytes of the string with its terminator, two bytes a
    /// unit: what a copy for native code has to allocate. `None` where the
    /// size does not fit the machine's word.
    pub fn byte_len_with_nul(&self) -> (size: Option<usize>)
        ensures
            size is Some <==> (self@.len() + 1) * 2 <= usize::MAX,
            size matches Some(n) ==> n == (self@.len() + 1) * 2,
    {
        proof {
            use_type_invariant(self);
        }
        self.terminated.len().checked_mul(2)
    }

    /// A second wide string with the same units.
    pub fn duplicate(&self) -> (copy: WideString)
        ensures
            copy@ == self@,
    {
        proof {
            use_type_invariant(self);
        }
        let terminated = self.to_vec_with_nul();
        assert(terminated@.drop_last() =~= self@);
        WideString { terminated }
    }

    /// Decodes the string into host text. Fails with the unspecified
    /// failure status exactly when the units are not well-formed UTF-16.
    pub fn to_string(&self) -> (result: Result<String, Error>)
        ensures
            result is Ok <==> decode_utf16(self@) is Some,
            result matches Ok(text) ==> decode_utf16(self@) == Some(text@),
            result matches Err(e) ==> e.hresult == E_FAIL,
    {
        proof {
            use_type_invariant(self);
        }
        let n = self.terminated.len() - 1;
        let units = vstd::slice::slice_subrange(self.terminated.as_slice(), 0, n);
        assert(units@ =~= self@);
        WideString::decode(units)
    }

    /// Decodes code units that native code returned into host text. Any
    /// failure to decode them is reported as the unspecified failure
    /// status: that happens exactly when the units are not well-formed
    /// UTF-16.
    pub fn decode(units: &[u16]) -> (result: Result<String, Error>)
        ensures
            result is Ok <==> decode_utf16(units@) is Some,
            result matches Ok(text) ==> decode_utf16(units@) == Some(text@),
            result matches Err(e) ==> e.hresult == E_FAIL,
    {
        match string_from_units(units) {
            Some(text) => Ok(text),
            None => Err(Error::new(E_FAIL)),
        }
    }
}

/// Text without a zero character survives the way to native code and back:
/// it can be encoded, and its encoding decodes to the same text.
pub proof fn lemma_text_round_trip(text: Seq<char>)
    requires
        !text.contains('\0'),
    ensures
        !encode_utf16(text).contains(0u16),
        decode_utf16(encode_utf16(text)) == Some(text),
{
    lemma_encoding_has_nul(text);
    lemma_decode_encode(text);
}

} // verus!
