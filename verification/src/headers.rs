//! The headers of a request or a response, and the forward pass over a
//! collection of them.
//!
//! A collection is walked through a native iterator in one pass that cannot
//! start again. The iterator either stands on a header or has run out. A
//! step of the walk asks whether there is a current header; if so it reads
//! the header and moves on, and if not the walk is over.

use crate::handle::{InterfaceHandle, RefOp};
use crate::property::{get_bool, get_interface, get_string, host_bool, put_string,
    put_string_pair};
use crate::status::{check_hresult, checked, Error, E_FAIL, E_INVALIDARG};
use crate::wide::{decode_utf16, encode_utf16, WideString};
use vstd::prelude::*;

verus! {

/// A handle of a native iterator over headers.
#[derive(Debug)]
pub struct HttpHeadersCollectionIterator {
    inner: InterfaceHandle,
}

impl View for HttpHeadersCollectionIterator {
    type V = usize;

    /// The address of the iterator's interface pointer.
    closed spec fn view(&self) -> usize {
        self.inner@
    }
}

/// A step of the walk that found a current header and waits for it to be
/// read.
#[derive(Debug)]
pub struct PendingHeader {}

/// A step of the walk that has read the current header, or failed to, and
/// waits for the iterator to move on.
#[derive(Debug)]
pub struct PendingAdvance {
    item: Option<(String, String)>,
}

impl View for PendingAdvance {
    type V = Option<(String, String)>;

    /// The header that the step read, if it could.
    closed spec fn view(&self) -> Option<(String, String)> {
        self.item
    }
}

impl HttpHeadersCollectionIterator {
    /// Makes an iterator of a handle.
    pub fn from_handle(inner: InterfaceHandle) -> (iterator: Self)
        ensures
            iterator@ == inner@,
    {
        HttpHeadersCollectionIterator { inner }
    }

    /// Gives the handle of the iterator.
    pub fn into_handle(self) -> (inner: InterfaceHandle)
        ensures
            inner@ == self@,
    {
        self.inner
    }

    /// The address of the iterator's interface pointer, for a call on it.
    pub fn as_raw(&self) -> (pointer: usize)
        ensures
            pointer == self@,
            pointer != 0,
    {
        self.inner.as_raw()
    }

    /// Reads the current header from what the native call returned: its
    /// status, and the units of the name and of the value. A status that
    /// reports failure gives its error, and the units are not looked at.
    /// A name or a value that is not well-formed UTF-16 gives the
    /// unspecified failure. Else the header is the decoded pair.
    pub fn get_current_header(status: i32, name: &[u16], value: &[u16]) -> (result: Result<
        (String, String),
        Error,
    >)
        ensures
            status < 0 ==> (result matches Err(e) && e.hresult == status),
            status >= 0 && (decode_utf16(name@) is None || decode_utf16(value@) is None)
                ==> (result matches Err(e) && e.hresult == E_FAIL),
            status >= 0 && decode_utf16(name@) is Some && decode_utf16(value@) is Some ==> (
            result matches Ok(header) && Some(header.0@) == decode_utf16(name@) && Some(header.1@)
                == decode_utf16(value@)),
    {
        match check_hresult(status) {
            Err(e) => Err(e),
            Ok(_) => {
                let name_text = WideString::decode(name);
                let value_text = WideString::decode(value);
                match name_text {
                    Err(e) => Err(e),
                    Ok(name_text) => match value_text {
                        Err(e) => Err(e),
                        Ok(value_text) => Ok((name_text, value_text)),
                    },
                }
            },
        }
    }

    /// Reads whether the iterator stands on a header.
    pub fn get_has_current_header(status: i32, raw: i32) -> (result: Result<bool, Error>)
        ensures
            result == match checked(status) {
                Ok(_) => Ok(host_bool(raw)),
                Err(e) => Err(e),
            },
    {
        get_bool(status, raw)
    }

    /// Reads whether the iterator, having moved on, stands on a header.
    pub fn move_next(status: i32, raw: i32) -> (result: Result<bool, Error>)
        ensures
            result == match checked(status) {
                Ok(_) => Ok(host_bool(raw)),
                Err(e) => Err(e),
            },
    {
        get_bool(status, raw)
    }

    /// Starts a step of the walk with the answer to whether there is a
    /// current header. The walk goes on only when the answer is a plain
    /// yes; a no, and a failure to find out, both end it.
    pub fn next(has_current: Result<bool, Error>) -> (step: Option<PendingHeader>)
        ensures
            step is Some <==> (has_current matches Ok(yes) && yes),
    {
        match has_current {
            Ok(true) => Some(PendingHeader {  }),
            _ => None,
        }
    }
}

impl PendingHeader {
    /// Takes what reading the current header gave. A header that could not
    /// be read is passed over: the step yields nothing for it, and the walk
    /// moves on all the same.
    pub fn current(self, current: Result<(String, String), Error>) -> (step: PendingAdvance)
        ensures
            step@ == match current {
                Ok(header) => Some(header),
                Err(_) => None,
            },
    {
        match current {
            Ok(header) => PendingAdvance { item: Some(header) },
            Err(_) => PendingAdvance { item: None },
        }
    }
}

impl PendingAdvance {
    /// Ends the step once the iterator was told to move on. What the move
    /// answered does not count: the step yields what it read.
    pub fn moved(self, moved: Result<bool, Error>) -> (item: Option<(String, String)>)
        ensures
            item == self@,
    {
        self.item
    }
}

/// A handle of the headers of a request.
#[derive(Debug)]
pub struct HttpRequestHeaders {
    inner: InterfaceHandle,
}

impl View for HttpRequestHeaders {
    type V = usize;

    /// The address of the object's interface pointer.
    closed spec fn view(&self) -> usize {
        self.inner@
    }
}

impl HttpRequestHeaders {
    /// Makes the headers of a handle.
    pub fn from_handle(inner: InterfaceHandle) -> (headers: Self)
        ensures
            headers@ == inner@,
    {
        HttpRequestHeaders { inner }
    }

    /// Gives the handle of the headers.
    pub fn into_handle(self) -> (inner: InterfaceHandle)
        ensures
            inner@ == self@,
    {
        self.inner
    }

    /// The address of the object's interface pointer, for a call on it.
    pub fn as_raw(&self) -> (pointer: usize)
        ensures
            pointer == self@,
            pointer != 0,
    {
        self.inner.as_raw()
    }

    /// Encodes the name of the header whose value is asked for. The value
    /// that the call returns is read with [`get_string`].
    pub fn get_header(name: &str) -> (result: Result<WideString, Error>)
        ensures
            result is Ok <==> !name@.contains('\0'),
            result matches Ok(wide) ==> wide@ == encode_utf16(name@),
            result matches Err(e) ==> e.hresult == E_INVALIDARG,
    {
        put_string(name)
    }

    /// Encodes the name of the header whose values are asked for. The
    /// iterator that the call returns is taken over with
    /// [`HttpRequestHeaders::headers_iterator`].
    pub fn get_headers(name: &str) -> (result: Result<WideString, Error>)
        ensures
            result is Ok <==> !name@.contains('\0'),
            result matches Ok(wide) ==> wide@ == encode_utf16(name@),
            result matches Err(e) ==> e.hresult == E_INVALIDARG,
    {
        put_string(name)
    }

    /// Takes over the iterator that a call returned, where its status
    /// reports success; else gives the error of the status.
    pub fn headers_iterator(status: i32, pointer: usize) -> (result: Result<
        (HttpHeadersCollectionIterator, RefOp),
        Error,
    >)
        requires
            status >= 0 ==> pointer != 0,
        ensures
            status < 0 ==> (result matches Err(e) && e.hresult == status),
            status >= 0 ==> (result matches Ok(made) && made.0@ == pointer && made.1
                == InterfaceHandle::wrap_owning_op()),
    {
        match get_interface(status, pointer) {
            Ok((inner, op)) => Ok((HttpHeadersCollectionIterator { inner }, op)),
            Err(e) => Err(e),
        }
    }

    /// Encodes the name of the header that is asked after. What the call
    /// answers is read with [`get_bool`].
    pub fn contains(name: &str) -> (result: Result<WideString, Error>)
        ensures
            result is Ok <==> !name@.contains('\0'),
            result matches Ok(wide) ==> wide@ == encode_utf16(name@),
            result matches Err(e) ==> e.hresult == E_INVALIDARG,
    {
        put_string(name)
    }

    /// Encodes the name and the value of a header that is to be set.
    pub fn set_header(name: &str, value: &str) -> (result: Result<(WideString, WideString), Error>)
        ensures
            result is Ok <==> !name@.contains('\0') && !value@.contains('\0'),
            result matches Ok(pair) ==> pair.0@ == encode_utf16(name@) && pair.1@ == encode_utf16(
                value@,
            ),
            result matches Err(e) ==> e.hresult == E_INVALIDARG,
    {
        put_string_pair(name, value)
    }
}

/// A handle of the headers of a response.
#[derive(Debug)]
pub struct HttpResponseHeaders {
    inner: InterfaceHandle,
}

impl View for HttpResponseHeaders {
    type V = usize;

    /// The address of the object's interface pointer.
    closed spec fn view(&self) -> usize {
        self.inner@
    }
}

impl HttpResponseHeaders {
    /// Makes the headers of a handle.
    pub fn from_handle(inner: InterfaceHandle) -> (headers: Self)
        ensures
            headers@ == inner@,
    {
        HttpResponseHeaders { inner }
    }

    /// Gives the handle of the headers.
    pub fn into_handle(self) -> (inner: InterfaceHandle)
        ensures
            inner@ == self@,
    {
        self.inner
    }

    /// The address of the object's interface pointer, for a call on it.
    pub fn as_raw(&self) -> (pointer: usize)
        ensures
            pointer == self@,
            pointer != 0,
    {
        self.inner.as_raw()
    }

    /// Encodes the name of the header whose value is asked for. The value
    /// that the call returns is read with [`get_string`].
    pub fn get_header(name: &str) -> (result: Result<WideString, Error>)
        ensures
            result is Ok <==> !name@.contains('\0'),
            result matches Ok(wide) ==> wide@ == encode_utf16(name@),
            result matches Err(e) ==> e.hresult == E_INVALIDARG,
    {
        put_string(name)
    }

    /// Encodes the name of the header that is asked after. What the call
    /// answers is read with [`get_bool`].
    pub fn contains(name: &str) -> (result: Result<WideString, Error>)
        ensures
            result is Ok <==> !name@.contains('\0'),
            result matches Ok(wide) ==> wide@ == encode_utf16(name@),
            result matches Err(e) ==> e.hresult == E_INVALIDARG,
    {
        put_string(name)
    }

    /// Encodes the name and the value of a header that is to be appended.
    pub fn append_header(name: &str, value: &str) -> (result: Result<
        (WideString, WideString),
        Error,
    >)
        ensures
            result is Ok <==> !name@.contains('\0') && !value@.contains('\0'),
            result matches Ok(pair) ==> pair.0@ == encode_utf16(name@) && pair.1@ == encode_utf16(
                value@,
            ),
            result matches Err(e) ==> e.hresult == E_INVALIDARG,
    {
        put_string_pair(name, value)
    }

    /// Encodes the name of the header whose values are asked for. The
    /// iterator that the call returns is taken over with
    /// [`HttpResponseHeaders::headers_iterator`].
    pub fn get_headers(name: &str) -> (result: Result<WideString, Error>)
        ensures
            result is Ok <==> !name@.contains('\0'),
            result matches Ok(wide) ==> wide@ == encode_utf16(name@),
            result matches Err(e) ==> e.hresult == E_INVALIDARG,
    {
        put_string(name)
    }

    /// Takes over the iterator that a call returned, where its status
    /// reports success; else gives the error of the status.
    pub fn headers_iterator(status: i32, pointer: usize) -> (result: Result<
        (HttpHeadersCollectionIterator, RefOp),
        Error,
    >)
        requires
            status >= 0 ==> pointer != 0,
        ensures
            status < 0 ==> (result matches Err(e) && e.hresult == status),
            status >= 0 ==> (result matches Ok(made) && made.0@ == pointer && made.1
                == InterfaceHandle::wrap_owning_op()),
    {
        match get_interface(status, pointer) {
            Ok((inner, op)) => Ok((HttpHeadersCollectionIterator::from_handle(inner), op)),
            Err(e) => Err(e),
        }
    }
}

} // verus!
