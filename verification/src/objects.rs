//! The typed objects of the browser: the environment, the controller of a
//! view, the view and its settings.
//!
//! Each is a handle of one native object. Where an operation takes a host
//! closure, the object wraps it in the adapter that the native side will
//! call; where it takes text, it encodes it. An operation that cannot
//! prepare its arguments fails before any native call is made.

use crate::callback::{CompletedHandler, EventHandler};
use crate::handle::{BorrowedPointer, InterfaceHandle, RefOp};
use crate::property::{get_interface, put_interface, put_string};
use crate::status::{Error, E_INVALIDARG};
use crate::stream::Stream;
use crate::wide::{encode_utf16, WideString};
use vstd::prelude::*;

verus! {

/// A handle of a native environment, from which controllers are created.
#[derive(Debug)]
pub struct Environment {
    inner: InterfaceHandle,
}

impl View for Environment {
    type V = usize;

    /// The address of the object's interface pointer.
    closed spec fn view(&self) -> usize {
        self.inner@
    }
}

impl Environment {
    /// Makes an environment of a handle.
    pub fn from_handle(inner: InterfaceHandle) -> (environment: Self)
        ensures
            environment@ == inner@,
    {
        Environment { inner }
    }

    /// Gives the handle of the environment.
    pub fn into_handle(self) -> (inner: InterfaceHandle)
        ensures
            inner@ == self@,
    {
        self.inner
    }

    /// The address of the object's interface pointer, for a call on it.
    pub fn as_raw(&self) -> (pointer: usize)
        ensures
            pointer == self@,
            pointer != 0,
    {
        self.inner.as_raw()
    }

    /// Prepares the creation of a controller: the adapter that reports the
    /// end of the creation to `completed`, once. The status that the
    /// creating call returns says only whether the creation was accepted.
    pub fn create_controller<F>(completed: F) -> (handler: CompletedHandler<F>) where
        F: FnOnce(Result<BorrowedPointer, Error>) -> Result<(), Error>,

        ensures
            handler.pending() == Some(completed),
    {
        CompletedHandler::new(completed)
    }
}

/// A handle of the native controller of a view.
#[derive(Debug)]
pub struct Controller {
    inner: InterfaceHandle,
}

impl View for Controller {
    type V = usize;

    /// The address of the object's interface pointer.
    closed spec fn view(&self) -> usize {
        self.inner@
    }
}

impl Controller {
    /// Makes a controller of a handle.
    pub fn from_handle(inner: InterfaceHandle) -> (controller: Self)
        ensures
            controller@ == inner@,
    {
        Controller { inner }
    }

    /// Gives the handle of the controller.
    pub fn into_handle(self) -> (inner: InterfaceHandle)
        ensures
            inner@ == self@,
    {
        self.inner
    }

    /// The address of the object's interface pointer, for a call on it.
    pub fn as_raw(&self) -> (pointer: usize)
        ensures
            pointer == self@,
            pointer != 0,
    {
        self.inner.as_raw()
    }

    /// Prepares the registration of a handler for requests to move the
    /// focus: the adapter that calls `handler` for each request with the
    /// controller that sent it and the arguments of the request.
    pub fn add_move_focus_requested<F>(handler: F) -> (adapter: EventHandler<F>) where
        F: Fn(BorrowedPointer, BorrowedPointer) -> Result<(), Error>,

        ensures
            adapter.callback() == handler,
    {
        EventHandler::new(handler)
    }

    /// Prepares the registration of a handler for accelerator keys: the
    /// adapter that calls `handler` for each key with the controller that
    /// sent it and the arguments of the event.
    pub fn add_accelerator_key_pressed<F>(handler: F) -> (adapter: EventHandler<F>) where
        F: Fn(BorrowedPointer, BorrowedPointer) -> Result<(), Error>,

        ensures
            adapter.callback() == handler,
    {
        EventHandler::new(handler)
    }

    /// Takes over the view that the controller returned, where the status
    /// reports success; else gives the error of the status.
    pub fn get_webview(status: i32, pointer: usize) -> (result: Result<
        (WebView, RefOp),
        Error,
    >)
        requires
            status >= 0 ==> pointer != 0,
        ensures
            status < 0 ==> (result matches Err(e) && e.hresult == status),
            status >= 0 ==> (result matches Ok(made) && made.0@ == pointer && made.1
                == InterfaceHandle::wrap_owning_op()),
    {
        match get_interface(status, pointer) {
            Ok((inner, op)) => Ok((WebView { inner }, op)),
            Err(e) => Err(e),
        }
    }
}

/// A handle of the native settings of a view.
#[derive(Debug)]
pub struct Settings {
    inner: InterfaceHandle,
}

impl View for Settings {
    type V = usize;

    /// The address of the object's interface pointer.
    closed spec fn view(&self) -> usize {
        self.inner@
    }
}

impl Settings {
    /// Makes settings of a handle.
    pub fn from_handle(inner: InterfaceHandle) -> (settings: Self)
        ensures
            settings@ == inner@,
    {
        Settings { inner }
    }

    /// Gives the handle of the settings.
    pub fn into_handle(self) -> (inner: InterfaceHandle)
        ensures
            inner@ == self@,
    {
        self.inner
    }

    /// The address of the object's interface pointer, for a call on it.
    pub fn as_raw(&self) -> (pointer: usize)
        ensures
            pointer == self@,
            pointer != 0,
    {
        self.inner.as_raw()
    }
}

/// The arguments of a call that runs a script and reports through a
/// completion handler.
pub struct ScriptCall<F> {
    /// The script, encoded.
    pub script: WideString,
    /// The adapter of the closure that gets the result.
    pub handler: CompletedHandler<F>,
}

/// The arguments of a call that captures a preview into a stream.
pub struct CaptureCall<F> {
    /// The pointer of the stream, lent to the call.
    pub image_stream: usize,
    /// What lending the stream owes to its count.
    pub stream_op: RefOp,
    /// The adapter of the closure that learns how the capture ended.
    pub handler: CompletedHandler<F>,
}

/// A handle of a native view.
#[derive(Debug)]
pub struct WebView {
    inner: InterfaceHandle,
}

impl View for WebView {
    type V = usize;

    /// The address of the object's interface pointer.
    closed spec fn view(&self) -> usize {
        self.inner@
    }
}

impl WebView {
    /// Makes a view of a handle.
    pub fn from_handle(inner: InterfaceHandle) -> (view: Self)
        ensures
            view@ == inner@,
    {
        WebView { inner }
    }

    /// Gives the handle of the view.
    pub fn into_handle(self) -> (inner: InterfaceHandle)
        ensures
            inner@ == self@,
    {
        self.inner
    }

    /// The address of the object's interface pointer, for a call on it.
    pub fn as_raw(&self) -> (pointer: usize)
        ensures
            pointer == self@,
            pointer != 0,
    {
        self.inner.as_raw()
    }

    /// Takes over the settings that the view returned, where the status
    /// reports success; else gives the error of the status.
    pub fn get_settings(status: i32, pointer: usize) -> (result: Result<
        (Settings, RefOp),
        Error,
    >)
        requires
            status >= 0 ==> pointer != 0,
        ensures
            status < 0 ==> (result matches Err(e) && e.hresult == status),
            status >= 0 ==> (result matches Ok(made) && made.0@ == pointer && made.1
                == InterfaceHandle::wrap_owning_op()),
    {
        match get_interface(status, pointer) {
            Ok((inner, op)) => Ok((Settings { inner }, op)),
            Err(e) => Err(e),
        }
    }

    /// Prepares the call that adds a script to run whenever a document is
    /// created: the encoded script, and the adapter that hands the
    /// identifier of the added script to `callback`. A script with a zero
    /// character fails with the invalid-argument status; the closure is
    /// then dropped uncalled.
    pub fn add_script_to_execute_on_document_created<F>(script: &str, callback: F) -> (result:
        Result<ScriptCall<F>, Error>) where F: FnOnce(String) -> Result<(), Error>
        ensures
            result is Ok <==> !script@.contains('\0'),
            result matches Ok(call) ==> call.script@ == encode_utf16(script@)
                && call.handler.pending() == Some(callback),
            result matches Err(e) ==> e.hresult == E_INVALIDARG,
    {
        match put_string(script) {
            Ok(script) => Ok(ScriptCall { script, handler: CompletedHandler::new(callback) }),
            Err(e) => Err(e),
        }
    }

    /// Encodes the identifier of a script that is to be removed again. An
    /// identifier with a zero character fails with the invalid-argument
    /// status.
    pub fn remove_script_to_execute_on_document_created(id: &str) -> (result: Result<
        WideString,
        Error,
    >)
        ensures
            result is Ok <==> !id@.contains('\0'),
            result matches Ok(wide) ==> wide@ == encode_utf16(id@),
            result matches Err(e) ==> e.hresult == E_INVALIDARG,
    {
        put_string(id)
    }

    /// Prepares the call that runs a script in the current document: the
    /// encoded script, and the adapter that hands the result of the script,
    /// as JSON text, to `callback`. A script with a zero character fails
    /// with the invalid-argument status; the closure is then dropped
    /// uncalled.
    pub fn execute_script<F>(script: &str, callback: F) -> (result: Result<
        ScriptCall<F>,
        Error,
    >) where F: FnOnce(String) -> Result<(), Error>
        ensures
            result is Ok <==> !script@.contains('\0'),
            result matches Ok(call) ==> call.script@ == encode_utf16(script@)
                && call.handler.pending() == Some(callback),
            result matches Err(e) ==> e.hresult == E_INVALIDARG,
    {
        match put_string(script) {
            Ok(script) => Ok(ScriptCall { script, handler: CompletedHandler::new(callback) }),
            Err(e) => Err(e),
        }
    }

    /// Prepares the call that captures a preview of the view into a
    /// stream: the pointer of the stream, which the call borrows, and the
    /// adapter that tells `handler` how the capture ended. The stream's
    /// handle is used up, and its count is left as it is.
    pub fn capture_preview<F>(image_stream: Stream, handler: F) -> (call: CaptureCall<
        F,
    >) where F: FnOnce(Result<(), Error>) -> Result<(), Error>
        ensures
            call.image_stream == image_stream@,
            call.image_stream != 0,
            call.stream_op == InterfaceHandle::lend_op(),
            call.handler.pending() == Some(handler),
    {
        let (pointer, stream_op) = put_interface(image_stream.into_handle());
        CaptureCall { image_stream: pointer, stream_op, handler: CompletedHandler::new(handler) }
    }

    /// Encodes the address pattern of a filter for requests that are to be
    /// reported. A pattern with a zero character fails with the
    /// invalid-argument status.
    pub fn add_web_resource_requested_filter(uri: &str) -> (result: Result<
        WideString,
        Error,
    >)
        ensures
            result is Ok <==> !uri@.contains('\0'),
            result matches Ok(wide) ==> wide@ == encode_utf16(uri@),
            result matches Err(e) ==> e.hresult == E_INVALIDARG,
    {
        put_string(uri)
    }

    /// Encodes the address pattern of a filter that is to be removed. A
    /// pattern with a zero character fails with the invalid-argument
    /// status.
    pub fn remove_web_resource_requested_filter(uri: &str) -> (result: Result<
        WideString,
        Error,
    >)
        ensures
            result is Ok <==> !uri@.contains('\0'),
            result matches Ok(wide) ==> wide@ == encode_utf16(uri@),
            result matches Err(e) ==> e.hresult == E_INVALIDARG,
    {
        put_string(uri)
    }
}

} // verus!
