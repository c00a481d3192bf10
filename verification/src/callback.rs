//! Adapters that stand between a native callback interface and a host
//! closure.
//!
//! A native callback interface has a single method that answers with a
//! status. An adapter holds the host closure, forwards the arguments of the
//! method to it and turns its result into the status to answer with, so
//! that no host failure ever crosses the boundary in another form. Two
//! kinds exist: a completion handler, which serves one call and gives its
//! closure up with it, and an event handler, which serves any number.

use crate::handle::BorrowedPointer;
use crate::status::{check_hresult, checked, status_of, to_hresult, Error, E_FAIL, S_OK};
use crate::wide::{decode_utf16, WideString};
use vstd::prelude::*;

verus! {

/// What a completion that delivers an interface hands to the host: the
/// pointer, still owned by the native side, when the operation succeeded,
/// else the error of its status.
pub open spec fn interface_outcome(status: i32, pointer: usize) -> Result<BorrowedPointer, Error> {
    match checked(status) {
        Ok(_) => Ok(BorrowedPointer { address: pointer }),
        Err(e) => Err(e),
    }
}

/// Tells whether a closure may be called with a text of the given
/// characters.
pub open spec fn accepts_text<F: FnOnce(String) -> Result<(), Error>>(
    f: F,
    characters: Seq<char>,
) -> bool {
    forall|text: String| text@ == characters ==> #[trigger] f.requires((text,))
}

/// The adapter of a completion handler: it serves the one call that
/// reports how an asynchronous operation ended. The first call that reaches
/// the host closure uses the closure up; any later call finds none, calls
/// nothing and answers with success, whatever it brings.
pub struct CompletedHandler<F> {
    callback: Option<F>,
}

impl<F> CompletedHandler<F> {
    /// The closure that waits to be called, if it has not been used up.
    pub closed spec fn pending(&self) -> Option<F> {
        self.callback
    }

    /// Makes the adapter of a closure. The closure waits to be called.
    pub fn new(callback: F) -> (handler: Self)
        ensures
            handler.pending() == Some(callback),
    {
        CompletedHandler { callback: Some(callback) }
    }

    /// Tells whether the closure still waits to be called.
    pub fn is_pending(&self) -> (waiting: bool)
        ensures
            waiting == self.pending().is_some(),
    {
        self.callback.is_some()
    }

    /// Serves a call with an argument that is ready for the host. A
    /// waiting closure is used up: it gets the argument, and its result
    /// becomes the status. Without a waiting closure nothing is called and
    /// the status is success.
    pub fn complete<A>(&mut self, argument: A) -> (status: i32) where
        F: FnOnce(A) -> Result<(), Error>,

        requires
            old(self).pending() matches Some(f) ==> f.requires((argument,)),
        ensures
            final(self).pending().is_none(),
            old(self).pending() matches Some(f) ==> exists|outcome: Result<(), Error>|
                f.ensures((argument,), outcome) && status == status_of(outcome),
            old(self).pending().is_none() ==> status == S_OK,
    {
        match self.callback.take() {
            Some(f) => to_hresult(f(argument)),
            None => S_OK,
        }
    }

    /// Serves the call of a completion that delivers an interface. The
    /// host gets the pointer when the status reports success, else the
    /// error of the status. The pointer is borrowed: the host has to
    /// upgrade it to keep the object.
    pub fn complete_with_interface(&mut self, status: i32, pointer: usize) -> (answer: i32) where
        F: FnOnce(Result<BorrowedPointer, Error>) -> Result<(), Error>,

        requires
            old(self).pending() matches Some(f) ==> f.requires(
                (interface_outcome(status, pointer),),
            ),
        ensures
            final(self).pending().is_none(),
            old(self).pending() matches Some(f) ==> exists|outcome: Result<(), Error>|
                f.ensures((interface_outcome(status, pointer),), outcome) && answer == status_of(
                    outcome,
                ),
            old(self).pending().is_none() ==> answer == S_OK,
    {
        let argument = match check_hresult(status) {
            Ok(_) => Ok(BorrowedPointer::new(pointer)),
            Err(e) => Err(e),
        };
        self.complete(argument)
    }

    /// Serves the call of a completion that delivers nothing but how the
    /// operation ended. The host gets the checked status.
    pub fn complete_with_status(&mut self, status: i32) -> (answer: i32) where
        F: FnOnce(Result<(), Error>) -> Result<(), Error>,

        requires
            old(self).pending() matches Some(f) ==> f.requires((checked(status),)),
        ensures
            final(self).pending().is_none(),
            old(self).pending() matches Some(f) ==> exists|outcome: Result<(), Error>|
                f.ensures((checked(status),), outcome) && answer == status_of(outcome),
            old(self).pending().is_none() ==> answer == S_OK,
    {
        self.complete(check_hresult(status))
    }

    /// Serves the call of a completion that delivers text. A handler whose
    /// closure was used up answers with success, whatever the call brings.
    /// While the closure waits, a status that reports failure is answered
    /// with itself, and text that cannot be decoded with the unspecified
    /// failure; in both cases the closure is not called and keeps waiting.
    /// Else the closure is used up: the host gets the decoded text. The
    /// units are looked at only when the closure waits and the status
    /// reports success.
    pub fn complete_with_string(&mut self, status: i32, units: &[u16]) -> (answer: i32) where
        F: FnOnce(String) -> Result<(), Error>,

        requires
            status >= 0 && decode_utf16(units@) is Some ==> (old(self).pending() matches Some(f)
                ==> accepts_text(f, decode_utf16(units@)->Some_0)),
        ensures
            old(self).pending().is_none() ==> answer == S_OK && final(self).pending().is_none(),
            old(self).pending().is_some() && status < 0 ==> answer == status
                && final(self).pending() == old(self).pending(),
            old(self).pending().is_some() && status >= 0 && decode_utf16(units@) is None
                ==> answer == E_FAIL && final(self).pending() == old(self).pending(),
            status >= 0 && decode_utf16(units@) is Some ==> final(self).pending().is_none(),
            status >= 0 && decode_utf16(units@) is Some ==> (old(self).pending() matches Some(f)
                ==> exists|text: String, outcome: Result<(), Error>|
                text@ == decode_utf16(units@)->Some_0 && f.ensures((text,), outcome) && answer
                    == status_of(outcome)),
    {
        if !self.is_pending() {
            return S_OK;
        }
        match check_hresult(status) {
            Err(e) => e.hresult(),
            Ok(_) => match WideString::decode(units) {
                Err(e) => e.hresult(),
                Ok(text) => self.complete(text),
            },
        }
    }
}

/// The adapter of an event handler: it serves every call that reports an
/// event, for as long as it stays registered. The closure is never used up.
pub struct EventHandler<F> {
    callback: F,
}

impl<F> EventHandler<F> {
    /// The closure that is called for each event.
    pub closed spec fn callback(&self) -> F {
        self.callback
    }

    /// Makes the adapter of a closure.
    pub fn new(callback: F) -> (handler: Self)
        ensures
            handler.callback() == callback,
    {
        EventHandler { callback }
    }

    /// Serves the call for an event that comes with its sender and its
    /// arguments, both as pointers that the native side owns for the time
    /// of the call. The closure gets both, and its result becomes the
    /// status.
    pub fn invoke(&self, sender: usize, args: usize) -> (status: i32) where
        F: Fn(BorrowedPointer, BorrowedPointer) -> Result<(), Error>,

        requires
            self.callback().requires(
                (BorrowedPointer { address: sender }, BorrowedPointer { address: args }),
            ),
        ensures
            exists|outcome: Result<(), Error>|
                self.callback().ensures(
                    (BorrowedPointer { address: sender }, BorrowedPointer { address: args }),
                    outcome,
                ) && status == status_of(outcome),
    {
        to_hresult((self.callback)(BorrowedPointer::new(sender), BorrowedPointer::new(args)))
    }

    /// Serves the call for an event of which the host wants the sender
    /// only. The closure gets the sender, and its result becomes the status.
    pub fn invoke_with_sender(&self, sender: usize) -> (status: i32) where
        F: Fn(BorrowedPointer) -> Result<(), Error>,

        requires
            self.callback().requires((BorrowedPointer { address: sender },)),
        ensures
            exists|outcome: Result<(), Error>|
                self.callback().ensures((BorrowedPointer { address: sender },), outcome)
                    && status == status_of(outcome),
    {
        to_hresult((self.callback)(BorrowedPointer::new(sender)))
    }
}

} // verus!
