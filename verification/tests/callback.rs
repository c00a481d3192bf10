use std::cell::{Cell, RefCell};
use std::rc::Rc;
use webview2::callback::{CompletedHandler, EventHandler};
use webview2::handle::BorrowedPointer;
use webview2::status::{Error, E_FAIL, E_INVALIDARG, S_OK};

#[test]
fn completion_reaches_the_closure_once() {
    let calls = Rc::new(Cell::new(0u32));
    let seen = calls.clone();
    let mut handler = CompletedHandler::new(move |_: Result<(), Error>| {
        seen.set(seen.get() + 1);
        Ok(())
    });
    assert!(handler.is_pending());
    assert_eq!(handler.complete_with_status(S_OK), S_OK);
    assert_eq!(calls.get(), 1);
    assert!(!handler.is_pending());
}

#[test]
fn second_completion_is_answered_with_success_and_calls_nothing() {
    let calls = Rc::new(Cell::new(0u32));
    let seen = calls.clone();
    let mut handler = CompletedHandler::new(move |_: Result<(), Error>| {
        seen.set(seen.get() + 1);
        Err(Error::new(E_FAIL))
    });
    assert_eq!(handler.complete_with_status(S_OK), E_FAIL);
    assert_eq!(handler.complete_with_status(S_OK), S_OK);
    assert_eq!(handler.complete_with_status(E_INVALIDARG), S_OK);
    assert_eq!(calls.get(), 1);
}

#[test]
fn completion_hands_the_argument_and_returns_the_status_of_the_result() {
    let got = Rc::new(Cell::new(0u64));
    let seen = got.clone();
    let mut handler = CompletedHandler::new(move |value: u64| {
        seen.set(value);
        Err(Error::new(-42))
    });
    assert_eq!(handler.complete(77u64), -42);
    assert_eq!(got.get(), 77);
    assert_eq!(handler.complete(78u64), S_OK);
    assert_eq!(got.get(), 77);
}

#[test]
fn status_completion_hands_the_checked_status() {
    let got = Rc::new(RefCell::new(None));
    let seen = got.clone();
    let mut failed = CompletedHandler::new(move |result: Result<(), Error>| {
        *seen.borrow_mut() = Some(result);
        Ok(())
    });
    assert_eq!(failed.complete_with_status(E_FAIL), S_OK);
    assert_eq!(*got.borrow(), Some(Err(Error::new(E_FAIL))));

    let got = Rc::new(RefCell::new(None));
    let seen = got.clone();
    let mut succeeded = CompletedHandler::new(move |result: Result<(), Error>| {
        *seen.borrow_mut() = Some(result);
        Ok(())
    });
    assert_eq!(succeeded.complete_with_status(1), S_OK);
    assert_eq!(*got.borrow(), Some(Ok(())));
}

#[test]
fn interface_completion_hands_the_borrowed_pointer_on_success() {
    let got = Rc::new(RefCell::new(None));
    let seen = got.clone();
    let mut handler = CompletedHandler::new(move |result: Result<BorrowedPointer, Error>| {
        *seen.borrow_mut() = Some(result);
        Ok(())
    });
    assert_eq!(handler.complete_with_interface(S_OK, 0xABC0), S_OK);
    assert_eq!(*got.borrow(), Some(Ok(BorrowedPointer { address: 0xABC0 })));
}

#[test]
fn interface_completion_hands_the_error_on_failure() {
    let got = Rc::new(RefCell::new(None));
    let seen = got.clone();
    let mut handler = CompletedHandler::new(move |result: Result<BorrowedPointer, Error>| {
        *seen.borrow_mut() = Some(result);
        Err(Error::new(E_INVALIDARG))
    });
    assert_eq!(handler.complete_with_interface(E_FAIL, 0xABC0), E_INVALIDARG);
    assert_eq!(*got.borrow(), Some(Err(Error::new(E_FAIL))));
    assert_eq!(handler.complete_with_interface(E_FAIL, 0xABC0), S_OK);
}

#[test]
fn string_completion_hands_the_decoded_text() {
    let got = Rc::new(RefCell::new(String::new()));
    let seen = got.clone();
    let mut handler = CompletedHandler::new(move |text: String| {
        *seen.borrow_mut() = text;
        Ok(())
    });
    let units: Vec<u16> = "{\"a\":1}".encode_utf16().collect();
    assert_eq!(handler.complete_with_string(S_OK, &units), S_OK);
    assert_eq!(*got.borrow(), "{\"a\":1}");
    assert!(!handler.is_pending());
    assert_eq!(handler.complete_with_string(S_OK, &units), S_OK);
}

#[test]
fn string_completion_answers_a_failure_with_itself_and_keeps_the_closure() {
    let calls = Rc::new(Cell::new(0u32));
    let seen = calls.clone();
    let mut handler = CompletedHandler::new(move |_: String| {
        seen.set(seen.get() + 1);
        Ok(())
    });
    assert_eq!(handler.complete_with_string(E_INVALIDARG, &[]), E_INVALIDARG);
    assert_eq!(calls.get(), 0);
    assert!(handler.is_pending());
    assert_eq!(handler.complete_with_string(S_OK, &[0x6F, 0x6B]), S_OK);
    assert_eq!(calls.get(), 1);
}

#[test]
fn string_completion_answers_ill_formed_text_with_the_unspecified_failure() {
    let calls = Rc::new(Cell::new(0u32));
    let seen = calls.clone();
    let mut handler = CompletedHandler::new(move |_: String| {
        seen.set(seen.get() + 1);
        Ok(())
    });
    assert_eq!(handler.complete_with_string(S_OK, &[0xD800]), E_FAIL);
    assert_eq!(calls.get(), 0);
    assert!(handler.is_pending());
}

#[test]
fn used_up_string_completion_answers_success_whatever_it_brings() {
    let calls = Rc::new(Cell::new(0u32));
    let seen = calls.clone();
    let mut handler = CompletedHandler::new(move |_: String| {
        seen.set(seen.get() + 1);
        Err(Error::new(-9))
    });
    assert_eq!(handler.complete_with_string(S_OK, &[0x61]), -9);
    assert_eq!(handler.complete_with_string(E_INVALIDARG, &[]), S_OK);
    assert_eq!(handler.complete_with_string(S_OK, &[0xD800]), S_OK);
    assert_eq!(handler.complete_with_string(S_OK, &[0x61]), S_OK);
    assert_eq!(calls.get(), 1);
    assert!(!handler.is_pending());
}

#[test]
fn string_completion_returns_the_status_of_the_closure() {
    let mut handler = CompletedHandler::new(|_: String| Err(Error::new(-9)));
    assert_eq!(handler.complete_with_string(S_OK, &[0x61]), -9);
}

#[test]
fn event_handler_serves_every_call() {
    let calls = Rc::new(RefCell::new(Vec::new()));
    let seen = calls.clone();
    let handler = EventHandler::new(move |sender: BorrowedPointer, args: BorrowedPointer| {
        seen.borrow_mut().push((sender.address, args.address));
        if args.address == 0 {
            Err(Error::new(E_FAIL))
        } else {
            Ok(())
        }
    });
    assert_eq!(handler.invoke(0x10, 0x20), S_OK);
    assert_eq!(handler.invoke(0x10, 0x30), S_OK);
    assert_eq!(handler.invoke(0x10, 0), E_FAIL);
    assert_eq!(*calls.borrow(), vec![(0x10, 0x20), (0x10, 0x30), (0x10, 0)]);
}

#[test]
fn event_handler_of_the_sender_alone() {
    let calls = Rc::new(Cell::new(0usize));
    let seen = calls.clone();
    let handler = EventHandler::new(move |sender: BorrowedPointer| {
        seen.set(seen.get() + sender.address);
        Err(Error::new(-3))
    });
    assert_eq!(handler.invoke_with_sender(5), -3);
    assert_eq!(handler.invoke_with_sender(7), -3);
    assert_eq!(calls.get(), 12);
}

struct FakeEventSource {
    next_token: i64,
    handlers: Vec<(i64, EventHandler<Box<dyn Fn(BorrowedPointer, BorrowedPointer) -> Result<(), Error>>>)>,
}

impl FakeEventSource {
    fn add(
        &mut self,
        handler: EventHandler<Box<dyn Fn(BorrowedPointer, BorrowedPointer) -> Result<(), Error>>>,
    ) -> (i32, i64) {
        self.next_token += 1;
        self.handlers.push((self.next_token, handler));
        (S_OK, self.next_token)
    }

    fn remove(&mut self, token: i64) -> i32 {
        self.handlers.retain(|(t, _)| *t != token);
        S_OK
    }

    fn dispatch(&self, sender: usize, args: usize) {
        for (_, handler) in &self.handlers {
            handler.invoke(sender, args);
        }
    }
}

#[test]
fn handler_is_called_once_for_each_event_while_it_is_registered() {
    for k in 0..4usize {
        let calls = Rc::new(RefCell::new(Vec::new()));
        let seen = calls.clone();
        let closure: Box<dyn Fn(BorrowedPointer, BorrowedPointer) -> Result<(), Error>> =
            Box::new(move |_, args| {
                seen.borrow_mut().push(args.address);
                Ok(())
            });
        let mut source = FakeEventSource { next_token: 0, handlers: Vec::new() };
        let (status, raw) = source.add(EventHandler::new(closure));
        let token = webview2::property::get(status, raw).unwrap();
        for event in 0..k {
            source.dispatch(0x100, 0x200 + event);
        }
        assert_eq!(webview2::property::put(source.remove(token)), Ok(()));
        for event in 0..3usize {
            source.dispatch(0x100, 0x900 + event);
        }
        let expected: Vec<usize> = (0..k).map(|event| 0x200 + event).collect();
        assert_eq!(*calls.borrow(), expected);
    }
}

#[test]
fn error_of_an_event_closure_goes_back_as_its_status() {
    let handler = EventHandler::new(|_: BorrowedPointer, _: BorrowedPointer| {
        Err(Error::new(E_INVALIDARG))
    });
    assert_eq!(handler.invoke(1, 2), E_INVALIDARG);
    assert_eq!(handler.invoke(1, 2), E_INVALIDARG);
}

#[test]
fn handler_removed_before_any_event_is_never_called() {
    let calls = Rc::new(Cell::new(0u32));
    let seen = calls.clone();
    let closure: Box<dyn Fn(BorrowedPointer, BorrowedPointer) -> Result<(), Error>> =
        Box::new(move |_, _| {
            seen.set(seen.get() + 1);
            Ok(())
        });
    let mut source = FakeEventSource { next_token: 0, handlers: Vec::new() };
    let (status, raw) = source.add(EventHandler::new(closure));
    let token = webview2::property::get(status, raw).unwrap();
    assert_eq!(webview2::property::put(source.remove(token)), Ok(()));
    source.dispatch(0x100, 0x200);
    assert_eq!(calls.get(), 0);
}
