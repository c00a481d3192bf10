//! The native byte stream: reading, writing and seeking.
//!
//! A stream is a native object with a position. Each operation is one
//! native call; what is settled here is what goes into the call and what
//! its answer means to the host, whose input/output operations report a
//! failure through their own error type.

use crate::handle::{InterfaceHandle, RefOp};
use crate::status::{check_hresult, checked, Error, IoErrorSource};
use vstd::prelude::*;

verus! {

/// Native origin code: offsets count from the start of the stream.
pub const STREAM_SEEK_SET: u32 = 0;

/// Native origin code: offsets count from the current position.
pub const STREAM_SEEK_CUR: u32 = 1;

/// Native origin code: offsets count from the end of the stream.
pub const STREAM_SEEK_END: u32 = 2;

/// Where a seek is to go: to an offset from the start of the stream, from
/// its current position, or from its end.
#[derive(Debug, Clone, Copy, PartialEq, Eq, Structural)]
pub enum SeekFrom {
    /// So many bytes after the start.
    Start(u64),
    /// So many bytes after the current position, or before it.
    Current(i64),
    /// So many bytes after the end, or before it.
    End(i64),
}

impl SeekFrom {
    /// The native origin code of the position.
    pub open spec fn origin(self) -> u32 {
        match self {
            SeekFrom::Start(_) => STREAM_SEEK_SET,
            SeekFrom::Current(_) => STREAM_SEEK_CUR,
            SeekFrom::End(_) => STREAM_SEEK_END,
        }
    }

    /// The offset of the position, as a number.
    pub open spec fn offset(self) -> int {
        match self {
            SeekFrom::Start(n) => n as int,
            SeekFrom::Current(n) => n as int,
            SeekFrom::End(n) => n as int,
        }
    }

    /// Tells whether the offset fits the signed 64-bit amount that the
    /// native call takes. Only an offset from the start can fail to.
    pub open spec fn fits_spec(self) -> bool {
        self.offset() <= i64::MAX
    }

    /// Tells whether the offset fits the native call.
    #[verifier::when_used_as_spec(fits_spec)]
    pub fn fits(self) -> (ok: bool)
        ensures
            ok == self.fits_spec(),
    {
        match self {
            SeekFrom::Start(n) => n <= 0x7FFF_FFFF_FFFF_FFFF,
            SeekFrom::Current(_) => true,
            SeekFrom::End(_) => true,
        }
    }
}

/// The number of bytes that a native transfer is asked for with a buffer of
/// `len` bytes: the length of the buffer, but no more than the largest
/// count that the call can take, which counts in 32 bits. A transfer of
/// fewer bytes than the buffer holds is an ordinary short transfer; it is
/// never a request for nothing where the buffer holds something.
pub open spec fn transfer_len(len: usize) -> int {
    if len > 0xFFFF_FFFF {
        0xFFFF_FFFF
    } else {
        len as int
    }
}

/// What a host operation reports for a native call that returned `status`
/// and wrote `value`: the value, where the status reports success, else
/// the input/output error that the error of the status becomes.
pub open spec fn io_outcome<T>(status: i32, value: T) -> Result<T, IoErrorSource> {
    match checked(status) {
        Ok(_) => Ok(value),
        Err(e) => Err(e.io_source()),
    }
}

/// Ends a native call on a stream for the host.
fn io_result<T>(status: i32, value: T) -> (result: Result<T, IoErrorSource>)
    ensures
        result == io_outcome(status, value),
{
    match check_hresult(status) {
        Ok(_) => Ok(value),
        Err(e) => Err(e.into_io_error()),
    }
}

/// A handle of a native stream.
#[derive(Debug)]
pub struct Stream {
    inner: InterfaceHandle,
}

impl View for Stream {
    type V = usize;

    /// The address of the stream's interface pointer.
    closed spec fn view(&self) -> usize {
        self.inner@
    }
}

impl Stream {
    /// Plans the creation of a memory stream from the buffer that holds its
    /// first content. The creating call counts in 32 bits: the stream is
    /// created with the first `count` bytes of the buffer, and the `rest`
    /// bytes that follow them did not fit the call and are still to be
    /// written to the end of the stream. The rest is zero for every buffer
    /// that the call can count. The stream that the native side returns
    /// goes to [`Stream::from_raw`].
    pub fn from_bytes(buf: &[u8]) -> (plan: (u32, usize))
        ensures
            plan.0 == transfer_len(buf@.len() as usize),
            plan.0 + plan.1 == buf@.len(),
            plan.1 == 0 <==> buf@.len() <= 0xFFFF_FFFF,
    {
        let count = Self::request_len(buf.len());
        (count, buf.len() - count as usize)
    }

    /// Takes over the pointer of a stream that carries a reference for the
    /// caller. The count of the stream is left as it is.
    pub fn from_raw(pointer: usize) -> (made: (Stream, RefOp))
        requires
            pointer != 0,
        ensures
            made.0@ == pointer,
            made.1 == InterfaceHandle::wrap_owning_op(),
    {
        let (inner, op) = InterfaceHandle::wrap_owning(pointer);
        (Stream { inner }, op)
    }

    /// Makes a stream of a handle.
    pub fn from_handle(inner: InterfaceHandle) -> (stream: Stream)
        ensures
            stream@ == inner@,
    {
        Stream { inner }
    }

    /// Gives the handle of the stream.
    pub fn into_handle(self) -> (inner: InterfaceHandle)
        ensures
            inner@ == self@,
    {
        self.inner
    }

    /// The address of the stream's interface pointer, for a call on it.
    pub fn as_raw(&self) -> (pointer: usize)
        ensures
            pointer == self@,
            pointer != 0,
    {
        self.inner.as_raw()
    }

    /// The byte count to pass to a native read or write for a buffer of
    /// `len` bytes.
    pub fn request_len(len: usize) -> (count: u32)
        ensures
            count == transfer_len(len),
    {
        if len > 0xFFFF_FFFF {
            0xFFFF_FFFF
        } else {
            len as u32
        }
    }

    /// Ends a read: the number of bytes that the native side says it read,
    /// or the input/output error of a status that reports failure.
    pub fn read(status: i32, read_bytes: u32) -> (result: Result<usize, IoErrorSource>)
        ensures
            result == io_outcome(status, read_bytes as usize),
    {
        io_result(status, read_bytes as usize)
    }

    /// Ends a write: the number of bytes that the native side says it
    /// wrote, or the input/output error of a status that reports failure.
    pub fn write(status: i32, written_bytes: u32) -> (result: Result<usize, IoErrorSource>)
        ensures
            result == io_outcome(status, written_bytes as usize),
    {
        io_result(status, written_bytes as usize)
    }

    /// Flushes the stream, which holds nothing back: always success.
    pub fn flush() -> (result: Result<(), IoErrorSource>)
        ensures
            result is Ok,
    {
        Ok(())
    }

    /// The arguments of a native seek: the offset as a signed amount, and
    /// the origin code of the position.
    pub fn seek_request(pos: SeekFrom) -> (request: (i64, u32))
        requires
            pos.fits(),
        ensures
            request.0 == pos.offset(),
            request.1 == pos.origin(),
    {
        match pos {
            SeekFrom::Start(n) => (n as i64, STREAM_SEEK_SET),
            SeekFrom::Current(n) => (n, STREAM_SEEK_CUR),
            SeekFrom::End(n) => (n, STREAM_SEEK_END),
        }
    }

    /// Ends a seek: the new position that the native side wrote, or the
    /// input/output error of a status that reports failure.
    pub fn seek(status: i32, new_position: u64) -> (result: Result<u64, IoErrorSource>)
        ensures
            result == io_outcome(status, new_position),
    {
        io_result(status, new_position)
    }
}

} // verus!
