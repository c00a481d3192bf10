use std::io::{Read, Seek, Write};
use webview2::handle::RefOp;
use webview2::status::{Error, IoErrorSource, E_FAIL, E_INVALIDARG, S_OK};
use webview2::stream::{SeekFrom, Stream, STREAM_SEEK_CUR, STREAM_SEEK_END, STREAM_SEEK_SET};

/// Stands in for a native memory stream: bytes and a position, answering
/// each call with a status and what the call writes.
struct NativeMemoryStream {
    bytes: Vec<u8>,
    position: u64,
}

impl NativeMemoryStream {
    fn create(initial: &[u8], count: u32) -> Self {
        NativeMemoryStream { bytes: initial[..count as usize].to_vec(), position: 0 }
    }

    fn read(&mut self, buf: &mut [u8], count: u32) -> (i32, u32) {
        let start = (self.position as usize).min(self.bytes.len());
        let n = (count as usize).min(self.bytes.len() - start);
        buf[..n].copy_from_slice(&self.bytes[start..start + n]);
        self.position += n as u64;
        (S_OK, n as u32)
    }

    fn write(&mut self, buf: &[u8], count: u32) -> (i32, u32) {
        let start = self.position as usize;
        let end = start + count as usize;
        if self.bytes.len() < end {
            self.bytes.resize(end, 0);
        }
        self.bytes[start..end].copy_from_slice(&buf[..count as usize]);
        self.position = end as u64;
        (S_OK, count)
    }

    fn seek(&mut self, amount: i64, origin: u32) -> (i32, u64) {
        let base = match origin {
            0 => 0,
            1 => self.position as i64,
            2 => self.bytes.len() as i64,
            _ => return (E_INVALIDARG, 0),
        };
        let target = base + amount;
        if target < 0 {
            return (E_INVALIDARG, 0);
        }
        self.position = target as u64;
        (S_OK, self.position)
    }
}

/// A host stream over the stand-in, with every decision left to the library.
struct HostStream {
    native: NativeMemoryStream,
}

fn io_error(source: IoErrorSource) -> std::io::Error {
    match source {
        IoErrorSource::Os { code } => std::io::Error::from_raw_os_error(code),
        IoErrorSource::Other { error } => {
            std::io::Error::new(std::io::ErrorKind::Other, error.to_string())
        }
    }
}

impl HostStream {
    fn from_bytes(buf: &[u8]) -> Self {
        let (count, rest) = Stream::from_bytes(buf);
        let mut stream = HostStream { native: NativeMemoryStream::create(buf, count) };
        if rest > 0 {
            stream.seek(std::io::SeekFrom::End(0)).unwrap();
            stream.write_all(&buf[buf.len() - rest..]).unwrap();
            stream.seek(std::io::SeekFrom::Start(0)).unwrap();
        }
        stream
    }
}

impl Read for HostStream {
    fn read(&mut self, buf: &mut [u8]) -> std::io::Result<usize> {
        let count = Stream::request_len(buf.len());
        let (status, read_bytes) = self.native.read(buf, count);
        Stream::read(status, read_bytes).map_err(io_error)
    }
}

impl Write for HostStream {
    fn write(&mut self, buf: &[u8]) -> std::io::Result<usize> {
        let count = Stream::request_len(buf.len());
        let (status, written_bytes) = self.native.write(buf, count);
        Stream::write(status, written_bytes).map_err(io_error)
    }

    fn flush(&mut self) -> std::io::Result<()> {
        Stream::flush().map_err(io_error)
    }
}

impl Seek for HostStream {
    fn seek(&mut self, pos: std::io::SeekFrom) -> std::io::Result<u64> {
        let pos = match pos {
            std::io::SeekFrom::Start(n) => SeekFrom::Start(n),
            std::io::SeekFrom::Current(n) => SeekFrom::Current(n),
            std::io::SeekFrom::End(n) => SeekFrom::End(n),
        };
        assert!(pos.fits());
        let (amount, origin) = Stream::seek_request(pos);
        let (status, new_position) = self.native.seek(amount, origin);
        Stream::seek(status, new_position).map_err(io_error)
    }
}

#[test]
fn test_stream() {
    let mut stream = HostStream::from_bytes(b"hello,");
    stream.seek(std::io::SeekFrom::End(0)).unwrap();
    stream.write_all(b" world").unwrap();

    let mut buf = Vec::new();
    stream.seek(std::io::SeekFrom::Start(0)).unwrap();
    stream.read_to_end(&mut buf).unwrap();
    assert_eq!(buf, b"hello, world");
}

#[test]
fn appended_suffix_follows_the_first_content() {
    for (first, suffix) in [(&b""[..], &b""[..]), (b"", b"tail"), (b"head", b""), (b"\x00\xFF", b"\xFF\x00")] {
        let mut stream = HostStream::from_bytes(first);
        stream.seek(std::io::SeekFrom::End(0)).unwrap();
        stream.write_all(suffix).unwrap();
        stream.seek(std::io::SeekFrom::Start(0)).unwrap();
        let mut all = Vec::new();
        stream.read_to_end(&mut all).unwrap();
        assert_eq!(all, [first, suffix].concat());
    }
}

#[test]
fn failed_seek_surfaces_as_an_operating_system_error() {
    let mut stream = HostStream::from_bytes(b"abc");
    let error = stream.seek(std::io::SeekFrom::Current(-10)).unwrap_err();
    assert_eq!(error.raw_os_error(), Some(0x57));
}

#[test]
fn seek_origins_have_their_native_codes() {
    assert_eq!(STREAM_SEEK_SET, 0);
    assert_eq!(STREAM_SEEK_CUR, 1);
    assert_eq!(STREAM_SEEK_END, 2);
    assert_eq!(Stream::seek_request(SeekFrom::Start(10)), (10, 0));
    assert_eq!(Stream::seek_request(SeekFrom::Current(-3)), (-3, 1));
    assert_eq!(Stream::seek_request(SeekFrom::End(0)), (0, 2));
    assert_eq!(Stream::seek_request(SeekFrom::End(i64::MIN)), (i64::MIN, 2));
    assert_eq!(
        Stream::seek_request(SeekFrom::Start(i64::MAX as u64)),
        (i64::MAX, 0)
    );
}

#[test]
fn only_a_start_offset_can_be_too_large() {
    assert!(SeekFrom::Start(0).fits());
    assert!(SeekFrom::Start(i64::MAX as u64).fits());
    assert!(!SeekFrom::Start(i64::MAX as u64 + 1).fits());
    assert!(!SeekFrom::Start(u64::MAX).fits());
    assert!(SeekFrom::Current(i64::MIN).fits());
    assert!(SeekFrom::End(i64::MAX).fits());
}

#[test]
fn transfer_length_counts_in_thirty_two_bits() {
    assert_eq!(Stream::request_len(0), 0);
    assert_eq!(Stream::request_len(4096), 4096);
    assert_eq!(Stream::request_len(0xFFFF_FFFF), 0xFFFF_FFFF);
    assert_eq!(Stream::request_len(usize::MAX), 0xFFFF_FFFF);
    assert_eq!(Stream::from_bytes(b"hello,"), (6, 0));
    assert_eq!(Stream::from_bytes(b""), (0, 0));
}

#[test]
fn transfer_results_pass_the_count_on_success() {
    assert_eq!(Stream::read(S_OK, 12), Ok(12));
    assert_eq!(Stream::read(1, 0), Ok(0));
    assert_eq!(Stream::write(S_OK, 0xFFFF_FFFF), Ok(0xFFFF_FFFF));
    assert_eq!(Stream::seek(S_OK, u64::MAX), Ok(u64::MAX));
    assert_eq!(Stream::flush(), Ok(()));
}

#[test]
fn transfer_failures_become_input_output_errors() {
    assert_eq!(
        Stream::read(0x8007_0005u32 as i32, 3),
        Err(IoErrorSource::Os { code: 5 })
    );
    assert_eq!(
        Stream::write(E_FAIL, 3),
        Err(IoErrorSource::Other { error: Error::new(E_FAIL) })
    );
    assert_eq!(Stream::seek(E_INVALIDARG, 3), Err(IoErrorSource::Os { code: 0x57 }));
}

#[test]
fn raw_stream_pointer_is_taken_over() {
    let (stream, op) = Stream::from_raw(0x7700);
    assert_eq!(op, RefOp::Keep);
    assert_eq!(stream.as_raw(), 0x7700);
    assert_eq!(stream.into_handle().release(), (0x7700, RefOp::Release));
}
