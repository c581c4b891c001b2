//! A writer that buffers what is written until it is given the real writer,
//! then writes the buffer to it and passes everything on.

use std::io::Error as IoError;
use std::io::Write;
use vstd::prelude::*;

verus! {

/// The buffer's starting capacity.
pub const DEFAULT_CAPACITY: usize = 1_000_000;

/// Errors of I/O.
#[verifier::external_type_specification]
#[verifier::external_body]
pub struct ExIoError(IoError);

/// Write all of `bytes` to `writer`, with `Write::write_all`. Nothing is
/// stated of the outcome: it is I/O.
#[verifier::external_body]
fn write_all_to<W: Write>(writer: &mut W, bytes: &[u8]) -> (res: Result<(), IoError>) {
    writer.write_all(bytes)
}

/// Write some of `bytes` to `writer`, with `Write::write`. Nothing is
/// stated of the outcome: it is I/O.
#[verifier::external_body]
fn write_to<W: Write>(writer: &mut W, bytes: &[u8]) -> (res: Result<usize, IoError>) {
    writer.write(bytes)
}

/// Flush `writer`, with `Write::flush`. Nothing is stated of the outcome: it
/// is I/O.
#[verifier::external_body]
fn flush_writer<W: Write>(writer: &mut W) -> (res: Result<(), IoError>) {
    writer.flush()
}

/// The message of the error for a second initialization.
pub const ALREADY_INITIALIZED_MSG: &'static str = "already initalized";

/// An I/O error of kind `Other` with the message `msg`, from
/// `io::Error::new`. Nothing is stated of it: the error is opaque here.
#[verifier::external_body]
fn other_io_error(msg: &str) -> (res: IoError) {
    IoError::new(std::io::ErrorKind::Other, msg)
}

/// Why initializing a delay writer failed.
#[derive(Debug)]
pub enum InitError {
    /// It was already initialized: an error of kind `Other` with the message
    /// [`ALREADY_INITIALIZED_MSG`].
    AlreadyInitialized,
    /// Writing the buffered bytes to the writer failed.
    Write(IoError),
}

impl InitError {
    /// The message of an error that this library makes, which has the kind
    /// `Other`: that of a second initialization. A failed write carries the
    /// writer's own error, whose message is not known here.
    pub fn other_message(&self) -> (res: Option<&'static str>)
        ensures
            self is AlreadyInitialized ==> res == Some(ALREADY_INITIALIZED_MSG),
            self is Write ==> res is None,
    {
        match self {
            InitError::AlreadyInitialized => Some(ALREADY_INITIALIZED_MSG),
            InitError::Write(_) => None,
        }
    }

    /// The I/O error this stands for: for a second initialization, one of
    /// kind `Other` with the message [`ALREADY_INITIALIZED_MSG`]; for a failed
    /// write, the error of the write.
    pub fn into_io_error(self) -> (res: IoError)
        ensures
            self matches InitError::Write(e) ==> res == e,
    {
        match self {
            InitError::AlreadyInitialized => other_io_error(ALREADY_INITIALIZED_MSG),
            InitError::Write(e) => e,
        }
    }
}

/// The state of a delay writer: the bytes buffered so far, or the writer
/// that everything now goes to.
#[derive(Debug)]
pub enum DelayWriterInner<W> {
    /// The buffered data.
    Buffer(Vec<u8>),
    /// The file being written to.
    Writer(W),
}

/// The bytes buffered so far, while there is no writer yet.
pub open spec fn buffered<W>(w: &DelayWriterInner<W>) -> Option<Seq<u8>> {
    match w {
        DelayWriterInner::Buffer(b) => Some(b@),
        DelayWriterInner::Writer(_) => None,
    }
}

impl<W: Write> DelayWriterInner<W> {
    /// Make a new DelayWriterInner with an empty buffer
    pub fn new() -> (res: Self)
        ensures
            buffered(&res) == Some(Seq::<u8>::empty()),
    {
        DelayWriterInner::Buffer(Vec::with_capacity(DEFAULT_CAPACITY))
    }

    /// The bytes waiting for a writer: the whole buffer, in order, or none
    /// once there is a writer.
    pub fn pending_bytes(&self) -> (res: Option<&[u8]>)
        ensures
            match res {
                Some(b) => buffered(self) == Some(b@),
                None => buffered(self) is None,
            },
    {
        match self {
            DelayWriterInner::Buffer(bytes) => Some(bytes.as_slice()),
            DelayWriterInner::Writer(_) => None,
        }
    }

    /// Finish initializing with `writer`, given how writing the pending
    /// bytes to it went: after a good write everything goes to `writer`; a
    /// failed write is reported with its own error and the buffer is kept.
    pub fn finish_init(&mut self, writer: W, written: Result<(), IoError>) -> (res: Result<
        (),
        InitError,
    >)
        ensures
            *old(self) is Writer ==> (res matches Err(InitError::AlreadyInitialized))
                && *final(self) == *old(self),
            *old(self) is Buffer && written is Ok ==> res is Ok && *final(self)
                == DelayWriterInner::<W>::Writer(writer),
            *old(self) is Buffer && written is Err ==> (res matches Err(InitError::Write(e)) && e
                == written->Err_0) && *final(self) == *old(self),
    {
        match self {
            DelayWriterInner::Writer(_) => Err(InitError::AlreadyInitialized),
            DelayWriterInner::Buffer(_) => match written {
                Ok(()) => {
                    *self = DelayWriterInner::Writer(writer);
                    Ok(())
                },
                Err(e) => Err(InitError::Write(e)),
            },
        }
    }

    /// Try to init this DelayWriterInner with a writer: the pending bytes
    /// ([`Self::pending_bytes`]) are written to it first, then
    /// [`Self::finish_init`] installs it or reports the failed write.
    ///
    /// # Error
    /// Will return an error if this is already initalized, or if writing the
    /// buffer fails; then nothing changes.
    pub fn init(&mut self, writer: W) -> (res: Result<(), InitError>)
        ensures
            *old(self) is Writer ==> (res matches Err(InitError::AlreadyInitialized))
                && *final(self) == *old(self),
            *old(self) is Buffer ==> !(res matches Err(InitError::AlreadyInitialized)),
            *old(self) is Buffer && res is Ok ==> *final(self) is Writer,
            *old(self) is Buffer && res is Err ==> *final(self) == *old(self),
    {
        let mut writer = writer;
        let written = match self.pending_bytes() {
            Some(bytes) => write_all_to(&mut writer, bytes),
            None => {
                return Err(InitError::AlreadyInitialized);
            },
        };
        self.finish_init(writer, written)
    }

    /// Write some bytes: into the buffer, which takes all of them, or to the
    /// writer.
    pub fn write(&mut self, buf: &[u8]) -> (res: Result<usize, IoError>)
        ensures
            *old(self) is Buffer ==> res == Ok::<usize, IoError>(buf@.len() as usize)
                && buffered(&*final(self)) == Some(buffered(&*old(self))->0 + buf@),
            *old(self) is Writer ==> *final(self) is Writer,
    {
        match self {
            DelayWriterInner::Buffer(buffer) => {
                buffer.extend_from_slice(buf);
                Ok(buf.len())
            },
            DelayWriterInner::Writer(writer) => write_to(writer, buf),
        }
    }

    /// Write all of some bytes: into the buffer, or to the writer.
    pub fn write_all(&mut self, buf: &[u8]) -> (res: Result<(), IoError>)
        ensures
            *old(self) is Buffer ==> res is Ok && buffered(&*final(self)) == Some(
                buffered(&*old(self))->0 + buf@,
            ),
            *old(self) is Writer ==> *final(self) is Writer,
    {
        match self {
            DelayWriterInner::Buffer(buffer) => {
                buffer.extend_from_slice(buf);
                Ok(())
            },
            DelayWriterInner::Writer(writer) => write_all_to(writer, buf),
        }
    }

    /// Flush: nothing to do for the buffer; else flush the writer.
    pub fn flush(&mut self) -> (res: Result<(), IoError>)
        ensures
            *old(self) is Buffer ==> res is Ok && *final(self) == *old(self),
            *old(self) is Writer ==> *final(self) is Writer,
    {
        match self {
            DelayWriterInner::Buffer(_) => Ok(()),
            DelayWriterInner::Writer(writer) => flush_writer(writer),
        }
    }
}

} // verus!
