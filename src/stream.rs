//! What the relay learns from, and asks of, one OS-level byte stream.
use vstd::prelude::*;

verus! {

/// Why a read or a write on a non-blocking stream did not complete.
#[derive(Debug, Clone, Copy, PartialEq, Eq, Structural)]
pub enum IoFailure {
    /// Nothing can be done now; try after the next readiness wait.
    WouldBlock,
    /// The reading side of the destination is gone.
    BrokenPipe,
    /// Any other failure, with its OS error number.
    Other(i32),
}

/// The result of one read on a non-blocking stream.
pub enum ReadOutcome {
    /// Bytes that were read; never empty.
    Data(Vec<u8>),
    /// The writing side closed: no byte will come any more.
    EndOfStream,
    /// No byte is ready now.
    WouldBlock,
}

/// The result of one write on a non-blocking stream.
#[derive(Debug, Clone, Copy, PartialEq, Eq, Structural)]
pub enum WriteOutcome {
    /// The stream accepted this many leading bytes.
    Wrote(usize),
    /// The stream accepts no byte now.
    WouldBlock,
    /// The reading side of the stream is gone.
    BrokenPipe,
}

/// What a readiness wait reported for one stream.
#[derive(Debug, Clone, Copy, PartialEq, Eq, Structural)]
pub struct Readiness {
    /// Bytes can be read without blocking.
    pub readable: bool,
    /// Bytes can be written without blocking.
    pub writable: bool,
    /// The stream hung up or reported an error.
    pub hangup: bool,
}

/// What a readiness wait should watch for on one stream.
#[derive(Debug, Clone, Copy, PartialEq, Eq, Structural)]
pub struct Interest {
    pub read: bool,
    pub write: bool,
}

/// A report on which nothing is ready.
pub open spec fn quiet() -> Readiness {
    Readiness { readable: false, writable: false, hangup: false }
}

/// Sorts the raw result of a read: zero bytes mean end of stream, a would-block means
/// "later", and any other failure is fatal and handed back.
pub fn classify_read(r: Result<Vec<u8>, IoFailure>) -> (o: Result<ReadOutcome, IoFailure>)
    ensures
        match r {
            Ok(b) => if b@.len() == 0 {
                o matches Ok(ReadOutcome::EndOfStream)
            } else {
                o matches Ok(ReadOutcome::Data(d)) && d@ == b@
            },
            Err(IoFailure::WouldBlock) => o matches Ok(ReadOutcome::WouldBlock),
            Err(e) => o == Err::<ReadOutcome, IoFailure>(e),
        },
{
    match r {
        Ok(b) => if b.len() == 0 {
            Ok(ReadOutcome::EndOfStream)
        } else {
            Ok(ReadOutcome::Data(b))
        },
        Err(IoFailure::WouldBlock) => Ok(ReadOutcome::WouldBlock),
        Err(e) => Err(e),
    }
}

/// Sorts the raw result of a write: a would-block means "later", a broken pipe means
/// the destination closed, and any other failure is fatal and handed back.
pub fn classify_write(r: Result<usize, IoFailure>) -> (o: Result<WriteOutcome, IoFailure>)
    ensures
        match r {
            Ok(n) => o == Ok::<WriteOutcome, IoFailure>(WriteOutcome::Wrote(n)),
            Err(IoFailure::WouldBlock) => o == Ok::<WriteOutcome, IoFailure>(WriteOutcome::WouldBlock),
            Err(IoFailure::BrokenPipe) => o == Ok::<WriteOutcome, IoFailure>(WriteOutcome::BrokenPipe),
            Err(e) => o == Err::<WriteOutcome, IoFailure>(e),
        },
{
    match r {
        Ok(n) => Ok(WriteOutcome::Wrote(n)),
        Err(IoFailure::WouldBlock) => Ok(WriteOutcome::WouldBlock),
        Err(IoFailure::BrokenPipe) => Ok(WriteOutcome::BrokenPipe),
        Err(e) => Err(e),
    }
}

} // verus!
