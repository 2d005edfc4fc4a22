use vstd::prelude::*;
use core::task::Context;
use core::task::Poll;
use std::io::SeekFrom;

verus! {

/// `core::task::Poll`, an enum of std with the variants `Ready(T)` and
/// `Pending`. Verus reads the variants; nothing else is claimed of the type.
#[verifier::external_type_specification]
#[verifier::reject_recursive_types(T)]
pub struct ExPoll<T>(core::task::Poll<T>);

/// `core::task::Context`, the handle of std through which a resource that is
/// not ready arranges to be polled again. The library only passes it on.
#[verifier::external_type_specification]
#[verifier::external_body]
pub struct ExContext<'a>(core::task::Context<'a>);

/// `std::io::SeekFrom`, the position that a seek asks for. The library only
/// passes it on.
#[verifier::external_type_specification]
#[verifier::external_body]
pub struct ExSeekFrom(std::io::SeekFrom);

/// A resource that bytes can be read from, one poll at a time.
///
/// Nothing is assumed of an implementation: each method may answer anything.
pub trait PollRead {
    type Error;

    /// Tries to read into `buf`: the number of bytes read (0 at the end of
    /// the stream), an error, or `Pending`.
    fn poll_read(&mut self, cx: &mut Context<'_>, buf: &mut [u8]) -> Poll<
        Result<usize, Self::Error>,
    >;
}

/// A resource that bytes can be written to, one poll at a time.
///
/// Nothing is assumed of an implementation: each method may answer anything.
pub trait PollWrite {
    type Error;

    /// Tries to write from `buf`: the number of bytes accepted, an error, or
    /// `Pending`.
    fn poll_write(&mut self, cx: &mut Context<'_>, buf: &[u8]) -> Poll<Result<usize, Self::Error>>;

    /// Tries to hand buffered bytes to their destination.
    fn poll_flush(&mut self, cx: &mut Context<'_>) -> Poll<Result<(), Self::Error>>;

    /// Tries to close the resource for writing.
    fn poll_shutdown(&mut self, cx: &mut Context<'_>) -> Poll<Result<(), Self::Error>>;
}

/// A resource whose position can be moved, in two phases.
///
/// Nothing is assumed of an implementation: each method may answer anything.
pub trait PollSeek {
    type Error;

    /// Begins a seek to `position`.
    fn start_seek(&mut self, cx: &mut Context<'_>, position: SeekFrom) -> Poll<
        Result<(), Self::Error>,
    >;

    /// Waits for the seek that was begun: the new offset from the start, an
    /// error, or `Pending`.
    fn poll_complete(&mut self, cx: &mut Context<'_>) -> Poll<Result<u64, Self::Error>>;
}

/// Why a write through a metered stream failed.
#[derive(Debug, PartialEq, Eq)]
pub enum WriteError<E> {
    /// The stream had been canceled: nothing reached the wrapped resource.
    Canceled,
    /// The wrapped resource failed with this error.
    Inner(E),
}

/// `answer` with an error of the wrapped resource marked as such.
pub open spec fn lifted<V, E>(answer: Poll<Result<V, E>>) -> Poll<Result<V, WriteError<E>>> {
    match answer {
        Poll::Ready(Ok(v)) => Poll::Ready(Ok(v)),
        Poll::Ready(Err(e)) => Poll::Ready(Err(WriteError::Inner(e))),
        Poll::Pending => Poll::Pending,
    }
}

/// The number of bytes that a write with this answer delivered.
pub open spec fn accepted<E>(answer: Poll<Result<usize, E>>) -> nat {
    match answer {
        Poll::Ready(Ok(n)) => n as nat,
        _ => 0,
    }
}

/// Marks an error of the wrapped resource as such and passes the rest on.
pub fn lift<V, E>(answer: Poll<Result<V, E>>) -> (r: Poll<Result<V, WriteError<E>>>)
    ensures
        r == lifted(answer),
{
    match answer {
        Poll::Ready(Ok(v)) => Poll::Ready(Ok(v)),
        Poll::Ready(Err(e)) => Poll::Ready(Err(WriteError::Inner(e))),
        Poll::Pending => Poll::Pending,
    }
}

} // verus!
