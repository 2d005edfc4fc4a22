use vstd::prelude::*;
use core::task::Context;
use core::task::Poll;
use std::io::SeekFrom;
use crate::item::Item;
use crate::model::Event;
use crate::model::ProgressView;
use crate::stream::PollRead;
use crate::stream::PollSeek;
use crate::stream::PollWrite;
use crate::stream::WriteError;
use crate::stream::accepted;
use crate::stream::lift;
use crate::stream::lifted;

verus! {

/// A stream together with the counters of what has passed through it.
///
/// The wrapped resource is owned here and reached only through the methods
/// below, so that no write goes uncounted. To share one stream between tasks,
/// put the whole value behind a lock.
pub struct Progress<T> {
    name: String,
    total: u64,
    size: u64,
    canceled: bool,
    buf: T,
}

impl<T> View for Progress<T> {
    type V = ProgressView;

    closed spec fn view(&self) -> ProgressView {
        ProgressView {
            name: self.name@,
            total: self.total,
            size: self.size,
            canceled: self.canceled,
        }
    }
}

impl<T> Progress<T> {
    /// The wrapped resource.
    pub closed spec fn wrapped(&self) -> T {
        self.buf
    }

    /// Wraps `buf` under an empty label, with nothing transferred yet.
    pub fn new(buf: T) -> (r: Self)
        ensures
            r@ == ProgressView::fresh(Seq::empty()),
            r.wrapped() == buf,
    {
        Progress { name: String::new(), total: 0, size: 0, canceled: false, buf }
    }

    /// Wraps `buf` under the label `name`, with nothing transferred yet.
    pub fn named(name: &str, buf: T) -> (r: Self)
        ensures
            r@ == ProgressView::fresh(name@),
            r.wrapped() == buf,
    {
        Progress { name: name.to_owned(), total: 0, size: 0, canceled: false, buf }
    }

    /// The number of bytes that writes have delivered so far.
    pub fn to_size(&self) -> (n: u64)
        ensures
            n == self@.size,
    {
        self.size
    }

    /// Sets the expected final size. A later call overwrites an earlier one.
    pub fn set_total(&mut self, n: u64)
        ensures
            final(self)@ == old(self)@.set_total(n),
            final(self).wrapped() == old(self).wrapped(),
    {
        self.total = n;
    }

    /// Requests cancellation: from now on every write is refused. The wrapped
    /// resource is left as it is.
    pub fn cancel(&mut self)
        ensures
            final(self)@ == old(self)@.cancel(),
            final(self).wrapped() == old(self).wrapped(),
    {
        self.canceled = true;
    }

    /// A detached copy of the counters, under the label `id` where one is
    /// given and under the stream's own label otherwise.
    pub fn snapshot(&self, id: Option<&str>) -> (item: Item)
        ensures
            item@ == self@.snapshot(
                match id {
                    Some(id) => Some(id@),
                    None => None,
                },
            ),
    {
        let id = match id {
            Some(id) => id.to_owned(),
            None => self.name.clone(),
        };
        Item {
            id,
            name: self.name.clone(),
            total: self.total,
            size: self.size,
            canceled: self.canceled,
        }
    }

    /// Read access to the wrapped resource.
    pub fn get_ref(&self) -> (r: &T)
        ensures
            *r == self.wrapped(),
    {
        &self.buf
    }

    /// Gives the wrapped resource back and drops the counters.
    pub fn into_inner(self) -> (r: T)
        ensures
            r == self.wrapped(),
    {
        self.buf
    }

    /// Counts the bytes of a write that the wrapped resource has answered
    /// with `answer`. A write that has reached the resource counts, whether
    /// or not cancellation has been requested.
    fn count<E>(&mut self, answer: &Poll<Result<usize, E>>)
        ensures
            final(self)@ == old(self)@.record(accepted(*answer)),
            final(self).wrapped() == old(self).wrapped(),
    {
        if let Poll::Ready(Ok(n)) = answer {
            self.size = self.size.saturating_add(*n as u64);
        }
    }
}

impl<T: PollRead> PollRead for Progress<T> {
    type Error = T::Error;

    /// Reads from the wrapped resource, canceled or not.
    ///
    /// The resource's own `poll_read` is called once, with `cx` and `buf` as
    /// they came: the answer, the bytes left in `buf` and the resource's new
    /// state are those of that call. The counters stay as they are.
    fn poll_read(&mut self, cx: &mut Context<'_>, buf: &mut [u8]) -> (r: Poll<
        Result<usize, T::Error>,
    >)
        ensures
            final(self)@ == old(self)@,
            exists|stream: &mut T, c: &mut Context<'_>, b: &mut [u8]|
                #[trigger] call_ensures(T::poll_read, (stream, c, b), r)
                    && *stream == old(self).wrapped() && *final(stream) == final(self).wrapped()
                    && *c == *old(cx) && *final(c) == *final(cx)
                    && b@ == old(buf)@ && final(b)@ == final(buf)@,
    {
        // Called as a function value: Verus then records the call as one of
        // `T::poll_read`, which is what the contract speaks of.
        let read = T::poll_read;
        read(&mut self.buf, cx, buf)
    }
}

impl<T: PollWrite> PollWrite for Progress<T> {
    type Error = WriteError<T::Error>;

    /// Writes to the wrapped resource unless the stream is canceled.
    ///
    /// Once canceled, the write fails with `WriteError::Canceled`, and
    /// neither the resource nor the counters nor `cx` change. Otherwise the
    /// resource's own `poll_write` is called once, with `cx` and `buf` as
    /// they came: its answer is passed on, an error marked as the resource's,
    /// and the bytes that it accepted are added to the size.
    fn poll_write(&mut self, cx: &mut Context<'_>, buf: &[u8]) -> (r: Poll<
        Result<usize, WriteError<T::Error>>,
    >)
        ensures
            old(self)@.canceled ==> {
                &&& r == Poll::<Result<usize, WriteError<T::Error>>>::Ready(
                    Err(WriteError::Canceled),
                )
                &&& *final(self) == *old(self)
                &&& *final(cx) == *old(cx)
            },
            !old(self)@.canceled ==> exists|
                stream: &mut T,
                c: &mut Context<'_>,
                answer: Poll<Result<usize, T::Error>>,
            |
                #[trigger] call_ensures(T::poll_write, (stream, c, buf), answer)
                    && *stream == old(self).wrapped() && *final(stream) == final(self).wrapped()
                    && *c == *old(cx) && *final(c) == *final(cx)
                    && r == lifted(answer)
                    && final(self)@ == old(self)@.step(Event::Write(accepted(answer))),
    {
        if self.canceled {
            return Poll::Ready(Err(WriteError::Canceled));
        }
        let write = T::poll_write;
        let answer = write(&mut self.buf, cx, buf);
        self.count(&answer);
        lift(answer)
    }

    /// Flushes the wrapped resource, canceled or not.
    ///
    /// The resource's own `poll_flush` is called once, with `cx` as it came:
    /// its answer is passed on, an error marked as the resource's. The
    /// counters stay as they are.
    fn poll_flush(&mut self, cx: &mut Context<'_>) -> (r: Poll<Result<(), WriteError<T::Error>>>)
        ensures
            final(self)@ == old(self)@,
            exists|stream: &mut T, c: &mut Context<'_>, answer: Poll<Result<(), T::Error>>|
                #[trigger] call_ensures(T::poll_flush, (stream, c), answer)
                    && *stream == old(self).wrapped() && *final(stream) == final(self).wrapped()
                    && *c == *old(cx) && *final(c) == *final(cx)
                    && r == lifted(answer),
    {
        let flush = T::poll_flush;
        lift(flush(&mut self.buf, cx))
    }

    /// Shuts the wrapped resource down, canceled or not.
    ///
    /// The resource's own `poll_shutdown` is called once, with `cx` as it
    /// came: its answer is passed on, an error marked as the resource's. The
    /// counters stay as they are.
    fn poll_shutdown(&mut self, cx: &mut Context<'_>) -> (r: Poll<
        Result<(), WriteError<T::Error>>,
    >)
        ensures
            final(self)@ == old(self)@,
            exists|stream: &mut T, c: &mut Context<'_>, answer: Poll<Result<(), T::Error>>|
                #[trigger] call_ensures(T::poll_shutdown, (stream, c), answer)
                    && *stream == old(self).wrapped() && *final(stream) == final(self).wrapped()
                    && *c == *old(cx) && *final(c) == *final(cx)
                    && r == lifted(answer),
    {
        let shutdown = T::poll_shutdown;
        lift(shutdown(&mut self.buf, cx))
    }
}

impl<T: PollSeek> PollSeek for Progress<T> {
    type Error = T::Error;

    /// Begins a seek on the wrapped resource, canceled or not.
    ///
    /// The resource's own `start_seek` is called once, with `cx` and
    /// `position` as they came: the answer and the resource's new state are
    /// those of that call. The counters stay as they are.
    fn start_seek(&mut self, cx: &mut Context<'_>, position: SeekFrom) -> (r: Poll<
        Result<(), T::Error>,
    >)
        ensures
            final(self)@ == old(self)@,
            exists|stream: &mut T, c: &mut Context<'_>|
                #[trigger] call_ensures(T::start_seek, (stream, c, position), r)
                    && *stream == old(self).wrapped() && *final(stream) == final(self).wrapped()
                    && *c == *old(cx) && *final(c) == *final(cx),
    {
        let seek = T::start_seek;
        seek(&mut self.buf, cx, position)
    }

    /// Waits for the seek that was begun on the wrapped resource, canceled
    /// or not.
    ///
    /// The resource's own `poll_complete` is called once, with `cx` as it
    /// came: the answer and the resource's new state are those of that call.
    /// The counters stay as they are.
    fn poll_complete(&mut self, cx: &mut Context<'_>) -> (r: Poll<Result<u64, T::Error>>)
        ensures
            final(self)@ == old(self)@,
            exists|stream: &mut T, c: &mut Context<'_>|
                #[trigger] call_ensures(T::poll_complete, (stream, c), r)
                    && *stream == old(self).wrapped() && *final(stream) == final(self).wrapped()
                    && *c == *old(cx) && *final(c) == *final(cx),
    {
        let complete = T::poll_complete;
        complete(&mut self.buf, cx)
    }
}

} // verus!
