//! Bounded event buffer with a size-based flush signal.
//!
//! Events are appended one at a time; `push` reports whether the buffer
//! has reached its configured flush threshold, and `flush` atomically
//! hands back everything buffered so far, leaving the buffer empty.

use vstd::prelude::*;

verus! {

/// Number of buffered entries at which `push` starts asking for a flush,
/// when no explicit threshold is configured.
pub const DEFAULT_FLUSH_SIZE: usize = 10000;

/// Initial capacity hint for the backing storage of a fresh buffer.
pub const DEFAULT_BUFFER_SIZE: usize = 128;

/// Answer of `LogBuffer::push`: whether the buffer has reached its flush
/// threshold and should be drained by the caller.
#[derive(Debug, Hash, PartialEq, Eq, Structural, Clone, Copy)]
pub enum NeedFlush {
    Yes,
    No,
}

/// Accumulates events until a caller drains them in one batch.
///
/// `push` appends a value and signals `NeedFlush::Yes` exactly when the
/// post-append length has reached the configured flush threshold. `flush`
/// swaps the contents out for a fresh, empty buffer (pre-sized to the
/// configured capacity hint) and returns everything buffered, in arrival
/// order. An empty buffer flushes to an empty batch, never to an absent
/// one.
#[derive(Debug)]
pub struct LogBuffer<T> {
    flush_sz: usize,
    buffer_sz: usize,
    buf: Vec<T>,
}

impl<T> LogBuffer<T> {
    /// The buffered events, in arrival order.
    pub closed spec fn contents(self) -> Seq<T> {
        self.buf@
    }

    /// The configured flush threshold.
    pub closed spec fn flush_size(self) -> usize {
        self.flush_sz
    }

    /// The configured initial-capacity hint for fresh backing storage.
    pub closed spec fn capacity_hint(self) -> usize {
        self.buffer_sz
    }

    pub fn new(flush_sz: usize) -> (r: Self)
        ensures
            r.contents() == Seq::<T>::empty(),
            r.flush_size() == flush_sz,
            r.capacity_hint() == DEFAULT_BUFFER_SIZE,
    {
        Self::with_buf_size(flush_sz, DEFAULT_BUFFER_SIZE)
    }

    pub fn with_buf_size(flush_sz: usize, buffer_sz: usize) -> (r: Self)
        ensures
            r.contents() == Seq::<T>::empty(),
            r.flush_size() == flush_sz,
            r.capacity_hint() == buffer_sz,
    {
        LogBuffer { flush_sz, buffer_sz, buf: Vec::with_capacity(buffer_sz) }
    }

    /// Append one value and report whether the buffer is due for a flush.
    ///
    /// The signal is `Yes` if and only if the length after the append has
    /// reached the flush threshold, so a caller that flushes on every
    /// `Yes` keeps the buffer length below the threshold between calls.
    pub fn push(&mut self, val: T) -> (r: NeedFlush)
        ensures
            final(self).contents() == old(self).contents().push(val),
            final(self).flush_size() == old(self).flush_size(),
            final(self).capacity_hint() == old(self).capacity_hint(),
            r == (if final(self).contents().len() >= old(self).flush_size() {
                NeedFlush::Yes
            } else {
                NeedFlush::No
            }),
    {
        self.buf.push(val);
        if self.buf.len() >= self.flush_sz {
            NeedFlush::Yes
        } else {
            NeedFlush::No
        }
    }

    /// Drain the buffer: return everything pushed so far, in arrival
    /// order, and leave the buffer empty with fresh backing storage.
    pub fn flush(&mut self) -> (r: Vec<T>)
        ensures
            r@ == old(self).contents(),
            final(self).contents() == Seq::<T>::empty(),
            final(self).flush_size() == old(self).flush_size(),
            final(self).capacity_hint() == old(self).capacity_hint(),
    {
        let mut drained: Vec<T> = Vec::with_capacity(self.buffer_sz);
        core::mem::swap(&mut self.buf, &mut drained);
        drained
    }
}

impl<T> Default for LogBuffer<T> {
    fn default() -> (r: Self)
        ensures
            r.contents() == Seq::<T>::empty(),
            r.flush_size() == DEFAULT_FLUSH_SIZE,
            r.capacity_hint() == DEFAULT_BUFFER_SIZE,
    {
        Self::new(DEFAULT_FLUSH_SIZE)
    }
}

/// Decide whether a drain-and-forward cycle is due: it fires on a timer
/// tick, on a size-triggered signal from the buffer, or both.
pub fn flush_due(timer_tick: bool, signal: NeedFlush) -> (r: bool)
    ensures
        r == (timer_tick || signal == NeedFlush::Yes),
{
    timer_tick || matches!(signal, NeedFlush::Yes)
}

} // verus!
