//! Console capabilities: the read, write and statistics contracts that the
//! rest of the system depends on, independent of which physical transport
//! backs them.

use vstd::prelude::*;

verus! {

use crate::uart::{UartModel, drained, expand, expand_text, char_of, rx_stream, sat_add};

/// The abstract transceiver state a console transport is judged against.
pub trait ConsoleState: Sized {
    /// The transport's current state, for contracts.
    spec fn model(&self) -> UartModel;
}

/// Console write capability.
pub trait Write: ConsoleState {
    /// Write one character with the transport's own flow control; `'\n'`
    /// goes out as carriage return then linefeed.
    fn write_char(&mut self, c: char)
        ensures
            final(self).model().wire == old(self).model().wire + expand(c),
            rx_stream(final(self).model()) == rx_stream(old(self).model()),
            final(self).model().busy <= old(self).model().busy,
    ;

    /// Write a pre-rendered formatted message.
    fn write_fmt(&mut self, msg: &str)
        ensures
            final(self).model().wire == old(self).model().wire + expand_text(msg@),
            rx_stream(final(self).model()) == rx_stream(old(self).model()),
            final(self).model().busy <= old(self).model().busy,
    ;

    /// Block until all previously written bytes have physically left the
    /// device, not merely been buffered: returns only with the busy flag
    /// clear, after one poll per scripted busy cycle.
    fn flush(&mut self)
        ensures
            final(self).model().busy == 0,
            final(self).model().wire == old(self).model().wire,
            rx_stream(final(self).model()) == rx_stream(old(self).model()),
            final(self).model().polls == sat_add(old(self).model().polls, old(self).model().busy),
    ;
}

/// Console read capability.
pub trait Read: ConsoleState {
    /// Block until one character is available and return it.
    fn read_char(&mut self) -> (r: char)
        requires
            rx_stream(old(self).model()).len() > 0,
        ensures
            r == char_of(rx_stream(old(self).model())[0]),
            rx_stream(final(self).model()) == rx_stream(old(self).model()).drop_first(),
            final(self).model().wire == old(self).model().wire,
    ;

    /// Discard any bytes currently pending in the receive FIFO, without
    /// blocking: a best-effort drain.
    fn clear_rx(&mut self)
        ensures
            final(self).model() == drained(old(self).model()),
    ;
}

/// Console statistics capability: monotonic counters for observability.
/// They are diagnostic, not load-bearing, and a transport may leave them
/// unimplemented by returning zero.
pub trait Statistics {
    /// How many characters were written, or zero if not tracked.
    fn chars_written(&self) -> usize;

    /// How many characters were read, or zero if not tracked.
    fn chars_read(&self) -> usize;
}

/// The full console: a transport with all three capabilities.
pub trait All: Write + Read + Statistics {
}

/// The process-wide console handle: exactly one console is active at a time,
/// bound once during bring-up and read-only afterward. Code reaches the one
/// active console through it instead of an ambient mutable global.
pub struct ConsoleHandle<C> {
    active: Option<C>,
}

impl<C: All> ConsoleHandle<C> {
    /// The currently bound console, if any.
    pub closed spec fn active(&self) -> Option<C> {
        self.active
    }

    /// An empty handle: no console is active yet.
    pub fn new() -> (r: Self)
        ensures
            r.active() is None,
    {
        ConsoleHandle { active: None }
    }

    /// Bind the one active console. Happens once, during bring-up.
    pub fn bind(&mut self, console: C)
        requires
            old(self).active() is None,
        ensures
            final(self).active() == Some(console),
    {
        self.active = Some(console);
    }

    /// The one active console.
    pub fn console(&mut self) -> (r: &mut C)
        requires
            old(self).active() is Some,
        ensures
            *r == old(self).active()->0,
            final(self).active() == Some(*final(r)),
    {
        match &mut self.active {
            Some(console) => console,
            None => vstd::pervasive::unreached(),
        }
    }
}

} // verus!
