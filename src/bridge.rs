//! The read side of the serial loop: what becomes of each read from the
//! scale. The caller reads the port, and writes the queued commands to it.
use vstd::prelude::*;

use crate::cache::Cache;
use crate::framer::{ensamblar_y_filtrar_datos, feed};

verus! {

/// The result of one read from the serial port.
#[derive(Debug, PartialEq, Eq)]
pub enum ReadEvent {
    /// These bytes arrived; possibly none.
    Bytes(Vec<u8>),
    /// The read timed out with nothing to show: the usual case.
    TimedOut,
    /// The read failed.
    Failed,
}

/// What a read led to.
#[derive(Debug, Clone, Copy, PartialEq, Eq, Structural)]
pub enum ReadOutcome {
    /// A relevant frame was completed and stored in the cache.
    Stored,
    /// Bytes were taken in; no relevant frame was completed.
    Pending,
    /// Nothing arrived.
    Idle,
    /// The read failed; the loop goes on.
    Failed,
}

/// The serial loop's own state: the bytes of the frame under way.
pub struct SerialBridge {
    partial_data: Vec<u8>,
}

impl View for SerialBridge {
    type V = Seq<u8>;

    closed spec fn view(&self) -> Seq<u8> {
        self.partial_data@
    }
}

/// The bytes that a read event brings, if any.
pub open spec fn event_bytes(event: ReadEvent) -> Seq<u8> {
    match event {
        ReadEvent::Bytes(b) => b@,
        _ => seq![],
    }
}

impl SerialBridge {
    /// A bridge with nothing pending.
    pub fn new() -> (r: SerialBridge)
        ensures
            r@ == Seq::<u8>::empty(),
    {
        SerialBridge { partial_data: Vec::new() }
    }

    /// How many bytes are pending.
    pub fn pending_len(&self) -> (r: usize)
        ensures
            r == self@.len(),
    {
        self.partial_data.len()
    }

    /// Takes in one read: its bytes go through the framer, and a completed
    /// relevant frame replaces the cache's reading, stamped `now`. Timeouts,
    /// empty reads and failures change nothing.
    pub fn on_read(&mut self, event: ReadEvent, cache: &mut Cache, now: u64) -> (r: ReadOutcome)
        requires
            old(self)@.len() + event_bytes(event).len() <= usize::MAX,
        ensures
            match event {
                ReadEvent::Bytes(b) => if b@.len() == 0 {
                    &&& r == ReadOutcome::Idle
                    &&& final(self)@ == old(self)@
                    &&& final(cache)@ == old(cache)@
                } else {
                    let (rest, out) = feed(old(self)@, b@);
                    &&& final(self)@ == rest
                    &&& match out {
                        Some(frame) => r == ReadOutcome::Stored && final(cache)@ == Some((frame, now)),
                        None => r == ReadOutcome::Pending && final(cache)@ == old(cache)@,
                    }
                },
                ReadEvent::TimedOut => {
                    &&& r == ReadOutcome::Idle
                    &&& final(self)@ == old(self)@
                    &&& final(cache)@ == old(cache)@
                },
                ReadEvent::Failed => {
                    &&& r == ReadOutcome::Failed
                    &&& final(self)@ == old(self)@
                    &&& final(cache)@ == old(cache)@
                },
            },
    {
        match event {
            ReadEvent::Bytes(bytes) => {
                if bytes.len() == 0 {
                    return ReadOutcome::Idle;
                }
                match ensamblar_y_filtrar_datos(bytes.as_slice(), &mut self.partial_data) {
                    Some(frame) => {
                        cache.set(frame, now);
                        ReadOutcome::Stored
                    },
                    None => ReadOutcome::Pending,
                }
            },
            ReadEvent::TimedOut => ReadOutcome::Idle,
            ReadEvent::Failed => ReadOutcome::Failed,
        }
    }
}

} // verus!
