//! Draining bytes that arrived unasked on a connection.
//!
//! The owner of the connection switches it to non-blocking reads, hands each
//! read's result to a [`Drain`] until the drain is done, then switches it
//! back. The bytes are kept as they came; they are not read as responses.

use vstd::prelude::*;

verus! {

/// What one non-blocking read gave.
#[derive(Debug, PartialEq, Eq)]
pub enum ReadEvent {
    /// Bytes were read (an empty read means the peer has no more).
    Data(Vec<u8>),
    /// The peer closed its side.
    EndOfData,
    /// Nothing is buffered now.
    WouldBlock,
    /// The read failed otherwise.
    Failed,
}

/// The chunks gathered so far, and whether the drain has ended.
pub struct Drain {
    chunks: Vec<Vec<u8>>,
    done: bool,
    failed: bool,
}

impl Drain {
    /// The chunks read so far, in order.
    pub closed spec fn received(&self) -> Seq<Vec<u8>> {
        self.chunks@
    }

    /// No more reads are wanted.
    pub closed spec fn is_done(&self) -> bool {
        self.done
    }

    /// The drain ended on a read error other than would-block.
    pub closed spec fn has_failed(&self) -> bool {
        self.failed
    }

    /// A drain that has read nothing yet.
    pub fn new() -> (d: Drain)
        ensures
            d.received().len() == 0,
            !d.is_done(),
            !d.has_failed(),
    {
        Drain { chunks: Vec::new(), done: false, failed: false }
    }

    /// Takes the result of one read; `true` asks for another read.
    pub fn step(&mut self, event: ReadEvent) -> (more: bool)
        requires
            !old(self).is_done(),
        ensures
            more == !final(self).is_done(),
            match event {
                ReadEvent::Data(b) => if b@.len() > 0 {
                    &&& more
                    &&& final(self).received() == old(self).received().push(b)
                    &&& final(self).has_failed() == old(self).has_failed()
                } else {
                    &&& !more
                    &&& final(self).received() == old(self).received()
                    &&& final(self).has_failed() == old(self).has_failed()
                },
                ReadEvent::EndOfData | ReadEvent::WouldBlock => {
                    &&& !more
                    &&& final(self).received() == old(self).received()
                    &&& final(self).has_failed() == old(self).has_failed()
                },
                ReadEvent::Failed => {
                    &&& !more
                    &&& final(self).received() == old(self).received()
                    &&& final(self).has_failed()
                },
            },
    {
        match event {
            ReadEvent::Data(b) => {
                if b.len() > 0 {
                    self.chunks.push(b);
                    true
                } else {
                    self.done = true;
                    false
                }
            },
            ReadEvent::EndOfData | ReadEvent::WouldBlock => {
                self.done = true;
                false
            },
            ReadEvent::Failed => {
                self.done = true;
                self.failed = true;
                false
            },
        }
    }

    /// Whether the drain ended on a read error other than would-block.
    pub fn failed(&self) -> (r: bool)
        ensures
            r == self.has_failed(),
    {
        self.failed
    }

    /// The chunks read, in order.
    pub fn into_chunks(self) -> (r: Vec<Vec<u8>>)
        ensures
            r@ == self.received(),
    {
        self.chunks
    }
}

} // verus!
