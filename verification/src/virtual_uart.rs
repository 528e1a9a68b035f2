//! Exercise capsules for a virtualized serial device.
//!
//! Each capsule owns one buffer and keeps one transfer of its full length
//! running: `run` starts the first transfer, and the completion callback
//! immediately asks for the next with the same bytes. Several instances
//! driven in parallel exercise the virtualizer's sharing. The device stays
//! outside the crate: the methods hand out the buffer and length to
//! transfer.

use vstd::prelude::*;

verus! {

/// Keeps a reception of its buffer's full length running.
pub struct TestVirtualUartReceive {
    buffer: Option<Vec<u8>>,
}

/// Keeps a transmission of its buffer's full length running.
pub struct TestVirtualUartTransmit {
    buffer: Option<Vec<u8>>,
}

impl TestVirtualUartReceive {
    /// The buffer, when not out on loan to the device.
    pub closed spec fn buffer(&self) -> Option<Seq<u8>> {
        match self.buffer {
            Some(b) => Some(b@),
            None => None,
        }
    }

    pub fn new(buffer: Vec<u8>) -> (r: TestVirtualUartReceive)
        ensures
            r.buffer() == Some(buffer@),
    {
        TestVirtualUartReceive { buffer: Some(buffer) }
    }

    /// Start the first reception: the buffer and its full length.
    pub fn run(&mut self) -> (r: (Vec<u8>, usize))
        requires
            old(self).buffer() is Some,
        ensures
            r.0@ == old(self).buffer()->Some_0,
            r.1 == r.0@.len(),
            final(self).buffer() is None,
    {
        let buf = self.buffer.take().unwrap();
        let len = buf.len();
        (buf, len)
    }

    /// Completion of a reception: ask for the next one with the same
    /// buffer and the completed length.
    pub fn received_buffer(&self, rx_buffer: Vec<u8>, rx_len: usize) -> (r: (Vec<u8>, usize))
        ensures
            r.0@ == rx_buffer@,
            r.1 == rx_len,
    {
        (rx_buffer, rx_len)
    }
}

impl TestVirtualUartTransmit {
    /// The buffer, when not out on loan to the device.
    pub closed spec fn buffer(&self) -> Option<Seq<u8>> {
        match self.buffer {
            Some(b) => Some(b@),
            None => None,
        }
    }

    pub fn new(buffer: Vec<u8>) -> (r: TestVirtualUartTransmit)
        ensures
            r.buffer() == Some(buffer@),
    {
        TestVirtualUartTransmit { buffer: Some(buffer) }
    }

    /// Start the first transmission: the buffer and its full length.
    pub fn run(&mut self) -> (r: (Vec<u8>, usize))
        requires
            old(self).buffer() is Some,
        ensures
            r.0@ == old(self).buffer()->Some_0,
            r.1 == r.0@.len(),
            final(self).buffer() is None,
    {
        let buf = self.buffer.take().unwrap();
        let len = buf.len();
        (buf, len)
    }

    /// Completion of a transmission: ask for the next one with the same
    /// buffer and the completed length.
    pub fn transmitted_buffer(&self, tx_buffer: Vec<u8>, tx_len: usize) -> (r: (Vec<u8>, usize))
        ensures
            r.0@ == tx_buffer@,
            r.1 == tx_len,
    {
        (tx_buffer, tx_len)
    }
}

} // verus!
