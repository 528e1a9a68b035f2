//! Ping-pong capsule over one serial device.
//!
//! The capsule owns a transmit and a receive buffer and plays a simple
//! pong: whatever arrives is acknowledged by incrementing its first byte
//! and transmitting the result back. The device itself stays outside the
//! crate: methods hand out the buffer to transfer and the completion
//! callbacks take it back.

use vstd::prelude::*;

use crate::external_call::copy_into;
use crate::syscall::ErrorCode;

verus! {

/// Buffer-owning state of the capsule; see the module documentation.
pub struct UartCapsule {
    tx_buffer: Option<Vec<u8>>,
    rx_buffer: Option<Vec<u8>>,
}

impl UartCapsule {
    /// The transmit buffer, when not out on loan to the device.
    pub closed spec fn tx(&self) -> Option<Seq<u8>> {
        match self.tx_buffer {
            Some(b) => Some(b@),
            None => None,
        }
    }

    /// The receive buffer, when not out on loan to the device.
    pub closed spec fn rx(&self) -> Option<Seq<u8>> {
        match self.rx_buffer {
            Some(b) => Some(b@),
            None => None,
        }
    }

    /// A capsule holding both of its buffers.
    pub fn new(tx_buffer: Vec<u8>, rx_buffer: Vec<u8>) -> (r: UartCapsule)
        ensures
            r.tx() == Some(tx_buffer@),
            r.rx() == Some(rx_buffer@),
    {
        UartCapsule { tx_buffer: Some(tx_buffer), rx_buffer: Some(rx_buffer) }
    }

    /// Copy `buffer` into the transmit buffer and hand the result out for
    /// transmission; `BUSY` while the transmit buffer is already out.
    pub fn start_transmission(&mut self, buffer: &[u8]) -> (r: Result<Vec<u8>, ErrorCode>)
        ensures
            final(self).rx() == old(self).rx(),
            match old(self).tx() {
                None => r == Err::<Vec<u8>, ErrorCode>(ErrorCode::Busy) && final(self).tx()
                    == old(self).tx(),
                Some(t) => {
                    &&& r matches Ok(b)
                    &&& b@ == copy_into(t, buffer@)
                    &&& final(self).tx() is None
                },
            },
    {
        match self.tx_buffer.take() {
            None => Err(ErrorCode::Busy),
            Some(mut tx_buf) => {
                let src_len = buffer.len();
                let dst_len = tx_buf.len();
                let n = if src_len < dst_len {
                    src_len
                } else {
                    dst_len
                };
                let mut i: usize = 0;
                while i < n
                    invariant
                        i <= n,
                        n <= buffer@.len(),
                        n <= tx_buf@.len(),
                        tx_buf@.len() == old(self).tx()->Some_0.len(),
                        forall|j: int| 0 <= j < i ==> tx_buf@[j] == buffer@[j],
                        forall|j: int|
                            i <= j < tx_buf@.len() ==> tx_buf@[j] == old(self).tx()->Some_0[j],
                    decreases n - i,
                {
                    tx_buf.set(i, buffer[i]);
                    i = i + 1;
                }
                proof {
                    assert(tx_buf@ =~= copy_into(old(self).tx()->Some_0, buffer@));
                }
                Ok(tx_buf)
            },
        }
    }

    /// Hand the receive buffer out for the next reception; `BUSY` while it
    /// is already out.
    pub fn receive(&mut self) -> (r: Result<Vec<u8>, ErrorCode>)
        ensures
            final(self).tx() == old(self).tx(),
            match old(self).rx() {
                None => r == Err::<Vec<u8>, ErrorCode>(ErrorCode::Busy) && final(self).rx()
                    == old(self).rx(),
                Some(b) => (r matches Ok(v) && v@ == b) && final(self).rx() is None,
            },
    {
        match self.rx_buffer.take() {
            None => Err(ErrorCode::Busy),
            Some(rx_buf) => Ok(rx_buf),
        }
    }

    /// Return of the transmit buffer from the device after a completed or
    /// failed transfer.
    pub fn transmitted_buffer(&mut self, buffer: Vec<u8>)
        ensures
            final(self).tx() == Some(buffer@),
            final(self).rx() == old(self).rx(),
    {
        self.tx_buffer = Some(buffer);
    }

    /// Completion of a reception: pong the sender by incrementing the
    /// first byte (wrapping at 255) and transmitting the result, and keep
    /// the buffer for the next reception.
    ///
    /// The result is the transmit action of [`Self::start_transmission`]
    /// on the incremented contents.
    pub fn received_buffer(&mut self, buffer: Vec<u8>) -> (r: Result<Vec<u8>, ErrorCode>)
        requires
            buffer@.len() > 0,
        ensures
            ({
                let ponged = buffer@.update(0, ((buffer@[0] + 1) % 256) as u8);
                &&& final(self).rx() == Some(ponged)
                &&& match old(self).tx() {
                    None => r == Err::<Vec<u8>, ErrorCode>(ErrorCode::Busy) && final(self).tx()
                        == old(self).tx(),
                    Some(t) => {
                        &&& r matches Ok(b)
                        &&& b@ == copy_into(t, ponged)
                        &&& final(self).tx() is None
                    },
                }
            }),
    {
        let mut buffer = buffer;
        let b0 = buffer[0];
        let incremented: u8 = if b0 == 255 {
            0
        } else {
            b0 + 1
        };
        buffer.set(0, incremented);
        let r = self.start_transmission(buffer.as_slice());
        self.rx_buffer = Some(buffer);
        r
    }
}

} // verus!
