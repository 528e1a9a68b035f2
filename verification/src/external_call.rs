//! Syscall tunneling over a serial link.
//!
//! A command syscall travels as a fixed 17-byte frame: a one-byte type tag
//! ([`FRAME_TAG_SYSCALL`] or [`FRAME_TAG_RESPONSE`]) followed by four
//! big-endian words — driver number, subdriver number and two arguments on
//! the way in; return-variant identifier, payload and two spare words on
//! the way out. The driver number's top bit is cleared on the wire, since
//! a set top bit marks an identifier as external on the receiving side.
//!
//! [`ExternalCall`] owns the transmit and receive buffers and a one-deep
//! pending flag, and is a protocol layer over the syscall router: an
//! incoming syscall frame is parsed, routed through
//! [`DriverRegistry::dispatch`], and answered with a response frame. The
//! serial port itself stays outside the crate: methods return the bytes to
//! transmit or the buffer to receive into, and the port's completion
//! callbacks hand the buffers back.

use vstd::prelude::*;

use crate::router::DriverRegistry;
use crate::router::dispatch_result;
use crate::syscall::CommandReturn;
use crate::syscall::ErrorCode;
use crate::syscall::ProcessId;
use crate::syscall::Syscall;
use crate::syscall::syscall_return_payload;
use crate::syscall::syscall_return_variant;

verus! {

/// Length in bytes of every frame on the link.
pub const FRAME_LEN: usize = 17;

/// Type tag of a frame carrying a syscall request.
pub const FRAME_TAG_SYSCALL: u8 = 1;

/// Type tag of a frame carrying a syscall response.
pub const FRAME_TAG_RESPONSE: u8 = 2;

/// Byte `k` (big-endian, `k < 4`) of the word `w`.
pub open spec fn be_byte(w: u32, k: int) -> u8 {
    if k == 0 {
        ((w >> 24) & 0xff) as u8
    } else if k == 1 {
        ((w >> 16) & 0xff) as u8
    } else if k == 2 {
        ((w >> 8) & 0xff) as u8
    } else {
        (w & 0xff) as u8
    }
}

/// The word spelled by four big-endian bytes.
pub open spec fn be_word(b0: u8, b1: u8, b2: u8, b3: u8) -> u32 {
    ((b0 as u32) << 24) | ((b1 as u32) << 16) | ((b2 as u32) << 8) | (b3 as u32)
}

/// The frame in which a command request travels: the syscall tag, then the
/// four words, with the driver number's top bit cleared.
pub open spec fn command_frame(
    driver_number: u32,
    subdriver_number: u32,
    arg0: u32,
    arg1: u32,
) -> Seq<u8> {
    seq![
        FRAME_TAG_SYSCALL,
        (((driver_number >> 24) & 0x7f) as u8),
        be_byte(driver_number, 1),
        be_byte(driver_number, 2),
        be_byte(driver_number, 3),
        be_byte(subdriver_number, 0),
        be_byte(subdriver_number, 1),
        be_byte(subdriver_number, 2),
        be_byte(subdriver_number, 3),
        be_byte(arg0, 0),
        be_byte(arg0, 1),
        be_byte(arg0, 2),
        be_byte(arg0, 3),
        be_byte(arg1, 0),
        be_byte(arg1, 1),
        be_byte(arg1, 2),
        be_byte(arg1, 3),
    ]
}

/// The frame in which a command result travels back: the response tag, the
/// return-variant identifier word, the payload word, and two spare words.
pub open spec fn response_frame(r: CommandReturn) -> Seq<u8> {
    seq![
        FRAME_TAG_RESPONSE,
        be_byte(syscall_return_variant(r), 0),
        be_byte(syscall_return_variant(r), 1),
        be_byte(syscall_return_variant(r), 2),
        be_byte(syscall_return_variant(r), 3),
        be_byte(syscall_return_payload(r), 0),
        be_byte(syscall_return_payload(r), 1),
        be_byte(syscall_return_payload(r), 2),
        be_byte(syscall_return_payload(r), 3),
        0u8,
        0u8,
        0u8,
        0u8,
        0u8,
        0u8,
        0u8,
        0u8,
    ]
}

/// The command request spelled by the payload bytes of a syscall frame.
pub open spec fn parsed_command(bytes: Seq<u8>) -> Syscall
    recommends
        bytes.len() >= FRAME_LEN,
{
    Syscall::Command {
        driver_number: be_word(bytes[1], bytes[2], bytes[3], bytes[4]),
        subdriver_number: be_word(bytes[5], bytes[6], bytes[7], bytes[8]),
        arg0: be_word(bytes[9], bytes[10], bytes[11], bytes[12]),
        arg1: be_word(bytes[13], bytes[14], bytes[15], bytes[16]),
    }
}

/// `dst` with `src` copied over its front; where `src` is longer, the
/// excess is dropped, and where it is shorter, the tail of `dst` stays.
pub open spec fn copy_into(dst: Seq<u8>, src: Seq<u8>) -> Seq<u8> {
    Seq::new(dst.len(), |i: int| if i < src.len() { src[i] } else { dst[i] })
}

/// Recomposing a word from its big-endian bytes gives the word back; with
/// the top bit of the leading byte cleared, it gives the word without its
/// top bit.
proof fn lemma_be_recompose(w: u32)
    by (bit_vector)
    ensures
        (((((w >> 24) & 0xff) as u8) as u32) << 24) | (((((w >> 16) & 0xff) as u8) as u32) << 16)
            | (((((w >> 8) & 0xff) as u8) as u32) << 8) | (((w & 0xff) as u8) as u32) == w,
        (((((w >> 24) & 0x7f) as u8) as u32) << 24) | (((((w >> 16) & 0xff) as u8) as u32) << 16)
            | (((((w >> 8) & 0xff) as u8) as u32) << 8) | (((w & 0xff) as u8) as u32) == (w
            & 0x7fffffff),
{
}

/// Round trip over the wire: parsing the frame a command request was
/// packed into gives the request back, except that the driver number has
/// lost its top bit to the wire format.
pub proof fn lemma_frame_round_trip(
    driver_number: u32,
    subdriver_number: u32,
    arg0: u32,
    arg1: u32,
)
    ensures
        parsed_command(command_frame(driver_number, subdriver_number, arg0, arg1))
            == (Syscall::Command {
            driver_number: driver_number & 0x7fffffff,
            subdriver_number,
            arg0,
            arg1,
        }),
{
    lemma_be_recompose(driver_number);
    lemma_be_recompose(subdriver_number);
    lemma_be_recompose(arg0);
    lemma_be_recompose(arg1);
}

/// Pack a command request into its wire frame.
pub fn pack_command_frame(driver_number: u32, subdriver_number: u32, arg0: u32, arg1: u32) -> (r:
    Vec<u8>)
    ensures
        r@ == command_frame(driver_number, subdriver_number, arg0, arg1),
{
    let mut frame: Vec<u8> = Vec::new();
    frame.push(FRAME_TAG_SYSCALL);
    frame.push(((driver_number >> 24) & 0x7f) as u8);
    frame.push(((driver_number >> 16) & 0xff) as u8);
    frame.push(((driver_number >> 8) & 0xff) as u8);
    frame.push((driver_number & 0xff) as u8);
    frame.push(((subdriver_number >> 24) & 0xff) as u8);
    frame.push(((subdriver_number >> 16) & 0xff) as u8);
    frame.push(((subdriver_number >> 8) & 0xff) as u8);
    frame.push((subdriver_number & 0xff) as u8);
    frame.push(((arg0 >> 24) & 0xff) as u8);
    frame.push(((arg0 >> 16) & 0xff) as u8);
    frame.push(((arg0 >> 8) & 0xff) as u8);
    frame.push((arg0 & 0xff) as u8);
    frame.push(((arg1 >> 24) & 0xff) as u8);
    frame.push(((arg1 >> 16) & 0xff) as u8);
    frame.push(((arg1 >> 8) & 0xff) as u8);
    frame.push((arg1 & 0xff) as u8);
    proof {
        assert(frame@ =~= command_frame(driver_number, subdriver_number, arg0, arg1));
    }
    frame
}

/// Pack a command result into its wire frame.
pub fn pack_response_frame(result: CommandReturn) -> (r: Vec<u8>)
    ensures
        r@ == response_frame(result),
{
    let (variant, payload) = crate::syscall::encode_syscall_return(result);
    let mut frame: Vec<u8> = Vec::new();
    frame.push(FRAME_TAG_RESPONSE);
    frame.push(((variant >> 24) & 0xff) as u8);
    frame.push(((variant >> 16) & 0xff) as u8);
    frame.push(((variant >> 8) & 0xff) as u8);
    frame.push((variant & 0xff) as u8);
    frame.push(((payload >> 24) & 0xff) as u8);
    frame.push(((payload >> 16) & 0xff) as u8);
    frame.push(((payload >> 8) & 0xff) as u8);
    frame.push((payload & 0xff) as u8);
    let mut i: usize = 0;
    while i < 8
        invariant
            frame@.len() == 9 + i,
            i <= 8,
            forall|j: int| 9 <= j < frame@.len() ==> frame@[j] == 0u8,
            frame@.subrange(0, 9) == response_frame(result).subrange(0, 9),
        decreases 8 - i,
    {
        let ghost pre = frame@;
        frame.push(0u8);
        proof {
            assert(frame@.subrange(0, 9) =~= pre.subrange(0, 9));
        }
        i = i + 1;
    }
    proof {
        assert forall|j: int| 0 <= j < 9 implies frame@[j] == response_frame(result)[j] by {
            assert(frame@.subrange(0, 9)[j] == response_frame(result).subrange(0, 9)[j]);
        }
        assert(frame@ =~= response_frame(result));
    }
    frame
}

/// Read the big-endian word at `start` in `bytes`.
pub fn read_be_word(bytes: &[u8], start: usize) -> (r: u32)
    requires
        start + 4 <= bytes@.len(),
    ensures
        r == be_word(
            bytes@[start as int],
            bytes@[start as int + 1],
            bytes@[start as int + 2],
            bytes@[start as int + 3],
        ),
{
    ((bytes[start] as u32) << 24) | ((bytes[start + 1] as u32) << 16) | ((bytes[start + 2]
        as u32) << 8) | (bytes[start + 3] as u32)
}

/// One endpoint of the syscall tunnel.
///
/// Owns the serial buffers and the pending flag; the port and its
/// interrupts stay outside, so the flag and buffers are mutated only from
/// the kernel's own control path, through `&mut self`.
pub struct ExternalCall {
    processid: ProcessId,
    tx_buffer: Option<Vec<u8>>,
    rx_buffer: Option<Vec<u8>>,
    job_pending: bool,
}

impl ExternalCall {
    /// The identity under which tunneled requests are dispatched.
    pub closed spec fn process_id(&self) -> ProcessId {
        self.processid
    }

    /// The transmit buffer, when not out on loan to the port.
    pub closed spec fn tx(&self) -> Option<Seq<u8>> {
        match self.tx_buffer {
            Some(b) => Some(b@),
            None => None,
        }
    }

    /// The receive buffer, when not out on loan to the port.
    pub closed spec fn rx(&self) -> Option<Seq<u8>> {
        match self.rx_buffer {
            Some(b) => Some(b@),
            None => None,
        }
    }

    /// Whether a received syscall frame awaits service.
    pub closed spec fn pending(&self) -> bool {
        self.job_pending
    }

    /// A tunnel endpoint with the given dispatch identity and buffers, and
    /// no work pending.
    pub fn new(identifier: u32, tx_buffer: Vec<u8>, rx_buffer: Vec<u8>) -> (r: ExternalCall)
        ensures
            r.process_id() == (ProcessId { identifier, index: 0 }),
            r.tx() == Some(tx_buffer@),
            r.rx() == Some(rx_buffer@),
            !r.pending(),
    {
        let processid = ProcessId::new(identifier, 0);
        ExternalCall { processid, tx_buffer: Some(tx_buffer), rx_buffer: Some(rx_buffer), job_pending: false }
    }

    /// Copy `buffer` into the transmit buffer and hand the result out for
    /// transmission; `BUSY` while the transmit buffer is already out.
    ///
    /// The port returns the buffer through [`Self::transmitted_buffer`],
    /// whether the transfer succeeded or failed.
    pub fn start_transmission(&mut self, buffer: &[u8]) -> (r: Result<Vec<u8>, ErrorCode>)
        ensures
            final(self).process_id() == old(self).process_id(),
            final(self).rx() == old(self).rx(),
            final(self).pending() == old(self).pending(),
            match old(self).tx() {
                None => r == Err::<Vec<u8>, ErrorCode>(ErrorCode::Busy) && final(self).tx()
                    == old(self).tx(),
                Some(t) => {
                    &&& r matches Ok(b)
                    &&& b@ == copy_into(t, buffer@)
                    &&& final(self).tx() is None
                },
            },
    {
        match self.tx_buffer.take() {
            None => Err(ErrorCode::Busy),
            Some(mut tx_buf) => {
                let src_len = buffer.len();
                let dst_len = tx_buf.len();
                let n = if src_len < dst_len {
                    src_len
                } else {
                    dst_len
                };
                let mut i: usize = 0;
                while i < n
                    invariant
                        i <= n,
                        n <= buffer@.len(),
                        n <= tx_buf@.len(),
                        tx_buf@.len() == old(self).tx()->Some_0.len(),
                        forall|j: int| 0 <= j < i ==> tx_buf@[j] == buffer@[j],
                        forall|j: int|
                            i <= j < tx_buf@.len() ==> tx_buf@[j] == old(self).tx()->Some_0[j],
                    decreases n - i,
                {
                    tx_buf.set(i, buffer[i]);
                    i = i + 1;
                }
                proof {
                    assert(tx_buf@ =~= copy_into(old(self).tx()->Some_0, buffer@));
                }
                Ok(tx_buf)
            },
        }
    }

    /// Return of the transmit buffer from the port, after a completed or
    /// failed transfer; then ask to receive, closing the request-response
    /// loop.
    ///
    /// The result is the receive action of [`Self::receive`]: the buffer
    /// to hand to the port, or nothing while a job is pending, or
    /// `ALREADY` when the receive buffer is still out.
    pub fn transmitted_buffer(&mut self, buffer: Vec<u8>) -> (r: Result<
        Option<Vec<u8>>,
        ErrorCode,
    >)
        ensures
            final(self).process_id() == old(self).process_id(),
            final(self).tx() == Some(buffer@),
            final(self).pending() == old(self).pending(),
            old(self).pending() ==> r == Ok::<Option<Vec<u8>>, ErrorCode>(None) && final(self).rx() == old(self).rx(),
            !old(self).pending() ==> match old(self).rx() {
                Some(b) => (r matches Ok(a) && a matches Some(v) && v@ == b) && final(self).rx() is None,
                None => r == Err::<Option<Vec<u8>>, ErrorCode>(ErrorCode::Already) && final(self).rx() is None,
            },
    {
        self.tx_buffer = Some(buffer);
        self.receive()
    }

    /// Hand the receive buffer to the port, unless a received job still
    /// awaits service — then nothing is done, so the job's frame is not
    /// overwritten. `ALREADY` when the receive buffer is already out.
    pub fn receive(&mut self) -> (r: Result<Option<Vec<u8>>, ErrorCode>)
        ensures
            final(self).process_id() == old(self).process_id(),
            final(self).tx() == old(self).tx(),
            final(self).pending() == old(self).pending(),
            old(self).pending() ==> r == Ok::<Option<Vec<u8>>, ErrorCode>(None) && final(self).rx() == old(self).rx(),
            !old(self).pending() ==> match old(self).rx() {
                Some(b) => (r matches Ok(a) && a matches Some(v) && v@ == b) && final(self).rx() is None,
                None => r == Err::<Option<Vec<u8>>, ErrorCode>(ErrorCode::Already) && final(self).rx() is None,
            },
    {
        if self.job_pending {
            Ok(None)
        } else {
            match self.rx_buffer.take() {
                None => Err(ErrorCode::Already),
                Some(rx_buf) => Ok(Some(rx_buf)),
            }
        }
    }

    /// Mark that a received syscall frame awaits service.
    pub fn set(&mut self)
        ensures
            final(self).process_id() == old(self).process_id(),
            final(self).tx() == old(self).tx(),
            final(self).rx() == old(self).rx(),
            final(self).pending(),
    {
        self.job_pending = true;
    }

    /// True iff a received syscall frame awaits service.
    pub fn has_tasks(&self) -> (r: bool)
        ensures
            r == self.pending(),
    {
        self.job_pending
    }

    /// True iff the driver number names an external service: its top bit
    /// is set.
    pub fn driver_num_is_external(&self, driver_num: u32) -> (r: bool)
        ensures
            r == (driver_num >> 31 == 1),
    {
        if driver_num >> 31 == 1 {
            true
        } else {
            false
        }
    }

    /// Pack a command request and start transmitting it; see
    /// [`Self::start_transmission`] for the buffer handling.
    pub fn pack_syscall_and_send(&mut self, syscall: Syscall) -> (r: Result<Vec<u8>, ErrorCode>)
        ensures
            final(self).process_id() == old(self).process_id(),
            final(self).rx() == old(self).rx(),
            final(self).pending() == old(self).pending(),
            ({
                let frame = match syscall {
                    Syscall::Command { driver_number, subdriver_number, arg0, arg1 } =>
                        command_frame(driver_number, subdriver_number, arg0, arg1),
                };
                match old(self).tx() {
                    None => r == Err::<Vec<u8>, ErrorCode>(ErrorCode::Busy) && final(self).tx()
                        == old(self).tx(),
                    Some(t) => {
                        &&& r matches Ok(b)
                        &&& b@ == copy_into(t, frame)
                        &&& final(self).tx() is None
                    },
                }
            }),
    {
        let Syscall::Command { driver_number, subdriver_number, arg0, arg1 } = syscall;
        let frame = pack_command_frame(driver_number, subdriver_number, arg0, arg1);
        self.start_transmission(frame.as_slice())
    }

    /// Parse the received frame as a command request.
    ///
    /// `INVAL` while the receive buffer is out on loan to the port, and
    /// `SIZE` when the buffer is too short to hold a frame. The buffer
    /// stays in place either way, ready for the next reception.
    pub fn unpack_bytes(&self) -> (r: Result<Syscall, ErrorCode>)
        ensures
            match self.rx() {
                None => r == Err::<Syscall, ErrorCode>(ErrorCode::Inval),
                Some(b) => if b.len() < FRAME_LEN {
                    r == Err::<Syscall, ErrorCode>(ErrorCode::Size)
                } else {
                    r == Ok::<Syscall, ErrorCode>(parsed_command(b))
                },
            },
    {
        match &self.rx_buffer {
            None => Err(ErrorCode::Inval),
            Some(rx_buf) => {
                if rx_buf.len() < FRAME_LEN {
                    return Err(ErrorCode::Size);
                }
                let bytes = rx_buf.as_slice();
                let driver_number = read_be_word(bytes, 1);
                let subdriver_number = read_be_word(bytes, 5);
                let arg0 = read_be_word(bytes, 9);
                let arg1 = read_be_word(bytes, 13);
                Ok(Syscall::Command { driver_number, subdriver_number, arg0, arg1 })
            },
        }
    }

    /// Route a tunneled command request and start transmitting the
    /// response frame; see [`Self::start_transmission`] for the buffer
    /// handling. The answer is exactly the router's: `NODEVICE` for an
    /// identifier nobody registered, the service's answer otherwise.
    pub fn handle_external_syscall(
        &mut self,
        registry: &DriverRegistry,
        processid: ProcessId,
        syscall: Syscall,
    ) -> (r: Result<Vec<u8>, ErrorCode>)
        ensures
            final(self).process_id() == old(self).process_id(),
            final(self).rx() == old(self).rx(),
            final(self).pending() == old(self).pending(),
            ({
                let frame = match syscall {
                    Syscall::Command { driver_number, subdriver_number, arg0, arg1 } =>
                        response_frame(
                        dispatch_result(
                            registry.entries(),
                            driver_number,
                            subdriver_number,
                            arg0,
                        ),
                    ),
                };
                match old(self).tx() {
                    None => r == Err::<Vec<u8>, ErrorCode>(ErrorCode::Busy) && final(self).tx()
                        == old(self).tx(),
                    Some(t) => {
                        &&& r matches Ok(b)
                        &&& b@ == copy_into(t, frame)
                        &&& final(self).tx() is None
                    },
                }
            }),
    {
        let Syscall::Command { driver_number, subdriver_number, arg0, arg1 } = syscall;
        let cres = registry.dispatch(driver_number, subdriver_number, arg0, arg1, processid);
        let frame = pack_response_frame(cres);
        self.start_transmission(frame.as_slice())
    }

    /// Service the pending tunneled syscall, if any: clear the flag, parse
    /// the received frame, route it, and start transmitting the response.
    ///
    /// `Ok(None)` when nothing was pending; `Ok(Some(bytes))` hands out
    /// the response transmission; parse errors and a busy transmit buffer
    /// come back as the respective error instead of being unwrapped into a
    /// panic.
    pub fn service_next_pending(&mut self, registry: &DriverRegistry) -> (r: Result<
        Option<Vec<u8>>,
        ErrorCode,
    >)
        ensures
            final(self).process_id() == old(self).process_id(),
            final(self).rx() == old(self).rx(),
            !final(self).pending(),
            !old(self).pending() ==> r == Ok::<Option<Vec<u8>>, ErrorCode>(None) && final(self).tx() == old(self).tx() && !old(self).pending(),
            old(self).pending() ==> match old(self).rx() {
                None => r == Err::<Option<Vec<u8>>, ErrorCode>(ErrorCode::Inval) && final(self).tx() == old(self).tx(),
                Some(b) => if b.len() < FRAME_LEN {
                    r == Err::<Option<Vec<u8>>, ErrorCode>(ErrorCode::Size) && final(self).tx()
                        == old(self).tx()
                } else {
                    ({
                        let frame = match parsed_command(b) {
                            Syscall::Command { driver_number, subdriver_number, arg0, arg1 } =>
                                response_frame(
                                dispatch_result(
                                    registry.entries(),
                                    driver_number,
                                    subdriver_number,
                                    arg0,
                                ),
                            ),
                        };
                        match old(self).tx() {
                            None => r == Err::<Option<Vec<u8>>, ErrorCode>(ErrorCode::Busy)
                                && final(self).tx() == old(self).tx(),
                            Some(t) => {
                                &&& r matches Ok(a)
                                &&& a matches Some(v)
                                &&& v@ == copy_into(t, frame)
                                &&& final(self).tx() is None
                            },
                        }
                    })
                },
            },
    {
        if !self.job_pending {
            return Ok(None);
        }
        self.job_pending = false;
        let processid = self.processid;
        match self.unpack_bytes() {
            Err(e) => Err(e),
            Ok(syscall) => {
                match self.handle_external_syscall(registry, processid, syscall) {
                    Err(e) => Err(e),
                    Ok(bytes) => Ok(Some(bytes)),
                }
            },
        }
    }

    /// Completion of a reception: classify the frame by its type tag —
    /// a syscall frame marks a job pending, a response frame does not —
    /// store the buffer, and ask to receive again.
    ///
    /// The result is the receive action of [`Self::receive`]: while the
    /// just-arrived job is pending the buffer stays put and `Ok(None)`
    /// comes back, so the frame is not overwritten before it is serviced.
    pub fn received_buffer(&mut self, buffer: Vec<u8>) -> (r: Result<Option<Vec<u8>>, ErrorCode>)
        ensures
            final(self).process_id() == old(self).process_id(),
            final(self).tx() == old(self).tx(),
            final(self).pending() == (old(self).pending() || (buffer@.len() > 0 && buffer@[0]
                == FRAME_TAG_SYSCALL)),
            final(self).pending() ==> r == Ok::<Option<Vec<u8>>, ErrorCode>(None) && final(self).rx() == Some(buffer@),
            !final(self).pending() ==> (r matches Ok(a) && a matches Some(v) && v@ == buffer@)
                && final(self).rx() is None,
    {
        let tag = if buffer.len() > 0 {
            buffer[0]
        } else {
            0
        };
        self.rx_buffer = Some(buffer);
        if tag == FRAME_TAG_SYSCALL {
            self.set();
        }
        self.receive()
    }
}

} // verus!
