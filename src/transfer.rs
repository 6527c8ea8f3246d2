//! The physical operation shapes: bulk frames, chunked bulk reads and vendor control requests.
//!
//! Nothing here touches the bus. Each operation is described as values that the caller
//! hands to its USB stack, and the chunked read is a state machine fed with the byte count
//! that each physical read returned.
use vstd::prelude::*;
use crate::codec::{
    bulk_header_spec, encode_bulk_frame, encode_bulk_header, Commands, TransferCommand,
    DEVICE_TO_HOST, HOST_TO_DEVICE, RECIPIENT_DEVICE, TYPE_VENDOR,
};
use crate::gpio::{encode_mode_level, mode_level_payload, GpioLevel, GpioMode, MAX_PIN};

verus! {

/// Largest number of bytes requested by one physical bulk read.
pub const PACKET_SIZE: usize = 64;

/// Timeout applied to every physical transfer, in milliseconds.
pub const TIMEOUT_MS: u64 = 200;

/// Request-type byte of a vendor request from device to host.
pub const VENDOR_IN: u8 = 0xc0;

/// Request-type byte of a vendor request from host to device.
pub const VENDOR_OUT: u8 = 0x40;

/// Size of the next physical read when `remaining` bytes are still owed.
pub open spec fn chunk_len_spec(remaining: nat) -> nat {
    if remaining > PACKET_SIZE {
        PACKET_SIZE as nat
    } else {
        remaining
    }
}

/// The sizes that the physical reads request when each one is filled completely.
pub open spec fn full_read_chunks(remaining: nat) -> Seq<nat>
    decreases remaining,
{
    if remaining == 0 {
        Seq::empty()
    } else {
        seq![chunk_len_spec(remaining)] + full_read_chunks(
            (remaining - chunk_len_spec(remaining)) as nat,
        )
    }
}

/// A read of `n` bytes whose physical reads all fill completely takes ⌈n/64⌉ transfers,
/// each of 64 bytes but the last, which takes what is left.
pub proof fn lemma_full_read_chunks(n: nat)
    ensures
        full_read_chunks(n).len() == (n + 63) / 64,
        n > 0 ==> full_read_chunks(n).last() == n - 64 * ((n + 63) / 64 - 1),
        forall|i: int|
            0 <= i < full_read_chunks(n).len() - 1 ==> #[trigger] full_read_chunks(n)[i] == 64,
    decreases n,
{
    if n > 64 {
        lemma_full_read_chunks((n - 64) as nat);
        let rest = full_read_chunks((n - 64) as nat);
        assert(full_read_chunks(n) == seq![64nat] + rest);
        assert((n + 63) / 64 == (n - 64 + 63) / 64 + 1);
        assert forall|i: int| 0 <= i < full_read_chunks(n).len() - 1 implies #[trigger] full_read_chunks(n)[i] == 64 by {
            if i > 0 {
                assert(full_read_chunks(n)[i] == rest[i - 1]);
            }
        }
    } else if n > 0 {
        assert(full_read_chunks(0) == Seq::<nat>::empty());
        assert(full_read_chunks(n) =~= seq![n]);
    }
}

/// A bulk transfer to send: the endpoint address and the bytes.
pub struct BulkOut {
    pub endpoint: u8,
    pub data: Vec<u8>,
}

/// A vendor control transfer. For a transfer from device to host, `data` is the buffer
/// that receives the reply; otherwise it is the payload sent.
pub struct ControlRequest {
    pub request_type: u8,
    pub request: u8,
    pub value: u16,
    pub index: u16,
    pub data: Vec<u8>,
}

/// Progress of a bulk read that the chip answers in packets of at most 64 bytes.
#[derive(Clone, Copy, Debug, PartialEq, Eq, Structural)]
pub struct BulkRead {
    pub endpoint: u8,
    pub total: usize,
    pub received: usize,
}

impl BulkRead {
    /// A read of `total` bytes on `endpoint`, nothing received yet.
    pub fn new(endpoint: u8, total: usize) -> (r: BulkRead)
        ensures
            r == (BulkRead { endpoint, total, received: 0 }),
    {
        BulkRead { endpoint, total, received: 0 }
    }

    pub open spec fn wf(self) -> bool {
        self.received <= self.total
    }

    pub open spec fn next_chunk_spec(self) -> Option<(usize, usize)> {
        if self.received < self.total {
            Some((self.received, chunk_len_spec((self.total - self.received) as nat) as usize))
        } else {
            None
        }
    }

    /// The next physical read to issue, as the offset in the caller's buffer and the number
    /// of bytes to request; `None` once every byte has arrived.
    pub fn next_chunk(&self) -> (r: Option<(usize, usize)>)
        requires
            self.wf(),
        ensures
            r == self.next_chunk_spec(),
    {
        if self.received < self.total {
            let remaining = self.total - self.received;
            let len = if remaining > PACKET_SIZE {
                PACKET_SIZE
            } else {
                remaining
            };
            Some((self.received, len))
        } else {
            None
        }
    }

    /// Records that the physical read just issued returned `n` bytes.
    pub fn advance(&mut self, n: usize)
        requires
            old(self).wf(),
            old(self).next_chunk_spec() is Some,
            n <= (old(self).next_chunk_spec()->0).1,
        ensures
            final(self).wf(),
            *final(self) == (BulkRead { received: (old(self).received + n) as usize, ..*old(self) }),
    {
        self.received = self.received + n;
    }

    /// Whether every byte has arrived.
    pub fn is_done(&self) -> (r: bool)
        ensures
            r == (self.received >= self.total),
    {
        self.received >= self.total
    }
}

/// Steps a read of `n` bytes in which each physical read fills completely: the requests
/// made are exactly those of `full_read_chunks`.
pub proof fn lemma_read_follows_chunks(r: BulkRead)
    requires
        r.wf(),
        r.received < r.total,
    ensures
        r.next_chunk_spec() == Some(
            (r.received, full_read_chunks((r.total - r.received) as nat)[0] as usize),
        ),
        full_read_chunks((r.total - r.received) as nat).drop_first() == full_read_chunks(
            (r.total - (r.received + full_read_chunks((r.total - r.received) as nat)[0])) as nat,
        ),
{
    let rem = (r.total - r.received) as nat;
    assert(full_read_chunks(rem)[0] == chunk_len_spec(rem));
    assert(full_read_chunks(rem).drop_first() =~= full_read_chunks((rem - chunk_len_spec(rem)) as nat));
}

/// Request-type byte of a vendor request to the device, in the given direction.
fn vendor_request_type(device_to_host: bool) -> (r: u8)
    ensures
        r == if device_to_host {
            VENDOR_IN
        } else {
            VENDOR_OUT
        },
{
    assert(0x80u8 | 0x40u8 | 0x00u8 == 0xc0u8) by (bit_vector);
    assert(0x00u8 | 0x40u8 | 0x00u8 == 0x40u8) by (bit_vector);
    if device_to_host {
        DEVICE_TO_HOST | TYPE_VENDOR | RECIPIENT_DEVICE
    } else {
        HOST_TO_DEVICE | TYPE_VENDOR | RECIPIENT_DEVICE
    }
}

/// The request that reads the chip's two-byte version.
pub fn version_request() -> (r: ControlRequest)
    ensures
        r.request_type == VENDOR_IN,
        r.request == Commands::GetReadOnlyVersion.code_spec(),
        r.value == 0,
        r.index == 0,
        r.data@ == seq![0u8, 0u8],
{
    let data: Vec<u8> = vec![0u8, 0u8];
    assert(data@ =~= seq![0u8, 0u8]);
    ControlRequest {
        request_type: vendor_request_type(true),
        request: Commands::GetReadOnlyVersion.code(),
        value: 0,
        index: 0,
        data,
    }
}

/// The request that reads the two-byte GPIO level vector.
pub fn gpio_values_request() -> (r: ControlRequest)
    ensures
        r.request_type == VENDOR_IN,
        r.request == Commands::GetGpioValues.code_spec(),
        r.value == 0,
        r.index == 0,
        r.data@ == seq![0u8, 0u8],
{
    let data: Vec<u8> = vec![0u8, 0u8];
    assert(data@ =~= seq![0u8, 0u8]);
    ControlRequest {
        request_type: vendor_request_type(true),
        request: Commands::GetGpioValues.code(),
        value: 0,
        index: 0,
        data,
    }
}

/// The request that sets `pin` to `mode` at `level`.
pub fn set_mode_level_request(pin: u8, mode: GpioMode, level: GpioLevel) -> (r: ControlRequest)
    requires
        pin <= MAX_PIN,
    ensures
        r.request_type == VENDOR_OUT,
        r.request == Commands::SetGpioModeAndLevel.code_spec(),
        r.value == 0,
        r.index == 0,
        r.data@ == mode_level_payload(pin, mode, level),
{
    let p = encode_mode_level(pin, mode, level);
    let data: Vec<u8> = vec![p[0], p[1], p[2]];
    assert(data@ =~= mode_level_payload(pin, mode, level));
    ControlRequest {
        request_type: vendor_request_type(false),
        request: Commands::SetGpioModeAndLevel.code(),
        value: 0,
        index: 0,
        data,
    }
}

/// The header sent before a bulk read of `len` bytes.
pub fn read_header(endpoint: u8, len: usize) -> (r: BulkOut)
    requires
        len <= u32::MAX,
    ensures
        r.endpoint == endpoint,
        r.data@ == bulk_header_spec(TransferCommand::Read.code_spec(), len as u32),
{
    let h = encode_bulk_header(TransferCommand::Read, len as u32);
    let data: Vec<u8> = vec![h[0], h[1], h[2], h[3], h[4], h[5], h[6], h[7]];
    assert(data@ =~= h@);
    BulkOut { endpoint, data }
}

/// The frame of a bulk operation `op` carrying `payload`.
pub fn frame(endpoint: u8, op: TransferCommand, payload: &[u8]) -> (r: BulkOut)
    requires
        payload@.len() <= u32::MAX,
    ensures
        r.endpoint == endpoint,
        r.data@ == bulk_header_spec(op.code_spec(), payload@.len() as u32) + payload@,
{
    BulkOut { endpoint, data: encode_bulk_frame(op, payload) }
}

} // verus!
