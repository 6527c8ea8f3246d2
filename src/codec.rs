//! Wire encoding of the chip's bulk command headers and vendor control requests.
//!
//! Lengths travel little-endian; the GPIO level vector travels big-endian.
use vstd::prelude::*;

verus! {

/// USB vendor id of the chip.
pub const VID: u16 = 0x10c4;

/// USB product id of the chip.
pub const PID: u16 = 0x87a0;

/// Request-type bits of a control transfer.
pub const HOST_TO_DEVICE: u8 = 0x00;
pub const DEVICE_TO_HOST: u8 = 0x80;
pub const TYPE_STANDARD: u8 = 0x00;
pub const TYPE_CLASS: u8 = 0x20;
pub const TYPE_VENDOR: u8 = 0x40;
pub const RECIPIENT_DEVICE: u8 = 0x00;
pub const RECIPIENT_INTERFACE: u8 = 0x01;
pub const RECIPIENT_ENDPOINT: u8 = 0x02;
pub const RECIPIENT_OTHER: u8 = 0x03;

/// Vendor control opcodes understood by the chip.
#[derive(Clone, Copy, Debug, PartialEq, Eq, Structural)]
pub enum Commands {
    GetClockDivider,
    GetEventCounter,
    GetFullThreshold,
    GetGpioChipSelect,
    GetGpioModeAndLevel,
    GetGpioValues,
    GetRtrState,
    GetSpiWord,
    GetSpiDelay,
    GetReadOnlyVersion,
    ResetDevice,
    SetClockDivider,
    SetEventCounter,
    SetFullThreshold,
    SetGpioChipSelect,
    SetGpioModeAndLevel,
    SetGpioValues,
    SetRtrStop,
    SetSpiWord,
    SetSpiDelay,
}

impl Commands {
    pub open spec fn code_spec(self) -> u8 {
        match self {
            Commands::GetClockDivider => 0x46,
            Commands::GetEventCounter => 0x44,
            Commands::GetFullThreshold => 0x34,
            Commands::GetGpioChipSelect => 0x24,
            Commands::GetGpioModeAndLevel => 0x22,
            Commands::GetGpioValues => 0x20,
            Commands::GetRtrState => 0x36,
            Commands::GetSpiWord => 0x30,
            Commands::GetSpiDelay => 0x32,
            Commands::GetReadOnlyVersion => 0x11,
            Commands::ResetDevice => 0x10,
            Commands::SetClockDivider => 0x47,
            Commands::SetEventCounter => 0x45,
            Commands::SetFullThreshold => 0x35,
            Commands::SetGpioChipSelect => 0x25,
            Commands::SetGpioModeAndLevel => 0x23,
            Commands::SetGpioValues => 0x21,
            Commands::SetRtrStop => 0x37,
            Commands::SetSpiWord => 0x31,
            Commands::SetSpiDelay => 0x33,
        }
    }

    /// The opcode byte sent as the control request number.
    pub fn code(&self) -> (r: u8)
        ensures
            r == self.code_spec(),
    {
        match self {
            Commands::GetClockDivider => 0x46,
            Commands::GetEventCounter => 0x44,
            Commands::GetFullThreshold => 0x34,
            Commands::GetGpioChipSelect => 0x24,
            Commands::GetGpioModeAndLevel => 0x22,
            Commands::GetGpioValues => 0x20,
            Commands::GetRtrState => 0x36,
            Commands::GetSpiWord => 0x30,
            Commands::GetSpiDelay => 0x32,
            Commands::GetReadOnlyVersion => 0x11,
            Commands::ResetDevice => 0x10,
            Commands::SetClockDivider => 0x47,
            Commands::SetEventCounter => 0x45,
            Commands::SetFullThreshold => 0x35,
            Commands::SetGpioChipSelect => 0x25,
            Commands::SetGpioModeAndLevel => 0x23,
            Commands::SetGpioValues => 0x21,
            Commands::SetRtrStop => 0x37,
            Commands::SetSpiWord => 0x31,
            Commands::SetSpiDelay => 0x33,
        }
    }
}

/// Operation codes of the bulk command header.
#[derive(Clone, Copy, Debug, PartialEq, Eq, Structural)]
pub enum TransferCommand {
    Read,
    Write,
    WriteRead,
    ReadWithRtr,
}

impl TransferCommand {
    pub open spec fn code_spec(self) -> u8 {
        match self {
            TransferCommand::Read => 0x00,
            TransferCommand::Write => 0x01,
            TransferCommand::WriteRead => 0x02,
            TransferCommand::ReadWithRtr => 0x04,
        }
    }

    /// The byte placed at offset 2 of the bulk header.
    pub fn code(&self) -> (r: u8)
        ensures
            r == self.code_spec(),
    {
        match self {
            TransferCommand::Read => 0x00,
            TransferCommand::Write => 0x01,
            TransferCommand::WriteRead => 0x02,
            TransferCommand::ReadWithRtr => 0x04,
        }
    }
}

/// Byte `i` (0 = least significant) of `v`.
pub open spec fn byte_of(v: u32, i: u32) -> u8 {
    ((v >> (8u32 * i)) & 0xffu32) as u8
}

/// Little-endian value of four bytes.
pub open spec fn le_u32_spec(b0: u8, b1: u8, b2: u8, b3: u8) -> u32 {
    (b0 as u32) | ((b1 as u32) << 8u32) | ((b2 as u32) << 16u32) | ((b3 as u32) << 24u32)
}

/// Little-endian value of two bytes.
pub open spec fn le_u16_spec(b0: u8, b1: u8) -> u16 {
    (b0 as u16) | ((b1 as u16) << 8u16)
}

/// Big-endian value of two bytes.
pub open spec fn be_u16_spec(b0: u8, b1: u8) -> u16 {
    ((b0 as u16) << 8u16) | (b1 as u16)
}

/// Little-endian value of the four bytes of `s` starting at `at`.
pub open spec fn le_u32_at(s: Seq<u8>, at: int) -> u32 {
    le_u32_spec(s[at], s[at + 1], s[at + 2], s[at + 3])
}

/// The four little-endian bytes of `v`.
pub open spec fn le_bytes(v: u32) -> Seq<u8> {
    seq![byte_of(v, 0), byte_of(v, 1), byte_of(v, 2), byte_of(v, 3)]
}

/// The 8-byte bulk header: opcode at byte 2, length little-endian in bytes 4..8, the rest zero.
pub open spec fn bulk_header_spec(op: u8, len: u32) -> Seq<u8> {
    seq![0u8, 0u8, op, 0u8] + le_bytes(len)
}

/// Reads a little-endian `u32` at offset `at`.
pub fn read_u32_le(b: &[u8], at: usize) -> (r: u32)
    requires
        at + 4 <= b@.len(),
    ensures
        r == le_u32_at(b@, at as int),
{
    (b[at] as u32) | ((b[at + 1] as u32) << 8u32) | ((b[at + 2] as u32) << 16u32) | ((b[at
        + 3] as u32) << 24u32)
}

/// Reads a little-endian `u16` from two bytes.
pub fn read_u16_le(b: [u8; 2]) -> (r: u16)
    ensures
        r == le_u16_spec(b@[0], b@[1]),
{
    (b[0] as u16) | ((b[1] as u16) << 8u16)
}

/// Reads a big-endian `u16` from two bytes.
pub fn read_u16_be(b: [u8; 2]) -> (r: u16)
    ensures
        r == be_u16_spec(b@[0], b@[1]),
{
    ((b[0] as u16) << 8u16) | (b[1] as u16)
}

/// Encodes `v` as four little-endian bytes.
pub fn write_u32_le(v: u32) -> (r: [u8; 4])
    ensures
        r@ == le_bytes(v),
{
    let r = [
        #[verifier::truncate]
        ((v & 0xff) as u8),
        #[verifier::truncate]
        (((v >> 8u32) & 0xff) as u8),
        #[verifier::truncate]
        (((v >> 16u32) & 0xff) as u8),
        #[verifier::truncate]
        (((v >> 24u32) & 0xff) as u8),
    ];
    assert(((v & 0xff) as u8) == byte_of(v, 0)) by (bit_vector);
    assert((((v >> 8u32) & 0xff) as u8) == byte_of(v, 1)) by (bit_vector);
    assert((((v >> 16u32) & 0xff) as u8) == byte_of(v, 2)) by (bit_vector);
    assert((((v >> 24u32) & 0xff) as u8) == byte_of(v, 3)) by (bit_vector);
    assert(r@ =~= le_bytes(v));
    r
}

/// The four little-endian bytes of a value read back give the value.
pub proof fn lemma_le_u32_round_trip(v: u32)
    ensures
        le_u32_spec(byte_of(v, 0), byte_of(v, 1), byte_of(v, 2), byte_of(v, 3)) == v,
{
    assert(le_u32_spec(byte_of(v, 0), byte_of(v, 1), byte_of(v, 2), byte_of(v, 3)) == v)
        by (bit_vector);
}

/// Builds the 8-byte bulk command header for operation `op` and payload length `len`.
pub fn encode_bulk_header(op: TransferCommand, len: u32) -> (r: [u8; 8])
    ensures
        r@ == bulk_header_spec(op.code_spec(), len),
{
    let l = write_u32_le(len);
    let r = [0u8, 0u8, op.code(), 0u8, l[0], l[1], l[2], l[3]];
    assert(r@ =~= bulk_header_spec(op.code_spec(), len));
    r
}

/// The payload length that a bulk header carries in bytes 4..8.
pub fn header_length(h: &[u8]) -> (r: u32)
    requires
        h@.len() >= 8,
    ensures
        r == le_u32_at(h@, 4),
{
    read_u32_le(h, 4)
}

/// A bulk header encoded for any length carries that length back in bytes 4..8.
pub proof fn lemma_bulk_header_length(op: u8, len: u32)
    ensures
        bulk_header_spec(op, len).len() == 8,
        le_u32_at(bulk_header_spec(op, len), 4) == len,
        bulk_header_spec(op, len)[2] == op,
{
    lemma_le_u32_round_trip(len);
}

/// Builds a complete bulk frame: the header for `op` and `payload.len()`, then the payload.
pub fn encode_bulk_frame(op: TransferCommand, payload: &[u8]) -> (r: Vec<u8>)
    requires
        payload@.len() <= u32::MAX,
    ensures
        r@ == bulk_header_spec(op.code_spec(), payload@.len() as u32) + payload@,
{
    let h = encode_bulk_header(op, payload.len() as u32);
    let mut r: Vec<u8> = Vec::new();
    let mut i: usize = 0;
    while i < 8
        invariant
            i <= 8,
            r@ == h@.subrange(0, i as int),
        decreases 8 - i,
    {
        r.push(h[i]);
        i = i + 1;
        assert(r@ =~= h@.subrange(0, i as int));
    }
    let mut j: usize = 0;
    while j < payload.len()
        invariant
            j <= payload@.len(),
            r@ == h@ + payload@.subrange(0, j as int),
        decreases payload@.len() - j,
    {
        r.push(payload[j]);
        j = j + 1;
        assert(r@ =~= h@ + payload@.subrange(0, j as int));
    }
    assert(payload@.subrange(0, payload@.len() as int) =~= payload@);
    r
}

} // verus!
