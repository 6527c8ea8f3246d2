//! The session: device identity, resolved endpoints and the GPIO allocation table, and the
//! capability handles it issues.
//!
//! A session holds no bus handle. Each operation returns the transfers to perform; the
//! owner of the bus performs them while holding the session exclusively, and reports back.
use vstd::prelude::*;
use crate::codec::{bulk_header_spec, le_u16_spec, read_u16_le, Commands, TransferCommand};
use crate::endpoint::Endpoints;
use crate::gpio::{
    decode_levels, decode_levels_spec, level_of, level_of_spec, mode_level_payload, GpioLevel,
    GpioLevels, GpioMode, MAX_PIN, NUM_PINS,
};
use crate::transfer::{
    frame, read_header, set_mode_level_request, BulkOut, BulkRead, ControlRequest, VENDOR_OUT,
};
use crate::Error;

verus! {

/// Strings that identify the connected device, read once when the session starts.
#[derive(Debug)]
pub struct Info {
    pub manufacturer: String,
    pub product: String,
    pub serial: String,
}

impl Clone for Info {
    fn clone(&self) -> (r: Info)
        ensures
            r.manufacturer@ == self.manufacturer@,
            r.product@ == self.product@,
            r.serial@ == self.serial@,
    {
        Info {
            manufacturer: self.manufacturer.clone(),
            product: self.product.clone(),
            serial: self.serial.clone(),
        }
    }
}

/// The language used to read the string descriptors: the first one the device offers.
pub fn select_language(languages: &[u16]) -> (r: Result<u16, Error>)
    ensures
        languages@.len() == 0 ==> r == Err::<u16, Error>(Error::NoLanguages),
        languages@.len() > 0 ==> r == Ok::<u16, Error>(languages@[0]),
{
    if languages.len() == 0 {
        Err(Error::NoLanguages)
    } else {
        Ok(languages[0])
    }
}

/// Accepts a device with exactly one configuration.
pub fn check_configurations(num_configurations: u8) -> (r: Result<(), Error>)
    ensures
        r == if num_configurations == 1 {
            Ok::<(), Error>(())
        } else {
            Err(Error::Configurations)
        },
{
    if num_configurations != 1 {
        Err(Error::Configurations)
    } else {
        Ok(())
    }
}

/// Whether claiming `pin` is allowed under the allocation table `claims`.
pub open spec fn claim_outcome(claims: Seq<bool>, pin: u8) -> Result<(), Error> {
    if claims[pin as int] {
        Err(Error::GpioInUse)
    } else {
        Ok(())
    }
}

/// The frame and read state of a write-then-read of `out` followed by `in_len` bytes.
pub open spec fn write_read_spec(
    endpoint: u8,
    out: Seq<u8>,
    in_len: usize,
    r: (BulkOut, BulkRead),
) -> bool {
    &&& r.0.endpoint == endpoint
    &&& r.0.data@ == bulk_header_spec(TransferCommand::WriteRead.code_spec(), out.len() as u32)
        + out
    &&& r.1 == (BulkRead { endpoint, total: in_len, received: 0 })
}

/// A claim of a free pin succeeds; once the pin is recorded as claimed, a second claim of it,
/// as output or input, fails with `GpioInUse` and so yields no request to send; after it is
/// released it may be claimed again. Other pins are not affected.
pub proof fn lemma_claim_then_busy(dev: Cp2130, pin: u8, other: u8)
    requires
        dev.wf(),
        pin <= MAX_PIN,
        other <= MAX_PIN,
        other != pin,
        !dev.claims()[pin as int],
    ensures
        dev.claims().len() == NUM_PINS,
        claim_outcome(dev.claims(), pin) == Ok::<(), Error>(()),
        claim_outcome(dev.claims().update(pin as int, true), pin) == Err::<(), Error>(Error::GpioInUse),
        claim_outcome(dev.claims().update(pin as int, true).update(pin as int, false), pin) == Ok::<
            (),
            Error,
        >(()),
        claim_outcome(dev.claims().update(pin as int, true), other) == claim_outcome(dev.claims(), other),
{
    let claims = dev.claims();
    assert(claims.update(pin as int, true).update(pin as int, false) =~= claims);
}

/// The state of one connection to the chip.
pub struct Cp2130 {
    info: Info,
    endpoints: Endpoints,
    gpio_allocated: Vec<bool>,
}

impl Cp2130 {
    /// The allocation table has one entry per pin.
    pub closed spec fn wf(self) -> bool {
        self.gpio_allocated@.len() == NUM_PINS
    }

    /// Which pins are claimed by a live handle, by index.
    pub closed spec fn claims(self) -> Seq<bool> {
        self.gpio_allocated@
    }

    pub closed spec fn info_spec(self) -> Info {
        self.info
    }

    pub closed spec fn endpoints_spec(self) -> Endpoints {
        self.endpoints
    }

    pub open spec fn write_address(self) -> u8 {
        self.endpoints_spec().write.address
    }

    /// A session over a device with the given identity and endpoints, every pin free.
    pub fn new(info: Info, endpoints: Endpoints) -> (r: Cp2130)
        ensures
            r.wf(),
            r.info_spec() == info,
            r.endpoints_spec() == endpoints,
            r.claims() == Seq::new(NUM_PINS as nat, |i: int| false),
    {
        let mut gpio_allocated: Vec<bool> = Vec::new();
        let mut i: usize = 0;
        while i < NUM_PINS
            invariant
                i <= NUM_PINS,
                gpio_allocated@ == Seq::new(i as nat, |j: int| false),
            decreases NUM_PINS - i,
        {
            gpio_allocated.push(false);
            i = i + 1;
            assert(gpio_allocated@ =~= Seq::new(i as nat, |j: int| false));
        }
        Cp2130 { info, endpoints, gpio_allocated }
    }

    /// The device's identity strings.
    pub fn info(&self) -> (r: Info)
        ensures
            r.manufacturer@ == self.info_spec().manufacturer@,
            r.product@ == self.info_spec().product@,
            r.serial@ == self.info_spec().serial@,
    {
        self.info.clone()
    }

    /// The resolved endpoints.
    pub fn endpoints(&self) -> (r: Endpoints)
        ensures
            r == self.endpoints_spec(),
    {
        self.endpoints
    }

    /// Whether `pin` is claimed by a live handle.
    pub fn is_claimed(&self, pin: u8) -> (r: bool)
        requires
            self.wf(),
            pin <= MAX_PIN,
        ensures
            r == self.claims()[pin as int],
    {
        self.gpio_allocated[pin as usize]
    }

    /// A read of `len` bytes: the Read header to send on the write endpoint, then the
    /// chunked read, whose replies come from that same endpoint address.
    pub fn spi_read(&self, len: usize) -> (r: (BulkOut, BulkRead))
        requires
            len <= u32::MAX,
        ensures
            r.0.endpoint == self.write_address(),
            r.0.data@ == bulk_header_spec(TransferCommand::Read.code_spec(), len as u32),
            r.1 == (BulkRead { endpoint: self.write_address(), total: len, received: 0 }),
    {
        let a = self.endpoints.write.address;
        (read_header(a, len), BulkRead::new(a, len))
    }

    /// A write of `buf`: one frame, the Write header followed by the bytes.
    pub fn spi_write(&self, buf: &[u8]) -> (r: BulkOut)
        requires
            buf@.len() <= u32::MAX,
        ensures
            r.endpoint == self.write_address(),
            r.data@ == bulk_header_spec(TransferCommand::Write.code_spec(), buf@.len() as u32)
                + buf@,
    {
        frame(self.endpoints.write.address, TransferCommand::Write, buf)
    }

    /// A write-then-read: the WriteRead frame carrying `out`, then a chunked read of
    /// `in_len` bytes from the write endpoint address.
    pub fn spi_write_read(&self, out: &[u8], in_len: usize) -> (r: (BulkOut, BulkRead))
        requires
            out@.len() <= u32::MAX,
        ensures
            write_read_spec(self.write_address(), out@, in_len, r),
    {
        let a = self.endpoints.write.address;
        (frame(a, TransferCommand::WriteRead, out), BulkRead::new(a, in_len))
    }

    /// The chip version from the two-byte reply of the version request, little-endian.
    pub fn version(raw: [u8; 2]) -> (r: u16)
        ensures
            r == le_u16_spec(raw@[0], raw@[1]),
    {
        read_u16_le(raw)
    }

    /// The request that sets `pin` to `mode` at `level`.
    pub fn set_gpio_mode_level(pin: u8, mode: GpioMode, level: GpioLevel) -> (r: ControlRequest)
        requires
            pin <= MAX_PIN,
        ensures
            r.request_type == VENDOR_OUT,
            r.request == Commands::SetGpioModeAndLevel.code_spec(),
            r.value == 0,
            r.index == 0,
            r.data@ == mode_level_payload(pin, mode, level),
    {
        set_mode_level_request(pin, mode, level)
    }

    /// The levels of all pins from the two-byte reply of the GPIO values request.
    pub fn get_gpio_values(raw: [u8; 2]) -> (r: GpioLevels)
        ensures
            r == decode_levels_spec(raw@),
    {
        decode_levels(raw)
    }

    /// The level of `pin` from the two-byte reply of the GPIO values request.
    pub fn get_gpio_level(raw: [u8; 2], pin: u8) -> (r: bool)
        requires
            pin <= MAX_PIN,
        ensures
            r == level_of_spec(raw@, pin),
    {
        level_of(raw, pin)
    }

    /// The request to send before claiming `index` as an output driven by `mode` at `level`,
    /// or `GpioInUse` if the pin is claimed, in which case nothing is to be sent.
    pub fn gpio_out_request(&self, index: u8, mode: GpioMode, level: GpioLevel) -> (r: Result<
        ControlRequest,
        Error,
    >)
        requires
            self.wf(),
            index <= MAX_PIN,
        ensures
            r is Ok <==> claim_outcome(self.claims(), index) is Ok,
            r is Err ==> r == Err::<ControlRequest, Error>(Error::GpioInUse),
            r is Ok ==> (r->Ok_0).request == Commands::SetGpioModeAndLevel.code_spec(),
            r is Ok ==> (r->Ok_0).request_type == VENDOR_OUT,
            r is Ok ==> (r->Ok_0).value == 0 && (r->Ok_0).index == 0,
            r is Ok ==> (r->Ok_0).data@ == mode_level_payload(index, mode, level),
    {
        if self.is_claimed(index) {
            return Err(Error::GpioInUse);
        }
        Ok(set_mode_level_request(index, mode, level))
    }

    /// The request to send before claiming `index` as an input, or `GpioInUse` if the pin
    /// is claimed, in which case nothing is to be sent.
    pub fn gpio_in_request(&self, index: u8) -> (r: Result<ControlRequest, Error>)
        requires
            self.wf(),
            index <= MAX_PIN,
        ensures
            r is Ok <==> claim_outcome(self.claims(), index) is Ok,
            r is Err ==> r == Err::<ControlRequest, Error>(Error::GpioInUse),
            r is Ok ==> (r->Ok_0).request == Commands::SetGpioModeAndLevel.code_spec(),
            r is Ok ==> (r->Ok_0).request_type == VENDOR_OUT,
            r is Ok ==> (r->Ok_0).value == 0 && (r->Ok_0).index == 0,
            r is Ok ==> (r->Ok_0).data@ == mode_level_payload(
                index,
                GpioMode::Input,
                GpioLevel::Low,
            ),
    {
        self.gpio_out_request(index, GpioMode::Input, GpioLevel::Low)
    }

    /// Records `index` as claimed, once its request has been sent, and issues its handle.
    pub fn gpio_out(&mut self, index: u8, mode: GpioMode) -> (r: OutputPin)
        requires
            old(self).wf(),
            index <= MAX_PIN,
            !old(self).claims()[index as int],
        ensures
            final(self).wf(),
            final(self).claims() == old(self).claims().update(index as int, true),
            final(self).info_spec() == old(self).info_spec(),
            final(self).endpoints_spec() == old(self).endpoints_spec(),
            r.index_spec() == index,
            r.mode_spec() == mode,
    {
        self.mark(index, true);
        OutputPin { index, mode }
    }

    /// Records `index` as claimed, once its request has been sent, and issues its handle.
    pub fn gpio_in(&mut self, index: u8) -> (r: InputPin)
        requires
            old(self).wf(),
            index <= MAX_PIN,
            !old(self).claims()[index as int],
        ensures
            final(self).wf(),
            final(self).claims() == old(self).claims().update(index as int, true),
            final(self).info_spec() == old(self).info_spec(),
            final(self).endpoints_spec() == old(self).endpoints_spec(),
            r.index_spec() == index,
    {
        self.mark(index, true);
        InputPin { index }
    }

    /// Frees `index` for a later claim, as when its handle is dropped.
    pub fn release_gpio(&mut self, index: u8)
        requires
            old(self).wf(),
            index <= MAX_PIN,
        ensures
            final(self).wf(),
            final(self).claims() == old(self).claims().update(index as int, false),
            final(self).info_spec() == old(self).info_spec(),
            final(self).endpoints_spec() == old(self).endpoints_spec(),
    {
        self.mark(index, false);
    }

    fn mark(&mut self, index: u8, claimed: bool)
        requires
            old(self).wf(),
            index <= MAX_PIN,
        ensures
            final(self).wf(),
            final(self).claims() == old(self).claims().update(index as int, claimed),
            final(self).info_spec() == old(self).info_spec(),
            final(self).endpoints_spec() == old(self).endpoints_spec(),
    {
        self.gpio_allocated.set(index as usize, claimed);
    }

    /// A handle on the SPI bus, channel `channel`.
    pub fn spi(&self, channel: u8) -> (r: Spi)
        ensures
            r.channel_spec() == channel,
            r.endpoint_spec() == self.write_address(),
    {
        Spi { channel, endpoint: self.endpoints.write.address }
    }
}

/// A handle on the SPI bus.
pub struct Spi {
    channel: u8,
    endpoint: u8,
}

impl Spi {
    pub closed spec fn channel_spec(self) -> u8 {
        self.channel
    }

    /// The endpoint address that frames go to and replies come from.
    pub closed spec fn endpoint_spec(self) -> u8 {
        self.endpoint
    }

    pub fn channel(&self) -> (r: u8)
        ensures
            r == self.channel_spec(),
    {
        self.channel
    }

    /// Writes `words`.
    pub fn write(&self, words: &[u8]) -> (r: BulkOut)
        requires
            words@.len() <= u32::MAX,
        ensures
            r.endpoint == self.endpoint_spec(),
            r.data@ == bulk_header_spec(TransferCommand::Write.code_spec(), words@.len() as u32)
                + words@,
    {
        frame(self.endpoint, TransferCommand::Write, words)
    }

    /// Sends `out` and reads `in_len` bytes back.
    pub fn transfer(&self, out: &[u8], in_len: usize) -> (r: (BulkOut, BulkRead))
        requires
            out@.len() <= u32::MAX,
        ensures
            write_read_spec(self.endpoint_spec(), out@, in_len, r),
    {
        (frame(self.endpoint, TransferCommand::WriteRead, out), BulkRead::new(self.endpoint, in_len))
    }

    /// Sends `buf` and reads as many bytes back into the same buffer.
    pub fn transfer_inplace(&self, buf: &[u8]) -> (r: (BulkOut, BulkRead))
        requires
            buf@.len() <= u32::MAX,
        ensures
            write_read_spec(self.endpoint_spec(), buf@, buf@.len() as usize, r),
    {
        self.transfer(buf, buf.len())
    }

    /// Reads `len` bytes, clocking out zeros.
    pub fn read(&self, len: usize) -> (r: (BulkOut, BulkRead))
        requires
            len <= u32::MAX,
        ensures
            write_read_spec(self.endpoint_spec(), Seq::new(len as nat, |i: int| 0u8), len, r),
    {
        let zeros: Vec<u8> = vec![0u8; len];
        assert(zeros@ =~= Seq::new(len as nat, |i: int| 0u8));
        self.transfer(zeros.as_slice(), len)
    }
}

/// A handle on a GPIO pin claimed as an input.
pub struct InputPin {
    index: u8,
}

impl InputPin {
    #[verifier::type_invariant]
    spec fn inv(self) -> bool {
        self.index <= MAX_PIN
    }

    pub closed spec fn index_spec(self) -> u8 {
        self.index
    }

    pub fn index(&self) -> (r: u8)
        ensures
            r == self.index_spec(),
            r <= MAX_PIN,
    {
        proof {
            use_type_invariant(self);
        }
        self.index
    }

    /// Whether the pin is high in the two-byte reply of the GPIO values request.
    pub fn is_high(&self, raw: [u8; 2]) -> (r: bool)
        ensures
            r == level_of_spec(raw@, self.index_spec()),
    {
        level_of(raw, self.index())
    }

    /// Whether the pin is low in the two-byte reply of the GPIO values request.
    pub fn is_low(&self, raw: [u8; 2]) -> (r: bool)
        ensures
            r == !level_of_spec(raw@, self.index_spec()),
    {
        !self.is_high(raw)
    }
}

/// A handle on a GPIO pin claimed as an output.
pub struct OutputPin {
    index: u8,
    mode: GpioMode,
}

impl OutputPin {
    #[verifier::type_invariant]
    spec fn inv(self) -> bool {
        self.index <= MAX_PIN
    }

    pub closed spec fn index_spec(self) -> u8 {
        self.index
    }

    pub closed spec fn mode_spec(self) -> GpioMode {
        self.mode
    }

    pub fn index(&self) -> (r: u8)
        ensures
            r == self.index_spec(),
            r <= MAX_PIN,
    {
        proof {
            use_type_invariant(self);
        }
        self.index
    }

    /// The request that drives the pin high, in its mode.
    pub fn set_high(&self) -> (r: ControlRequest)
        ensures
            r.request == Commands::SetGpioModeAndLevel.code_spec(),
            r.request_type == VENDOR_OUT,
            r.value == 0 && r.index == 0,
            r.data@ == mode_level_payload(self.index_spec(), self.mode_spec(), GpioLevel::High),
    {
        set_mode_level_request(self.index(), self.mode, GpioLevel::High)
    }

    /// The request that drives the pin low, in its mode.
    pub fn set_low(&self) -> (r: ControlRequest)
        ensures
            r.request == Commands::SetGpioModeAndLevel.code_spec(),
            r.request_type == VENDOR_OUT,
            r.value == 0 && r.index == 0,
            r.data@ == mode_level_payload(self.index_spec(), self.mode_spec(), GpioLevel::Low),
    {
        set_mode_level_request(self.index(), self.mode, GpioLevel::Low)
    }
}

} // verus!
