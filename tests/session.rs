use cp2130::device::{check_configurations, select_language, Cp2130, Info, InputPin, OutputPin};
use cp2130::endpoint::{
    ConfigureStep, Direction, Endpoint, EndpointDescriptor, Endpoints, TransferType,
};
use cp2130::gpio::{GpioLevel, GpioMode};
use cp2130::transfer::{
    gpio_values_request, version_request, BulkOut, BulkRead, ControlRequest, PACKET_SIZE,
};
use cp2130::Error;

fn desc(address: u8, transfer_type: TransferType, direction: Direction) -> EndpointDescriptor {
    EndpointDescriptor { config: 1, iface: 0, setting: 0, address, transfer_type, direction }
}

fn session() -> Cp2130 {
    let descs = [
        desc(0x81, TransferType::Bulk, Direction::In),
        desc(0x02, TransferType::Bulk, Direction::Out),
    ];
    let endpoints = Endpoints::resolve(&descs).unwrap();
    let info = Info {
        manufacturer: "Silicon Labs".to_string(),
        product: "CP2130".to_string(),
        serial: "0001".to_string(),
    };
    Cp2130::new(info, endpoints)
}

/// A stand-in for the bus that records every physical transfer.
struct FakeBus {
    control: Vec<ControlRequest>,
    bulk_out: Vec<Vec<u8>>,
    bulk_in: Vec<(u8, usize)>,
    reply_limit: usize,
}

impl FakeBus {
    fn new(reply_limit: usize) -> FakeBus {
        FakeBus { control: Vec::new(), bulk_out: Vec::new(), bulk_in: Vec::new(), reply_limit }
    }

    fn transfers(&self) -> usize {
        self.control.len() + self.bulk_out.len() + self.bulk_in.len()
    }

    fn send(&mut self, out: BulkOut) {
        self.bulk_out.push(out.data);
    }

    fn read(&mut self, mut state: BulkRead, buf: &mut [u8]) -> usize {
        while let Some((at, len)) = state.next_chunk() {
            self.bulk_in.push((state.endpoint, len));
            let n = len.min(self.reply_limit);
            for (k, b) in buf[at..at + n].iter_mut().enumerate() {
                *b = (at + k) as u8;
            }
            state.advance(n);
        }
        state.received
    }

    fn claim_out(&mut self, dev: &mut Cp2130, pin: u8, mode: GpioMode, level: GpioLevel) -> Result<OutputPin, Error> {
        let req = dev.gpio_out_request(pin, mode, level)?;
        self.control.push(req);
        Ok(dev.gpio_out(pin, mode))
    }

    fn claim_in(&mut self, dev: &mut Cp2130, pin: u8) -> Result<InputPin, Error> {
        let req = dev.gpio_in_request(pin)?;
        self.control.push(req);
        Ok(dev.gpio_in(pin))
    }
}

#[test]
fn resolve_uses_default_control_endpoint() {
    let descs = [
        desc(0x81, TransferType::Bulk, Direction::In),
        desc(0x02, TransferType::Bulk, Direction::Out),
    ];
    let e = Endpoints::resolve(&descs).unwrap();
    assert_eq!(e.control, Endpoint { config: 1, iface: 0, setting: 0, address: 0 });
    assert_eq!(e.read, Endpoint { config: 1, iface: 0, setting: 0, address: 0x81 });
    assert_eq!(e.write, Endpoint { config: 1, iface: 0, setting: 0, address: 0x02 });
}

#[test]
fn resolve_without_bulk_out_fails() {
    let descs = [
        desc(0x81, TransferType::Bulk, Direction::In),
        desc(0x03, TransferType::Interrupt, Direction::Out),
        desc(0x00, TransferType::Control, Direction::Out),
    ];
    assert_eq!(Endpoints::resolve(&descs), Err(Error::Endpoint));
    let descs = [desc(0x02, TransferType::Bulk, Direction::Out)];
    assert_eq!(Endpoints::resolve(&descs), Err(Error::Endpoint));
    assert_eq!(Endpoints::resolve(&[]), Err(Error::Endpoint));
}

#[test]
fn resolve_last_match_wins() {
    let descs = [
        desc(0x81, TransferType::Bulk, Direction::In),
        desc(0x02, TransferType::Bulk, Direction::Out),
        desc(0x83, TransferType::Bulk, Direction::In),
        desc(0x84, TransferType::Interrupt, Direction::In),
    ];
    let e = Endpoints::resolve(&descs).unwrap();
    assert_eq!(e.read.address, 0x83);
    assert_eq!(e.write.address, 0x02);
}

#[test]
fn configure_detaches_kernel_driver_first() {
    let e = Endpoint { config: 1, iface: 2, setting: 0, address: 0x02 };
    assert_eq!(
        e.configure(true),
        vec![ConfigureStep::DetachKernelDriver(2), ConfigureStep::SetActiveConfiguration(1)]
    );
    assert_eq!(e.configure(false), vec![ConfigureStep::SetActiveConfiguration(1)]);
}

#[test]
fn startup_checks() {
    assert_eq!(select_language(&[]), Err(Error::NoLanguages));
    assert_eq!(select_language(&[0x0409, 0x0407]), Ok(0x0409));
    assert_eq!(check_configurations(1), Ok(()));
    assert_eq!(check_configurations(0), Err(Error::Configurations));
    assert_eq!(check_configurations(2), Err(Error::Configurations));
}

#[test]
fn session_info_is_kept() {
    let dev = session();
    let info = dev.info();
    assert_eq!(info.manufacturer, "Silicon Labs");
    assert_eq!(info.product, "CP2130");
    assert_eq!(info.serial, "0001");
    assert_eq!(dev.endpoints().write.address, 0x02);
}

#[test]
fn second_claim_is_busy_without_io() {
    for pin in 0u8..=10 {
        let mut dev = session();
        let mut bus = FakeBus::new(64);
        let out = bus.claim_out(&mut dev, pin, GpioMode::PushPull, GpioLevel::High).unwrap();
        assert_eq!(out.index(), pin);
        assert_eq!(bus.transfers(), 1);
        assert!(dev.is_claimed(pin));
        assert_eq!(
            bus.claim_out(&mut dev, pin, GpioMode::OpenDrain, GpioLevel::Low).err(),
            Some(Error::GpioInUse)
        );
        assert_eq!(bus.claim_in(&mut dev, pin).err(), Some(Error::GpioInUse));
        assert_eq!(bus.transfers(), 1);
    }
}

#[test]
fn released_pin_can_be_claimed_again() {
    let mut dev = session();
    let mut bus = FakeBus::new(64);
    let pin = bus.claim_in(&mut dev, 4).unwrap();
    assert_eq!(pin.index(), 4);
    assert!(!dev.is_claimed(5));
    dev.release_gpio(4);
    assert!(!dev.is_claimed(4));
    assert!(bus.claim_out(&mut dev, 4, GpioMode::PushPull, GpioLevel::Low).is_ok());
    assert_eq!(bus.transfers(), 2);
    assert_eq!(bus.control[0].data, vec![4, 0x00, 0x00]);
    assert_eq!(bus.control[1].data, vec![4, 0x02, 0x00]);
}

#[test]
fn claim_sends_mode_and_level() {
    let mut dev = session();
    let req = dev.gpio_out_request(3, GpioMode::PushPull, GpioLevel::High).unwrap();
    assert_eq!(req.request_type, 0x40);
    assert_eq!(req.request, 0x23);
    assert_eq!((req.value, req.index), (0, 0));
    assert_eq!(req.data, vec![3, 0x02, 0x01]);
    let pin = dev.gpio_out(3, GpioMode::PushPull);
    let hi = pin.set_high();
    assert_eq!(hi.data, vec![3, 0x02, 0x01]);
    let lo = pin.set_low();
    assert_eq!(lo.request, 0x23);
    assert_eq!(lo.data, vec![3, 0x02, 0x00]);
    let set = Cp2130::set_gpio_mode_level(7, GpioMode::OpenDrain, GpioLevel::High);
    assert_eq!(set.data, vec![7, 0x01, 0x01]);
}

#[test]
fn read_of_130_bytes_takes_three_transfers() {
    let dev = session();
    let mut bus = FakeBus::new(64);
    let (header, state) = dev.spi_read(130);
    assert_eq!(header.endpoint, 0x02);
    assert_eq!(header.data, vec![0, 0, 0x00, 0, 130, 0, 0, 0]);
    bus.send(header);
    let mut buf = [0u8; 130];
    assert_eq!(bus.read(state, &mut buf), 130);
    assert_eq!(bus.bulk_in, vec![(0x02, 64), (0x02, 64), (0x02, 2)]);
    assert_eq!(bus.bulk_in.len(), (130 + PACKET_SIZE - 1) / PACKET_SIZE);
    assert_eq!(buf[129], 129);
}

#[test]
fn short_replies_are_continued() {
    let dev = session();
    let mut bus = FakeBus::new(10);
    let (_, state) = dev.spi_read(25);
    let mut buf = [0u8; 25];
    assert_eq!(bus.read(state, &mut buf), 25);
    assert_eq!(bus.bulk_in, vec![(0x02, 25), (0x02, 15), (0x02, 5)]);
}

#[test]
fn zero_length_read_issues_no_transfer() {
    let dev = session();
    let (header, state) = dev.spi_read(0);
    assert_eq!(header.data, vec![0, 0, 0, 0, 0, 0, 0, 0]);
    assert!(state.is_done());
    assert_eq!(state.next_chunk(), None);
}

#[test]
fn bulk_read_steps() {
    let mut r = BulkRead::new(0x02, 100);
    assert_eq!(r.next_chunk(), Some((0, 64)));
    r.advance(64);
    assert_eq!(r.next_chunk(), Some((64, 36)));
    r.advance(36);
    assert!(r.is_done());
    assert_eq!(r.next_chunk(), None);
}

#[test]
fn write_and_write_read_frames() {
    let dev = session();
    let w = dev.spi_write(&[1, 2]);
    assert_eq!(w.endpoint, 0x02);
    assert_eq!(w.data, vec![0, 0, 0x01, 0, 2, 0, 0, 0, 1, 2]);
    let (f, state) = dev.spi_write_read(&[9], 70);
    assert_eq!(f.data, vec![0, 0, 0x02, 0, 1, 0, 0, 0, 9]);
    assert_eq!(state, BulkRead::new(0x02, 70));
    let mut bus = FakeBus::new(64);
    let mut buf = [0u8; 70];
    assert_eq!(bus.read(state, &mut buf), 70);
    assert_eq!(bus.bulk_in, vec![(0x02, 64), (0x02, 6)]);
}

#[test]
fn spi_handle_operations() {
    let dev = session();
    let spi = dev.spi(0);
    assert_eq!(spi.channel(), 0);
    assert_eq!(spi.write(&[5]).data, vec![0, 0, 0x01, 0, 1, 0, 0, 0, 5]);
    let (f, r) = spi.read(3);
    assert_eq!(f.data, vec![0, 0, 0x02, 0, 3, 0, 0, 0, 0, 0, 0]);
    assert_eq!(r.total, 3);
    let (f, r) = spi.transfer_inplace(&[7, 8]);
    assert_eq!(f.data, vec![0, 0, 0x02, 0, 2, 0, 0, 0, 7, 8]);
    assert_eq!(r.total, 2);
    let (f, r) = spi.transfer(&[1], 4);
    assert_eq!(f.data, vec![0, 0, 0x02, 0, 1, 0, 0, 0, 1]);
    assert_eq!((r.endpoint, r.total, r.received), (0x02, 4, 0));
}

#[test]
fn control_reads() {
    let v = version_request();
    assert_eq!((v.request_type, v.request, v.value, v.index), (0xc0, 0x11, 0, 0));
    assert_eq!(v.data.len(), 2);
    let g = gpio_values_request();
    assert_eq!((g.request_type, g.request), (0xc0, 0x20));
    assert_eq!(Cp2130::version([0x34, 0x12]), 0x1234);
    assert_eq!(Cp2130::get_gpio_values([0x00, 0x08]).bits(), 0x0008);
    assert!(Cp2130::get_gpio_level([0x00, 0x08], 0));
    assert!(!Cp2130::get_gpio_level([0x00, 0x08], 1));
    assert!(Cp2130::get_gpio_level([0x40, 0x00], 10));
}

#[test]
fn input_pin_levels() {
    let mut dev = session();
    let mut bus = FakeBus::new(64);
    let pin = bus.claim_in(&mut dev, 5).unwrap();
    assert!(pin.is_high([0x01, 0x00]));
    assert!(!pin.is_low([0x01, 0x00]));
    assert!(pin.is_low([0x02, 0x00]));
}
