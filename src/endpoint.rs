//! Classification of USB endpoint descriptors into the control, read and write roles.
use vstd::prelude::*;
use crate::Error;

verus! {

/// Transfer type of an endpoint, as its descriptor states it.
#[derive(Clone, Copy, Debug, PartialEq, Eq, Structural)]
pub enum TransferType {
    Control,
    Isochronous,
    Bulk,
    Interrupt,
}

/// Direction of an endpoint, as its descriptor states it.
#[derive(Clone, Copy, Debug, PartialEq, Eq, Structural)]
pub enum Direction {
    In,
    Out,
}

/// One endpoint of the descriptor tree, with the configuration and interface it sits in.
#[derive(Clone, Copy, Debug, PartialEq, Eq, Structural)]
pub struct EndpointDescriptor {
    pub config: u8,
    pub iface: u8,
    pub setting: u8,
    pub address: u8,
    pub transfer_type: TransferType,
    pub direction: Direction,
}

/// A resolved endpoint: where transfers of one role go.
#[derive(Clone, Copy, Debug, PartialEq, Eq, Structural)]
pub struct Endpoint {
    pub config: u8,
    pub iface: u8,
    pub setting: u8,
    pub address: u8,
}

/// A step of making an endpoint's interface usable by this process.
#[derive(Clone, Copy, Debug, PartialEq, Eq, Structural)]
pub enum ConfigureStep {
    /// Detach the kernel driver that holds this interface.
    DetachKernelDriver(u8),
    /// Activate this configuration number.
    SetActiveConfiguration(u8),
}

/// The endpoints of the three roles.
#[derive(Clone, Copy, Debug, PartialEq, Eq, Structural)]
pub struct Endpoints {
    pub control: Endpoint,
    pub read: Endpoint,
    pub write: Endpoint,
}

/// The device's default control endpoint: configuration 1, interface 0, no alternate setting.
pub open spec fn default_control_spec() -> Endpoint {
    Endpoint { config: 1, iface: 0, setting: 0, address: 0 }
}

pub open spec fn endpoint_of(d: EndpointDescriptor) -> Endpoint {
    Endpoint { config: d.config, iface: d.iface, setting: d.setting, address: d.address }
}

pub open spec fn is_bulk(d: EndpointDescriptor, dir: Direction) -> bool {
    d.transfer_type == TransferType::Bulk && d.direction == dir
}

/// The last bulk endpoint of direction `dir` in `s`, if there is one.
pub open spec fn last_bulk(s: Seq<EndpointDescriptor>, dir: Direction) -> Option<Endpoint>
    decreases s.len(),
{
    if s.len() == 0 {
        None
    } else if is_bulk(s.last(), dir) {
        Some(endpoint_of(s.last()))
    } else {
        last_bulk(s.drop_last(), dir)
    }
}

/// What endpoint resolution gives for the descriptors `s`, in the order the tree is walked.
pub open spec fn resolve_spec(s: Seq<EndpointDescriptor>) -> Result<Endpoints, Error> {
    match (last_bulk(s, Direction::In), last_bulk(s, Direction::Out)) {
        (Some(r), Some(w)) => Ok(Endpoints { control: default_control_spec(), read: r, write: w }),
        _ => Err(Error::Endpoint),
    }
}

impl Endpoint {
    /// The device's default control endpoint.
    pub fn default_control() -> (r: Endpoint)
        ensures
            r == default_control_spec(),
    {
        Endpoint { config: 1, iface: 0, setting: 0, address: 0 }
    }

    /// The steps that make this endpoint usable, given whether a kernel driver holds its
    /// interface: detach that driver first, then activate the configuration.
    pub fn configure(&self, kernel_driver_active: bool) -> (r: Vec<ConfigureStep>)
        ensures
            kernel_driver_active ==> r@ == seq![
                ConfigureStep::DetachKernelDriver(self.iface),
                ConfigureStep::SetActiveConfiguration(self.config),
            ],
            !kernel_driver_active ==> r@ == seq![ConfigureStep::SetActiveConfiguration(self.config)],
    {
        let mut r: Vec<ConfigureStep> = Vec::new();
        if kernel_driver_active {
            r.push(ConfigureStep::DetachKernelDriver(self.iface));
        }
        r.push(ConfigureStep::SetActiveConfiguration(self.config));
        proof {
            if kernel_driver_active {
                assert(r@ =~= seq![
                    ConfigureStep::DetachKernelDriver(self.iface),
                    ConfigureStep::SetActiveConfiguration(self.config),
                ]);
            } else {
                assert(r@ =~= seq![ConfigureStep::SetActiveConfiguration(self.config)]);
            }
        }
        r
    }
}

impl Endpoints {
    /// Resolves the roles over the endpoint descriptors, in the order the tree is walked.
    /// The last bulk IN endpoint reads, the last bulk OUT endpoint writes; the control role
    /// is the default control endpoint. Fails with `Error::Endpoint` when either bulk role is
    /// missing.
    pub fn resolve(descs: &[EndpointDescriptor]) -> (r: Result<Endpoints, Error>)
        ensures
            r == resolve_spec(descs@),
    {
        let mut read: Option<Endpoint> = None;
        let mut write: Option<Endpoint> = None;
        let mut i: usize = 0;
        while i < descs.len()
            invariant
                i <= descs@.len(),
                read == last_bulk(descs@.subrange(0, i as int), Direction::In),
                write == last_bulk(descs@.subrange(0, i as int), Direction::Out),
            decreases descs@.len() - i,
        {
            let d = descs[i];
            let e = Endpoint { config: d.config, iface: d.iface, setting: d.setting, address: d.address };
            match (d.transfer_type, d.direction) {
                (TransferType::Bulk, Direction::In) => read = Some(e),
                (TransferType::Bulk, Direction::Out) => write = Some(e),
                _ => {},
            }
            proof {
                let s = descs@.subrange(0, i + 1);
                assert(s.drop_last() =~= descs@.subrange(0, i as int));
                assert(s.last() == d);
            }
            i = i + 1;
        }
        assert(descs@.subrange(0, descs@.len() as int) =~= descs@);
        match (read, write) {
            (Some(r), Some(w)) => Ok(Endpoints { control: Endpoint::default_control(), read: r, write: w }),
            _ => Err(Error::Endpoint),
        }
    }
}

} // verus!
