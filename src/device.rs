use vstd::prelude::*;
use crate::params::{decimal, on_off, on_off_str, strs, push_str, push_string, usize_to_decimal};

verus! {

/// A block device backed by a file or a host block device.
#[derive(Debug, Clone)]
pub struct Disk {
    pub id: String,
    pub path: String,
    pub read_only: bool,
    pub direct: bool,
}

/// A virtio network device over a tap interface. `fds` holds the slot
/// numbers, in the hypervisor process, of the tap's inherited descriptors.
#[derive(Debug, Clone)]
pub struct VirtioNetDevice {
    pub id: String,
    pub tap: Option<String>,
    pub mac_address: String,
    pub fds: Vec<usize>,
}

/// A host PCI device passed through to the guest.
#[derive(Debug, Clone)]
pub struct VfioDevice {
    pub id: String,
    pub bdf: String,
}

/// A device bound to the VM before it starts.
#[derive(Debug, Clone)]
pub enum Device {
    Block(Disk),
    Net(VirtioNetDevice),
    Vfio(VfioDevice),
}

/// Block device as a caller describes it.
#[derive(Debug, Clone)]
pub struct BlockDeviceInfo {
    pub id: String,
    pub path: String,
    pub read_only: bool,
}

/// Tap device as a caller describes it; `fds` are the open descriptors of
/// the tap queues, which the VM takes over.
#[derive(Debug, Clone)]
pub struct TapDeviceInfo {
    pub id: String,
    pub name: String,
    pub mac_address: String,
    pub fds: Vec<i32>,
}

/// Passthrough device as a caller describes it.
#[derive(Debug, Clone)]
pub struct PhysicalDeviceInfo {
    pub id: String,
    pub bdf: String,
}

#[derive(Debug, Clone)]
pub struct VhostUserDeviceInfo {
    pub id: String,
    pub socket_path: String,
}

#[derive(Debug, Clone)]
pub struct CharDeviceInfo {
    pub id: String,
    pub chardev: String,
}

/// A device to attach, in any of the kinds callers can describe.
#[derive(Debug, Clone)]
pub enum DeviceInfo {
    Block(BlockDeviceInfo),
    Tap(TapDeviceInfo),
    Physical(PhysicalDeviceInfo),
    VhostUser(VhostUserDeviceInfo),
    Char(CharDeviceInfo),
}

/// The bus a hot-plugged device lands on.
#[derive(Debug, Clone, Copy, PartialEq, Eq, Structural)]
pub enum BusType {
    PCI,
}

/// `3,4,5`: the slot numbers in decimal, separated by commas.
pub open spec fn join_decimals(s: Seq<usize>) -> Seq<char>
    decreases s.len(),
{
    if s.len() == 0 {
        Seq::empty()
    } else if s.len() == 1 {
        decimal(s[0] as nat)
    } else {
        join_decimals(s.drop_last()) + ","@ + decimal(s.last() as nat)
    }
}

pub open spec fn disk_params(d: Disk) -> Seq<Seq<char>> {
    seq![
        "--disk"@,
        "path="@ + d.path@ + ",readonly="@ + on_off(d.read_only) + ",direct="@ + on_off(d.direct)
            + ",id="@ + d.id@,
    ]
}

pub open spec fn tap_part(d: VirtioNetDevice) -> Seq<char> {
    match d.tap {
        Some(t) => "tap="@ + t@ + ","@,
        None => Seq::empty(),
    }
}

pub open spec fn fd_part(d: VirtioNetDevice) -> Seq<char> {
    if d.fds@.len() == 0 {
        Seq::empty()
    } else {
        ",fd=["@ + join_decimals(d.fds@) + "]"@
    }
}

/// `tap=<name>,mac=<mac>,fd=[<slots>],id=<id>`; the tap part is left out
/// without a name and the descriptor part without descriptors.
pub open spec fn net_params(d: VirtioNetDevice) -> Seq<Seq<char>> {
    seq!["--net"@, tap_part(d) + "mac="@ + d.mac_address@ + fd_part(d) + ",id="@ + d.id@]
}

pub open spec fn vfio_params(d: VfioDevice) -> Seq<Seq<char>> {
    seq!["--device"@, "path=/sys/bus/pci/devices/"@ + d.bdf@ + ",id="@ + d.id@]
}

/// A device's launch parameters.
pub open spec fn device_params(d: Device) -> Seq<Seq<char>> {
    match d {
        Device::Block(b) => disk_params(b),
        Device::Net(n) => net_params(n),
        Device::Vfio(v) => vfio_params(v),
    }
}

/// The launch parameters of every device, in registration order.
pub open spec fn devices_params(ds: Seq<Device>) -> Seq<Seq<char>>
    decreases ds.len(),
{
    if ds.len() == 0 {
        Seq::empty()
    } else {
        devices_params(ds.drop_last()) + device_params(ds.last())
    }
}

pub fn join_fd_slots(s: &Vec<usize>) -> (r: String)
    ensures
        r@ == join_decimals(s@),
{
    let mut out = String::new();
    let mut i: usize = 0;
    while i < s.len()
        invariant
            i <= s@.len(),
            out@ == join_decimals(s@.take(i as int)),
        decreases s@.len() - i,
    {
        let d = usize_to_decimal(s[i]);
        proof {
            assert(s@.take(i + 1).drop_last() =~= s@.take(i as int));
            assert(s@.take(i + 1).last() == s@[i as int]);
        }
        if i == 0 {
            assert(s@.take(1) =~= seq![s@[0]]);
            out = d;
        } else {
            out = out.concat(",").concat(d.as_str());
        }
        i += 1;
    }
    assert(s@.take(i as int) =~= s@);
    out
}

impl Disk {
    pub fn new(id: &str, path: &str, read_only: bool, direct: bool) -> (r: Disk)
        ensures
            r.id@ == id@,
            r.path@ == path@,
            r.read_only == read_only,
            r.direct == direct,
    {
        Disk { id: String::from_str(id), path: String::from_str(path), read_only, direct }
    }

    pub fn to_cmdline_params(&self) -> (r: Vec<String>)
        ensures
            strs(r@) == disk_params(*self),
    {
        let mut v: Vec<String> = Vec::new();
        push_str(&mut v, "--disk");
        let s = String::from_str("path=").concat(self.path.as_str()).concat(",readonly=").concat(
            on_off_str(self.read_only),
        ).concat(",direct=").concat(on_off_str(self.direct)).concat(",id=").concat(
            self.id.as_str(),
        );
        push_string(&mut v, s);
        assert(strs(v@) =~= disk_params(*self));
        v
    }
}

impl VirtioNetDevice {
    pub fn new(id: &str, tap: Option<String>, mac_address: &str, fds: Vec<usize>) -> (r:
        VirtioNetDevice)
        ensures
            r.id@ == id@,
            r.tap == tap,
            r.mac_address@ == mac_address@,
            r.fds@ == fds@,
    {
        VirtioNetDevice { id: String::from_str(id), tap, mac_address: String::from_str(mac_address), fds }
    }

    pub fn to_cmdline_params(&self) -> (r: Vec<String>)
        ensures
            strs(r@) == net_params(*self),
    {
        let mut v: Vec<String> = Vec::new();
        push_str(&mut v, "--net");
        let ghost tap = tap_part(*self);
        let ghost fds = fd_part(*self);
        let mut s = String::new();
        match &self.tap {
            Some(t) => {
                s = s.concat("tap=").concat(t.as_str()).concat(",");
            },
            None => {},
        }
        assert(s@ =~= tap);
        s = s.concat("mac=").concat(self.mac_address.as_str());
        if self.fds.len() > 0 {
            let slots = join_fd_slots(&self.fds);
            s = s.concat(",fd=[").concat(slots.as_str()).concat("]");
        }
        assert(s@ =~= tap + "mac="@ + self.mac_address@ + fds);
        s = s.concat(",id=").concat(self.id.as_str());
        push_string(&mut v, s);
        assert(strs(v@) =~= net_params(*self));
        v
    }
}

impl VfioDevice {
    pub fn new(id: &str, bdf: &str) -> (r: VfioDevice)
        ensures
            r.id@ == id@,
            r.bdf@ == bdf@,
    {
        VfioDevice { id: String::from_str(id), bdf: String::from_str(bdf) }
    }

    pub fn to_cmdline_params(&self) -> (r: Vec<String>)
        ensures
            strs(r@) == vfio_params(*self),
    {
        let mut v: Vec<String> = Vec::new();
        push_str(&mut v, "--device");
        let s = String::from_str("path=/sys/bus/pci/devices/").concat(self.bdf.as_str()).concat(
            ",id=",
        ).concat(self.id.as_str());
        push_string(&mut v, s);
        assert(strs(v@) =~= vfio_params(*self));
        v
    }
}

impl Device {
    /// The parameters that put this device on the hypervisor's command line.
    pub fn to_cmdline_params(&self) -> (r: Vec<String>)
        ensures
            strs(r@) == device_params(*self),
    {
        match self {
            Device::Block(b) => b.to_cmdline_params(),
            Device::Net(n) => n.to_cmdline_params(),
            Device::Vfio(d) => d.to_cmdline_params(),
        }
    }
}

} // verus!
