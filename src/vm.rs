use vstd::prelude::*;
use crate::config::{
    CloudHypervisorConfig, CloudHypervisorVMConfig, VirtiofsdConfig, config_params, virtiofsd_params,
};
use crate::device::{
    BusType, Device, DeviceInfo, Disk, VfioDevice, VirtioNetDevice, devices_params,
};
use crate::error::Error;
use crate::params::{strs, extend_strings, push_str};
use crate::pids::{Pids, PidsModel};
use crate::stop::{StopPlan, stop_plan};

verus! {

/// A program to run and its arguments.
#[derive(Debug)]
pub struct LaunchCommand {
    pub program: String,
    pub args: Vec<String>,
}

/// What follows the attempt to connect the control client during start.
#[derive(Debug, Clone, Copy, PartialEq, Eq, Structural)]
pub enum StartStep {
    /// Start is complete; the VMM's process id (0 when it was not known).
    Started(u32),
    /// Connecting failed: stop the VM with force, then report the
    /// connection error itself, whatever the stop returns.
    RollBack,
}

/// The supervision state of one cloud-hypervisor microVM.
///
/// `fds` holds the descriptors that the hypervisor process inherits; the
/// descriptor at position `i` becomes slot `i + 3` in the child, after the
/// three standard streams.
#[derive(Debug)]
pub struct CloudHypervisorVM {
    pub id: String,
    pub config: CloudHypervisorConfig,
    pub devices: Vec<Device>,
    pub netns: String,
    pub base_dir: String,
    pub agent_socket: String,
    pub virtiofsd_config: VirtiofsdConfig,
    pub fds: Vec<i32>,
    pub client_connected: bool,
    pub pids: Pids,
}

/// The full launch parameters: the hypervisor's own, then each device's in
/// registration order, then the verbosity flag when debugging.
pub open spec fn launch_params(c: CloudHypervisorConfig, ds: Seq<Device>) -> Seq<Seq<char>> {
    config_params(c) + devices_params(ds) + if c.debug {
        seq!["-vv"@]
    } else {
        Seq::<Seq<char>>::empty()
    }
}

/// The descriptor slots that a tap device gets when its descriptors are
/// appended after `base` held ones.
pub open spec fn fd_slots_from(base: nat, n: nat) -> Seq<usize> {
    Seq::new(n, |i: int| (base + i + 3) as usize)
}

impl CloudHypervisorVM {
    pub fn new(id: &str, netns: &str, base_dir: &str, vm_config: &CloudHypervisorVMConfig) -> (r:
        Self)
        ensures
            r.id@ == id@,
            r.netns@ == netns@,
            r.base_dir@ == base_dir@,
            r.agent_socket@ == Seq::<char>::empty(),
            r.config.path@ == vm_config.path@,
            r.config.api_socket@ == base_dir@ + "/api.sock"@,
            r.config.kernel@ == vm_config.kernel_path@,
            r.config.cmdline@ == vm_config.kernel_params@,
            r.config.vcpus == vm_config.vcpus,
            r.config.memory_mb == vm_config.memory_mb,
            r.config.debug == vm_config.debug,
            vm_config.initrd_path@.len() == 0 ==> r.config.initramfs is None,
            vm_config.initrd_path@.len() != 0 ==> (r.config.initramfs matches Some(p) && p@
                == vm_config.initrd_path@),
            r.virtiofsd_config.path@ == vm_config.virtiofsd.path@,
            r.virtiofsd_config.cache@ == vm_config.virtiofsd.cache@,
            r.virtiofsd_config.socket_path@ == base_dir@ + "/virtiofs.sock"@,
            r.virtiofsd_config.shared_dir@ == base_dir@ + "/shared"@,
            r.devices@.len() == 0,
            r.fds@.len() == 0,
            !r.client_connected,
            r.pids@.vmm_pid is None,
            r.pids@.affiliated.len() == 0,
    {
        let mut config = CloudHypervisorConfig::from_vm_config(vm_config);
        config.api_socket = String::from_str(base_dir).concat("/api.sock");
        if vm_config.initrd_path.unicode_len() != 0 {
            config.initramfs = Some(vm_config.initrd_path.clone());
        }
        let virtiofsd_config = VirtiofsdConfig {
            path: vm_config.virtiofsd.path.clone(),
            socket_path: String::from_str(base_dir).concat("/virtiofs.sock"),
            shared_dir: String::from_str(base_dir).concat("/shared"),
            cache: vm_config.virtiofsd.cache.clone(),
        };
        CloudHypervisorVM {
            id: String::from_str(id),
            config,
            devices: Vec::new(),
            netns: String::from_str(netns),
            base_dir: String::from_str(base_dir),
            agent_socket: String::new(),
            virtiofsd_config,
            fds: Vec::new(),
            client_connected: false,
            pids: Pids::new(),
        }
    }

    /// Binds a device to the VM; it is part of the next launch command.
    pub fn add_device(&mut self, device: Device)
        ensures
            final(self).devices@ == old(self).devices@.push(device),
            final(self).fds == old(self).fds,
            final(self).pids == old(self).pids,
            final(self).config == old(self).config,
            final(self).client_connected == old(self).client_connected,
    {
        self.devices.push(device);
    }

    /// The VMM's process id, once it is known.
    pub fn pid(&self) -> (r: Result<u32, Error>)
        ensures
            self.pids.vmm_pid matches Some(p) ==> r == Ok::<u32, Error>(p),
            self.pids.vmm_pid is None ==> (r matches Err(Error::NotFound(_))),
    {
        match self.pids.vmm_pid {
            None => Err(Error::NotFound(String::from_str("empty pid from vmm_pid"))),
            Some(pid) => Ok(pid),
        }
    }

    /// Succeeds only when the control client is connected; hot-plug goes
    /// through it.
    pub fn get_client(&self) -> (r: Result<(), Error>)
        ensures
            self.client_connected ==> r is Ok,
            !self.client_connected ==> (r matches Err(Error::NotFound(_))),
    {
        if self.client_connected {
            Ok(())
        } else {
            Err(Error::NotFound(String::from_str("cloud hypervisor client not inited")))
        }
    }

    /// The command that runs the companion filesystem daemon.
    pub fn virtiofsd_command(&self) -> (r: LaunchCommand)
        ensures
            r.program@ == self.virtiofsd_config.path@,
            strs(r.args@) == virtiofsd_params(self.virtiofsd_config),
    {
        LaunchCommand {
            program: self.virtiofsd_config.path.clone(),
            args: self.virtiofsd_config.to_cmdline_params(),
        }
    }

    /// Records the companion daemon's process id among the affiliated ones.
    pub fn record_virtiofsd(&mut self, pid: u32)
        ensures
            final(self).pids@ == old(self).pids@.add_affiliated(pid),
            final(self).devices == old(self).devices,
            final(self).fds == old(self).fds,
            final(self).client_connected == old(self).client_connected,
    {
        self.pids.affiliated_pids.push(pid);
    }

    /// Hands a descriptor to the VM; returns the slot it takes in the child.
    pub fn append_fd(&mut self, fd: i32) -> (r: usize)
        requires
            old(self).fds@.len() + 3 <= usize::MAX,
        ensures
            final(self).fds@ == old(self).fds@.push(fd),
            r == old(self).fds@.len() + 3,
            final(self).devices == old(self).devices,
            final(self).pids == old(self).pids,
            final(self).config == old(self).config,
            final(self).client_connected == old(self).client_connected,
    {
        self.fds.push(fd);
        self.fds.len() - 1 + 3
    }

    /// Binds a described device before start. A tap's descriptors are handed
    /// to the VM in order and the device records the slots they take; vhost-user
    /// and character devices are not supported and leave the VM unchanged.
    pub fn attach(&mut self, device_info: DeviceInfo) -> (r: Result<(), Error>)
        requires
            device_info matches DeviceInfo::Tap(t) ==> old(self).fds@.len() + t.fds@.len() + 3
                <= usize::MAX,
        ensures
            (device_info is VhostUser || device_info is Char) ==> (r matches Err(
                Error::Unimplemented(_),
            )) && *final(self) == *old(self),
            !(device_info is VhostUser || device_info is Char) ==> r is Ok
                && final(self).devices@.len() == old(self).devices@.len() + 1
                && final(self).devices@.drop_last() == old(self).devices@
                && final(self).pids == old(self).pids
                && final(self).config == old(self).config
                && final(self).client_connected == old(self).client_connected,
            device_info matches DeviceInfo::Block(b) ==> final(self).fds == old(self).fds
                && (final(self).devices@.last() matches Device::Block(d) && d.id@ == b.id@
                && d.path@ == b.path@ && d.read_only == b.read_only && d.direct),
            device_info matches DeviceInfo::Tap(t) ==> final(self).fds@ == old(self).fds@ + t.fds@
                && (final(self).devices@.last() matches Device::Net(n) && n.id@ == t.id@
                && n.tap == Some(t.name) && n.mac_address@ == t.mac_address@
                && n.fds@ == fd_slots_from(old(self).fds@.len(), t.fds@.len())),
            device_info matches DeviceInfo::Physical(p) ==> final(self).fds == old(self).fds
                && (final(self).devices@.last() matches Device::Vfio(v) && v.id@ == p.id@
                && v.bdf@ == p.bdf@),
    {
        match device_info {
            DeviceInfo::Block(blk_info) => {
                let device = Disk::new(
                    blk_info.id.as_str(),
                    blk_info.path.as_str(),
                    blk_info.read_only,
                    true,
                );
                self.add_device(Device::Block(device));
                Ok(())
            },
            DeviceInfo::Tap(tap_info) => {
                let ghost base = self.fds@;
                let mut slots: Vec<usize> = Vec::new();
                let mut i: usize = 0;
                while i < tap_info.fds.len()
                    invariant
                        i <= tap_info.fds@.len(),
                        base.len() + tap_info.fds@.len() + 3 <= usize::MAX,
                        self.fds@ == base + tap_info.fds@.take(i as int),
                        slots@ == fd_slots_from(base.len(), i as nat),
                        self.devices == old(self).devices,
                        self.pids == old(self).pids,
                        self.config == old(self).config,
                        self.client_connected == old(self).client_connected,
                    decreases tap_info.fds@.len() - i,
                {
                    let index = self.append_fd(tap_info.fds[i]);
                    slots.push(index);
                    assert(tap_info.fds@.take(i + 1) =~= tap_info.fds@.take(i as int).push(
                        tap_info.fds@[i as int],
                    ));
                    assert(slots@ =~= fd_slots_from(base.len(), (i + 1) as nat));
                    i += 1;
                }
                assert(tap_info.fds@.take(i as int) =~= tap_info.fds@);
                let device = VirtioNetDevice::new(
                    tap_info.id.as_str(),
                    Some(tap_info.name),
                    tap_info.mac_address.as_str(),
                    slots,
                );
                self.add_device(Device::Net(device));
                Ok(())
            },
            DeviceInfo::Physical(vfio_info) => {
                let device = VfioDevice::new(vfio_info.id.as_str(), vfio_info.bdf.as_str());
                self.add_device(Device::Vfio(device));
                Ok(())
            },
            DeviceInfo::VhostUser(_) => Err(
                Error::Unimplemented(String::from_str("vhost-user device is not supported")),
            ),
            DeviceInfo::Char(_) => Err(
                Error::Unimplemented(String::from_str("character device is not supported")),
            ),
        }
    }

    /// The command that launches the hypervisor with every bound device.
    pub fn launch_command(&self) -> (r: LaunchCommand)
        ensures
            r.program@ == self.config.path@,
            strs(r.args@) == launch_params(self.config, self.devices@),
    {
        let mut params = self.config.to_cmdline_params();
        let mut i: usize = 0;
        while i < self.devices.len()
            invariant
                i <= self.devices@.len(),
                strs(params@) == config_params(self.config) + devices_params(
                    self.devices@.take(i as int),
                ),
            decreases self.devices@.len() - i,
        {
            let ghost before = strs(params@);
            extend_strings(&mut params, self.devices[i].to_cmdline_params());
            proof {
                let t = self.devices@.take(i + 1);
                assert(t.drop_last() =~= self.devices@.take(i as int));
                assert(t.last() == self.devices@[i as int]);
                assert(strs(params@) =~= config_params(self.config) + devices_params(t));
            }
            i += 1;
        }
        assert(self.devices@.take(i as int) =~= self.devices@);
        if self.config.debug {
            push_str(&mut params, "-vv");
        }
        assert(strs(params@) =~= launch_params(self.config, self.devices@));
        LaunchCommand { program: self.config.path.clone(), args: params }
    }

    /// Gives up the inherited descriptors, for the child process to take.
    pub fn take_fds(&mut self) -> (r: Vec<i32>)
        ensures
            r@ == old(self).fds@,
            final(self).fds@.len() == 0,
            final(self).devices == old(self).devices,
            final(self).pids == old(self).pids,
            final(self).config == old(self).config,
            final(self).client_connected == old(self).client_connected,
    {
        let mut out: Vec<i32> = Vec::new();
        std::mem::swap(&mut out, &mut self.fds);
        out
    }

    /// Records the hypervisor's process id once it is spawned.
    pub fn record_vmm(&mut self, pid: Option<u32>)
        ensures
            final(self).pids@ == old(self).pids@.with_vmm(pid),
            final(self).devices == old(self).devices,
            final(self).fds == old(self).fds,
            final(self).config == old(self).config,
            final(self).client_connected == old(self).client_connected,
    {
        self.pids.vmm_pid = pid;
    }

    /// Decides how start ends once connecting the control client succeeded
    /// or failed.
    pub fn on_client_connect(&mut self, connected: bool) -> (r: StartStep)
        ensures
            connected ==> final(self).client_connected,
            connected ==> r == StartStep::Started(
                match old(self).pids.vmm_pid {
                    Some(p) => p,
                    None => 0,
                },
            ),
            !connected ==> r == StartStep::RollBack,
            !connected ==> final(self).client_connected == old(self).client_connected,
            final(self).pids == old(self).pids,
            final(self).devices == old(self).devices,
            final(self).fds == old(self).fds,
    {
        if connected {
            self.client_connected = true;
            let pid = match self.pids.vmm_pid {
                Some(p) => p,
                None => 0,
            };
            StartStep::Started(pid)
        } else {
            StartStep::RollBack
        }
    }

    /// Marks the control client connected again after a supervisor restart.
    pub fn mark_client_connected(&mut self)
        ensures
            final(self).client_connected,
            final(self).pids == old(self).pids,
            final(self).devices == old(self).devices,
            final(self).fds == old(self).fds,
    {
        self.client_connected = true;
    }

    /// The signals that `stop(force)` sends.
    pub fn stop_plan(&self, force: bool) -> (r: StopPlan)
        ensures
            r.signal == crate::stop::signal_for(force),
            r.vmm == crate::stop::vmm_target(self.pids@),
            r.affiliated@ == crate::pids::positive_pids(self.pids@.affiliated),
    {
        stop_plan(&self.pids, force)
    }

    /// The result of a hot attach: the bus is always PCI, the address is
    /// the one the control client reported.
    pub fn hot_attach_reply(addr: String) -> (r: (BusType, String))
        ensures
            r.0 == BusType::PCI,
            r.1 == addr,
    {
        (BusType::PCI, addr)
    }

    /// Liveness check; there is nothing to check yet.
    pub fn ping(&self) -> (r: Result<(), Error>)
        ensures
            r is Ok,
    {
        Ok(())
    }

    pub fn socket_address(&self) -> (r: String)
        ensures
            r@ == self.agent_socket@,
    {
        self.agent_socket.clone()
    }

    /// A copy of the process identity set.
    pub fn pids(&self) -> (r: Pids)
        ensures
            r@ == self.pids@,
    {
        self.pids.copy()
    }

    /// The file the hypervisor's process id is written to.
    pub fn pid_file_path(&self) -> (r: String)
        ensures
            r@ == self.base_dir@ + "/pid"@,
    {
        String::from_str(self.base_dir.as_str()).concat("/pid")
    }
}

/// After a start that recorded the companion daemon and then a positive
/// hypervisor process id, the identity set names the hypervisor as the
/// authoritative process and holds the daemon among the affiliated ones.
pub proof fn lemma_started_pids(p: PidsModel, daemon_pid: u32, vmm_pid: u32)
    requires
        vmm_pid > 0,
    ensures
        ({
            let q = p.add_affiliated(daemon_pid).with_vmm(Some(vmm_pid));
            &&& q.vmm_pid == Some(vmm_pid)
            &&& q.vmm_pid.unwrap() > 0
            &&& q.affiliated.contains(daemon_pid)
        }),
{
    let q = p.add_affiliated(daemon_pid).with_vmm(Some(vmm_pid));
    assert(q.affiliated[q.affiliated.len() - 1] == daemon_pid);
}

/// With no device bound, the launch command holds the hypervisor's own
/// parameters and, when debugging, the verbosity flag; nothing else.
pub proof fn lemma_launch_params_without_devices(c: CloudHypervisorConfig)
    ensures
        launch_params(c, Seq::empty()) == config_params(c) + if c.debug {
            seq!["-vv"@]
        } else {
            Seq::<Seq<char>>::empty()
        },
{
    assert(devices_params(Seq::<Device>::empty()) == Seq::<Seq<char>>::empty());
    assert(config_params(c) + Seq::<Seq<char>>::empty() =~= config_params(c));
}

} // verus!
