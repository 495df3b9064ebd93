use chvm::config::{CloudHypervisorVMConfig, VirtiofsdConfig};
use chvm::device::{
    BlockDeviceInfo, CharDeviceInfo, Device, DeviceInfo, PhysicalDeviceInfo, TapDeviceInfo,
    VhostUserDeviceInfo, BusType,
};
use chvm::error::Error;
use chvm::vm::{CloudHypervisorVM, StartStep};

fn vm_config(debug: bool, initrd: &str) -> CloudHypervisorVMConfig {
    CloudHypervisorVMConfig {
        path: "/usr/bin/cloud-hypervisor".to_string(),
        kernel_path: "/var/lib/vmlinux".to_string(),
        initrd_path: initrd.to_string(),
        kernel_params: "console=hvc0".to_string(),
        vcpus: 2,
        memory_mb: 2048,
        debug,
        virtiofsd: VirtiofsdConfig {
            path: "/usr/bin/virtiofsd".to_string(),
            socket_path: String::new(),
            shared_dir: String::new(),
            cache: "never".to_string(),
        },
    }
}

fn new_vm(debug: bool) -> CloudHypervisorVM {
    CloudHypervisorVM::new("sb1", "/var/run/netns/n1", "/run/sb1", &vm_config(debug, ""))
}

#[test]
fn new_fills_paths_from_base_dir() {
    let vm = new_vm(false);
    assert_eq!(vm.config.api_socket, "/run/sb1/api.sock");
    assert_eq!(vm.virtiofsd_config.socket_path, "/run/sb1/virtiofs.sock");
    assert_eq!(vm.virtiofsd_config.shared_dir, "/run/sb1/shared");
    assert_eq!(vm.config.initramfs, None);
    assert_eq!(vm.socket_address(), "");
    assert_eq!(vm.pid_file_path(), "/run/sb1/pid");
    let vm2 = CloudHypervisorVM::new("sb2", "n", "/b", &vm_config(false, "/boot/initrd"));
    assert_eq!(vm2.config.initramfs, Some("/boot/initrd".to_string()));
}

#[test]
fn launch_without_devices_has_no_device_flags() {
    let vm = new_vm(true);
    let cmd = vm.launch_command();
    assert_eq!(cmd.program, "/usr/bin/cloud-hypervisor");
    assert_eq!(
        cmd.args,
        vec![
            "--api-socket", "/run/sb1/api.sock", "--kernel", "/var/lib/vmlinux", "--cmdline",
            "console=hvc0", "--cpus", "boot=2", "--memory", "size=2048M", "-vv",
        ]
    );
    let quiet = new_vm(false).launch_command();
    assert_eq!(quiet.args.last().unwrap(), "size=2048M");
}

#[test]
fn launch_renders_devices_in_order() {
    let mut vm = new_vm(false);
    vm.attach(DeviceInfo::Block(BlockDeviceInfo {
        id: "blk0".to_string(),
        path: "/dev/vdb".to_string(),
        read_only: true,
    }))
    .unwrap();
    vm.attach(DeviceInfo::Tap(TapDeviceInfo {
        id: "net0".to_string(),
        name: "tap0".to_string(),
        mac_address: "02:00:00:00:00:01".to_string(),
        fds: vec![40, 41],
    }))
    .unwrap();
    vm.attach(DeviceInfo::Physical(PhysicalDeviceInfo {
        id: "gpu0".to_string(),
        bdf: "0000:3b:00.0".to_string(),
    }))
    .unwrap();
    let args = vm.launch_command().args;
    let n = args.len();
    assert_eq!(
        args[n - 6..].to_vec(),
        vec![
            "--disk",
            "path=/dev/vdb,readonly=on,direct=on,id=blk0",
            "--net",
            "tap=tap0,mac=02:00:00:00:00:01,fd=[3,4],id=net0",
            "--device",
            "path=/sys/bus/pci/devices/0000:3b:00.0,id=gpu0",
        ]
    );
}

#[test]
fn virtiofsd_command_uses_fixed_paths() {
    let cmd = new_vm(false).virtiofsd_command();
    assert_eq!(cmd.program, "/usr/bin/virtiofsd");
    assert_eq!(
        cmd.args,
        vec!["--socket-path", "/run/sb1/virtiofs.sock", "--shared-dir", "/run/sb1/shared", "--cache", "never"]
    );
}

#[test]
fn attach_taps_records_descriptor_slots() {
    let mut vm = new_vm(false);
    vm.attach(DeviceInfo::Tap(TapDeviceInfo {
        id: "net0".to_string(),
        name: "tap0".to_string(),
        mac_address: "m0".to_string(),
        fds: vec![10, 11, 12],
    }))
    .unwrap();
    vm.attach(DeviceInfo::Tap(TapDeviceInfo {
        id: "net1".to_string(),
        name: "tap1".to_string(),
        mac_address: "m1".to_string(),
        fds: vec![20],
    }))
    .unwrap();
    assert_eq!(vm.fds, vec![10, 11, 12, 20]);
    match (&vm.devices[0], &vm.devices[1]) {
        (Device::Net(a), Device::Net(b)) => {
            assert_eq!(a.fds, vec![3, 4, 5]);
            assert_eq!(b.fds, vec![6]);
            assert_eq!(a.tap, Some("tap0".to_string()));
        }
        _ => panic!("expected two network devices"),
    }
    let handed = vm.take_fds();
    assert_eq!(handed, vec![10, 11, 12, 20]);
    assert!(vm.fds.is_empty());
}

#[test]
fn attach_unsupported_kinds_fail() {
    let mut vm = new_vm(false);
    let r = vm.attach(DeviceInfo::VhostUser(VhostUserDeviceInfo {
        id: "v".to_string(),
        socket_path: "/s".to_string(),
    }));
    assert!(matches!(r, Err(Error::Unimplemented(_))));
    let r = vm.attach(DeviceInfo::Char(CharDeviceInfo {
        id: "c".to_string(),
        chardev: "pty".to_string(),
    }));
    assert!(matches!(r, Err(Error::Unimplemented(_))));
    assert!(vm.devices.is_empty());
}

#[test]
fn hot_plug_before_connect_is_not_found() {
    let mut vm = new_vm(false);
    assert!(matches!(vm.get_client(), Err(Error::NotFound(_))));
    vm.mark_client_connected();
    assert!(vm.get_client().is_ok());
    let (bus, addr) = CloudHypervisorVM::hot_attach_reply("0000:00:05.0".to_string());
    assert_eq!(bus, BusType::PCI);
    assert_eq!(addr, "0000:00:05.0");
}

#[test]
fn start_records_daemon_and_vmm_pids() {
    let mut vm = new_vm(false);
    assert!(matches!(vm.pid(), Err(Error::NotFound(_))));
    vm.record_virtiofsd(4242);
    vm.record_vmm(Some(4300));
    assert_eq!(vm.on_client_connect(true), StartStep::Started(4300));
    let p = vm.pids();
    assert_eq!(p.vmm_pid, Some(4300));
    assert_eq!(p.affiliated_pids, vec![4242]);
    assert_eq!(vm.pid().unwrap(), 4300);
    assert!(vm.ping().is_ok());
}

#[test]
fn failed_connect_rolls_back() {
    let mut vm = new_vm(false);
    vm.record_virtiofsd(7);
    vm.record_vmm(Some(8));
    assert_eq!(vm.on_client_connect(false), StartStep::RollBack);
    assert!(!vm.client_connected);
    let plan = vm.stop_plan(true);
    assert_eq!(plan.signal, chvm::stop::Signal::Kill);
    assert_eq!(plan.vmm, Some(8));
    assert_eq!(plan.affiliated, vec![7]);
}
