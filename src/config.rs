use vstd::prelude::*;
use crate::params::{decimal, strs, push_str, push_string, usize_to_decimal};

verus! {

/// Settings of the companion shared-filesystem daemon.
#[derive(Debug, Clone)]
pub struct VirtiofsdConfig {
    pub path: String,
    pub socket_path: String,
    pub shared_dir: String,
    pub cache: String,
}

/// Hypervisor settings as the sandbox configuration gives them.
#[derive(Debug, Clone)]
pub struct CloudHypervisorVMConfig {
    pub path: String,
    pub kernel_path: String,
    pub initrd_path: String,
    pub kernel_params: String,
    pub vcpus: u32,
    pub memory_mb: u32,
    pub debug: bool,
    pub virtiofsd: VirtiofsdConfig,
}

/// The launch settings of the hypervisor process.
#[derive(Debug, Clone)]
pub struct CloudHypervisorConfig {
    pub path: String,
    pub api_socket: String,
    pub kernel: String,
    pub initramfs: Option<String>,
    pub cmdline: String,
    pub vcpus: u32,
    pub memory_mb: u32,
    pub debug: bool,
}

/// The daemon's parameters: its socket, the shared directory and the cache mode.
pub open spec fn virtiofsd_params(c: VirtiofsdConfig) -> Seq<Seq<char>> {
    seq!["--socket-path"@, c.socket_path@, "--shared-dir"@, c.shared_dir@, "--cache"@, c.cache@]
}

/// The hypervisor's own parameters, before any device: control socket,
/// kernel, optional initramfs, kernel command line, cpus and memory.
pub open spec fn config_params(c: CloudHypervisorConfig) -> Seq<Seq<char>> {
    let initramfs: Seq<Seq<char>> = match c.initramfs {
        Some(p) => seq!["--initramfs"@, p@],
        None => Seq::empty(),
    };
    seq!["--api-socket"@, c.api_socket@, "--kernel"@, c.kernel@] + initramfs + seq![
        "--cmdline"@,
        c.cmdline@,
        "--cpus"@,
        "boot="@ + decimal(c.vcpus as nat),
        "--memory"@,
        "size="@ + decimal(c.memory_mb as nat) + "M"@,
    ]
}

impl VirtiofsdConfig {
    pub fn to_cmdline_params(&self) -> (r: Vec<String>)
        ensures
            strs(r@) == virtiofsd_params(*self),
    {
        let mut v: Vec<String> = Vec::new();
        push_str(&mut v, "--socket-path");
        push_str(&mut v, self.socket_path.as_str());
        push_str(&mut v, "--shared-dir");
        push_str(&mut v, self.shared_dir.as_str());
        push_str(&mut v, "--cache");
        push_str(&mut v, self.cache.as_str());
        assert(strs(v@) =~= virtiofsd_params(*self));
        v
    }
}

impl CloudHypervisorConfig {
    /// The settings taken over from the sandbox configuration; the control
    /// socket and the initramfs are filled in by the VM itself.
    pub fn from_vm_config(c: &CloudHypervisorVMConfig) -> (r: CloudHypervisorConfig)
        ensures
            r.path@ == c.path@,
            r.api_socket@ == Seq::<char>::empty(),
            r.kernel@ == c.kernel_path@,
            r.initramfs is None,
            r.cmdline@ == c.kernel_params@,
            r.vcpus == c.vcpus,
            r.memory_mb == c.memory_mb,
            r.debug == c.debug,
    {
        CloudHypervisorConfig {
            path: c.path.clone(),
            api_socket: String::new(),
            kernel: c.kernel_path.clone(),
            initramfs: None,
            cmdline: c.kernel_params.clone(),
            vcpus: c.vcpus,
            memory_mb: c.memory_mb,
            debug: c.debug,
        }
    }

    pub fn to_cmdline_params(&self) -> (r: Vec<String>)
        ensures
            strs(r@) == config_params(*self),
    {
        let mut v: Vec<String> = Vec::new();
        push_str(&mut v, "--api-socket");
        push_str(&mut v, self.api_socket.as_str());
        push_str(&mut v, "--kernel");
        push_str(&mut v, self.kernel.as_str());
        match &self.initramfs {
            Some(p) => {
                push_str(&mut v, "--initramfs");
                push_str(&mut v, p.as_str());
            },
            None => {},
        }
        push_str(&mut v, "--cmdline");
        push_str(&mut v, self.cmdline.as_str());
        push_str(&mut v, "--cpus");
        let cpus = String::from_str("boot=").concat(usize_to_decimal(self.vcpus as usize).as_str());
        push_string(&mut v, cpus);
        push_str(&mut v, "--memory");
        let mem = String::from_str("size=").concat(
            usize_to_decimal(self.memory_mb as usize).as_str(),
        ).concat("M");
        push_string(&mut v, mem);
        assert(strs(v@) =~= config_params(*self));
        v
    }
}

} // verus!
