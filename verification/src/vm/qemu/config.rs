//! The command line that starts a machine.

use vstd::prelude::*;

use crate::path;
use crate::text;
use crate::vm::platform::HostProfile;

verus! {

#[derive(Debug, Clone, Copy, PartialEq, Eq, Structural)]
pub enum DiskFormat {
    Qcow2,
    Raw,
}

impl Default for DiskFormat {
    fn default() -> (r: Self)
        ensures
            r is Qcow2,
    {
        DiskFormat::Qcow2
    }
}

impl DiskFormat {
    pub open spec fn name(self) -> Seq<char> {
        match self {
            DiskFormat::Qcow2 => "qcow2"@,
            DiskFormat::Raw => "raw"@,
        }
    }

    pub fn as_str(self) -> (r: &'static str)
        ensures
            r@ == self.name(),
    {
        match self {
            DiskFormat::Qcow2 => "qcow2",
            DiskFormat::Raw => "raw",
        }
    }
}

/// A host directory that a machine reaches through a virtiofs daemon.
#[derive(Debug, PartialEq, Eq)]
pub struct VirtioFsShare {
    pub tag: String,
    pub socket_path: String,
}

/// A host directory that a machine reaches through the 9p protocol.
#[derive(Debug, PartialEq, Eq)]
pub struct Virtio9pShare {
    pub tag: String,
    pub host_path: String,
}

/// Everything that QEMU is told about a machine.
#[derive(Debug)]
pub struct QemuConfig {
    pub qemu_binary: String,
    pub bios_path: Option<String>,
    pub machine_type: String,
    pub cpu_type: String,
    pub memory: String,
    pub cpus: u32,
    pub disk_image: Option<String>,
    pub kernel_path: Option<String>,
    pub append: Option<String>,
    pub disk_format: DiskFormat,
    pub cloud_init_iso: Option<String>,
    pub pid_file: Option<String>,
    pub qemu_name: Option<String>,
    pub ssh_port: Option<u16>,
    pub virtiofs_shares: Vec<VirtioFsShare>,
    pub virtio_9p_shares: Vec<Virtio9pShare>,
    pub display: bool,
    pub daemonize: bool,
}

/// Whether a configuration is the initial one for the given emulator, machine and processor.
pub open spec fn initial(
    c: QemuConfig,
    qemu_binary: Seq<char>,
    machine_type: Seq<char>,
    cpu_type: Seq<char>,
) -> bool {
    &&& c.qemu_binary@ == qemu_binary
    &&& c.bios_path is None
    &&& c.machine_type@ == machine_type
    &&& c.cpu_type@ == cpu_type
    &&& c.memory@ == "4G"@
    &&& c.cpus == 2
    &&& c.disk_image is None
    &&& c.kernel_path is None
    &&& c.append is None
    &&& c.disk_format is Qcow2
    &&& c.cloud_init_iso is None
    &&& c.pid_file is None
    &&& c.qemu_name is None
    &&& c.ssh_port is None
    &&& c.virtiofs_shares@.len() == 0
    &&& c.virtio_9p_shares@.len() == 0
    &&& !c.display
    &&& c.daemonize
}

/// Whether a configuration is the initial one for a host, or for the commonest where the host is
/// not known.
pub open spec fn initial_on(c: QemuConfig, host: Option<&HostProfile>) -> bool {
    match host {
        Some(p) => initial(c, p.qemu_binary@, p.machine_type@, p.cpu_type@),
        None => initial(c, "qemu-system-x86_64"@, "q35,accel=kvm"@, "host"@),
    }
}

/// A command with its arguments.
#[derive(Debug, PartialEq, Eq)]
pub struct CommandLine {
    pub program: String,
    pub args: Vec<String>,
}

/// What the host says about the paths in a configuration.
#[derive(Debug)]
pub struct QemuPaths {
    pub disk_exists: bool,
    pub iso_exists: bool,
    pub kernel_exists: bool,
    /// For each virtiofs share, whether its socket exists.
    pub sockets_exist: Vec<bool>,
}

impl QemuConfig {
    /// The initial configuration for a host.
    pub fn default(host: Option<&HostProfile>) -> (r: QemuConfig)
        ensures
            initial_on(r, host),
    {
        let (qemu_binary, machine_type, cpu_type) = match host {
            Some(p) => (p.qemu_binary, p.machine_type, p.cpu_type),
            None => ("qemu-system-x86_64", "q35,accel=kvm", "host"),
        };
        QemuConfig {
            qemu_binary: qemu_binary.to_owned(),
            bios_path: None,
            machine_type: machine_type.to_owned(),
            cpu_type: cpu_type.to_owned(),
            memory: "4G".to_owned(),
            cpus: 2,
            disk_image: None,
            kernel_path: None,
            append: None,
            disk_format: DiskFormat::Qcow2,
            cloud_init_iso: None,
            pid_file: None,
            qemu_name: None,
            ssh_port: None,
            virtiofs_shares: Vec::new(),
            virtio_9p_shares: Vec::new(),
            display: false,
            daemonize: true,
        }
    }

    /// The initial configuration for a host, to be built on.
    pub fn new(host: Option<&HostProfile>) -> (r: QemuConfig)
        ensures
            initial_on(r, host),
    {
        QemuConfig::default(host)
    }

    /// The initial configuration for a host, with its firmware.
    pub fn from_host_profile(profile: &HostProfile) -> (r: QemuConfig)
        ensures
            initial(
                QemuConfig { bios_path: None, ..r },
                profile.qemu_binary@,
                profile.machine_type@,
                profile.cpu_type@,
            ),
            text::opt_view(r.bios_path) == text::opt_str_view(profile.bios_path),
    {
        let bios = match profile.bios_path {
            Some(p) => Some(p.to_owned()),
            None => None,
        };
        QemuConfig::new(Some(profile)).qemu_binary(profile.qemu_binary).bios_path_opt(bios).machine_type(
            profile.machine_type,
        ).cpu_type(profile.cpu_type)
    }

    pub fn qemu_binary(self, qemu_binary: &str) -> (r: QemuConfig)
        ensures
            r.qemu_binary@ == qemu_binary@,
            r == (QemuConfig { qemu_binary: r.qemu_binary, ..self }),
    {
        let mut c = self;
        c.qemu_binary = qemu_binary.to_owned();
        c
    }

    pub fn bios_path_opt(self, bios_path: Option<String>) -> (r: QemuConfig)
        ensures
            r == (QemuConfig { bios_path, ..self }),
    {
        let mut c = self;
        c.bios_path = bios_path;
        c
    }

    pub fn machine_type(self, machine: &str) -> (r: QemuConfig)
        ensures
            r.machine_type@ == machine@,
            r == (QemuConfig { machine_type: r.machine_type, ..self }),
    {
        let mut c = self;
        c.machine_type = machine.to_owned();
        c
    }

    pub fn cpu_type(self, cpu: &str) -> (r: QemuConfig)
        ensures
            r.cpu_type@ == cpu@,
            r == (QemuConfig { cpu_type: r.cpu_type, ..self }),
    {
        let mut c = self;
        c.cpu_type = cpu.to_owned();
        c
    }

    pub fn memory(self, memory: &str) -> (r: QemuConfig)
        ensures
            r.memory@ == memory@,
            r == (QemuConfig { memory: r.memory, ..self }),
    {
        let mut c = self;
        c.memory = memory.to_owned();
        c
    }

    pub fn cpus(self, cpus: u32) -> (r: QemuConfig)
        ensures
            r == (QemuConfig { cpus, ..self }),
    {
        let mut c = self;
        c.cpus = cpus;
        c
    }

    pub fn disk_format(self, disk_format: DiskFormat) -> (r: QemuConfig)
        ensures
            r == (QemuConfig { disk_format, ..self }),
    {
        let mut c = self;
        c.disk_format = disk_format;
        c
    }

    pub fn disk_image(self, path: &str) -> (r: QemuConfig)
        ensures
            text::opt_view(r.disk_image) == Some(path@),
            r == (QemuConfig { disk_image: r.disk_image, ..self }),
    {
        let mut c = self;
        c.disk_image = Some(path.to_owned());
        c
    }

    pub fn kernel_path(self, path: &str) -> (r: QemuConfig)
        ensures
            text::opt_view(r.kernel_path) == Some(path@),
            r == (QemuConfig { kernel_path: r.kernel_path, ..self }),
    {
        let mut c = self;
        c.kernel_path = Some(path.to_owned());
        c
    }

    /// Sets the kernel's command line.
    pub fn append(self, append: &str) -> (r: QemuConfig)
        ensures
            text::opt_view(r.append) == Some(append@),
            r == (QemuConfig { append: r.append, ..self }),
    {
        let mut c = self;
        c.append = Some(append.to_owned());
        c
    }

    pub fn cloud_init_iso(self, path: &str) -> (r: QemuConfig)
        ensures
            text::opt_view(r.cloud_init_iso) == Some(path@),
            r == (QemuConfig { cloud_init_iso: r.cloud_init_iso, ..self }),
    {
        let mut c = self;
        c.cloud_init_iso = Some(path.to_owned());
        c
    }

    pub fn pid_file(self, path: &str) -> (r: QemuConfig)
        ensures
            text::opt_view(r.pid_file) == Some(path@),
            r == (QemuConfig { pid_file: r.pid_file, ..self }),
    {
        let mut c = self;
        c.pid_file = Some(path.to_owned());
        c
    }

    pub fn name(self, name: &str) -> (r: QemuConfig)
        ensures
            text::opt_view(r.qemu_name) == Some(name@),
            r == (QemuConfig { qemu_name: r.qemu_name, ..self }),
    {
        let mut c = self;
        c.qemu_name = Some(name.to_owned());
        c
    }

    /// Forwards a port of the host to the machine's SSH port.
    pub fn ssh_port(self, port: u16) -> (r: QemuConfig)
        ensures
            r == (QemuConfig { ssh_port: Some(port), ..self }),
    {
        let mut c = self;
        c.ssh_port = Some(port);
        c
    }

    /// Adds a host directory that a virtiofs daemon serves at a socket.
    pub fn virtiofs_share(self, tag: &str, socket_path: &str) -> (r: QemuConfig)
        ensures
            r.virtiofs_shares@.drop_last() == self.virtiofs_shares@,
            r.virtiofs_shares@.len() == self.virtiofs_shares@.len() + 1,
            r.virtiofs_shares@.last().tag@ == tag@,
            r.virtiofs_shares@.last().socket_path@ == socket_path@,
            r == (QemuConfig { virtiofs_shares: r.virtiofs_shares, ..self }),
    {
        let mut c = self;
        c.virtiofs_shares.push(
            VirtioFsShare { tag: tag.to_owned(), socket_path: socket_path.to_owned() },
        );
        assert(c.virtiofs_shares@.drop_last() =~= self.virtiofs_shares@);
        c
    }

    /// Adds a host directory that QEMU itself serves.
    pub fn virtio_9p_share(self, tag: &str, host_path: &str) -> (r: QemuConfig)
        ensures
            r.virtio_9p_shares@.drop_last() == self.virtio_9p_shares@,
            r.virtio_9p_shares@.len() == self.virtio_9p_shares@.len() + 1,
            r.virtio_9p_shares@.last().tag@ == tag@,
            r.virtio_9p_shares@.last().host_path@ == host_path@,
            r == (QemuConfig { virtio_9p_shares: r.virtio_9p_shares, ..self }),
    {
        let mut c = self;
        c.virtio_9p_shares.push(
            Virtio9pShare { tag: tag.to_owned(), host_path: host_path.to_owned() },
        );
        assert(c.virtio_9p_shares@.drop_last() =~= self.virtio_9p_shares@);
        c
    }

    pub fn pid_file_path(&self) -> (r: Option<&str>)
        ensures
            text::opt_str_view(r) == text::opt_view(self.pid_file),
    {
        text::borrowed(&self.pid_file)
    }

    pub fn display(self, enable: bool) -> (r: QemuConfig)
        ensures
            r == (QemuConfig { display: enable, ..self }),
    {
        let mut c = self;
        c.display = enable;
        c
    }

    pub fn daemonize(self, enable: bool) -> (r: QemuConfig)
        ensures
            r == (QemuConfig { daemonize: enable, ..self }),
    {
        let mut c = self;
        c.daemonize = enable;
        c
    }
}

/// How QEMU is told of the machine's disk.
pub open spec fn disk_drive(disk: Option<String>, format: DiskFormat) -> Option<Seq<char>> {
    match disk {
        Some(d) => Some("file="@ + d@ + ",format="@ + format.name() + ",if=virtio"@),
        None => None,
    }
}

/// How QEMU is told of the seed image.
pub open spec fn seed_drive(iso: Option<String>) -> Option<Seq<char>> {
    match iso {
        Some(i) => Some("file="@ + i@ + ",format=raw,if=virtio,media=cdrom"@),
        None => None,
    }
}

/// How QEMU is told of the forwarded port.
pub open spec fn network_args(port: Option<u16>) -> Seq<Seq<char>> {
    match port {
        Some(p) => seq![
            "-netdev"@,
            "user,id=net0,hostfwd=tcp::"@ + text::decimal(p as nat) + "-:22"@,
            "-device"@,
            "virtio-net-pci,netdev=net0"@,
        ],
        None => seq![],
    }
}

/// How QEMU is told of the share at position `index`.
pub open spec fn share_args(share: VirtioFsShare, index: nat) -> Seq<Seq<char>> {
    let chardev = "virtiofsch"@ + text::decimal(index);
    seq![
        "-chardev"@,
        "socket,id="@ + chardev + ",path="@ + share.socket_path@,
        "-device"@,
        "vhost-user-fs-pci,chardev="@ + chardev + ",tag="@ + share.tag@,
    ]
}

/// How QEMU is told of the shares, in their order.
pub open spec fn shares_args(shares: Seq<VirtioFsShare>) -> Seq<Seq<char>>
    decreases shares.len(),
{
    if shares.len() == 0 {
        seq![]
    } else {
        shares_args(shares.drop_last()) + share_args(shares.last(), (shares.len() - 1) as nat)
    }
}

/// How QEMU is told of a directory that it serves itself.
pub open spec fn served_dir(share: Virtio9pShare) -> Seq<char> {
    "local,path="@ + share.host_path@ + ",mount_tag="@ + share.tag@ + ",security_model=none"@
}

/// How QEMU is told of the directories that it serves itself, in their order.
pub open spec fn served_args(shares: Seq<Virtio9pShare>) -> Seq<Seq<char>>
    decreases shares.len(),
{
    if shares.len() == 0 {
        seq![]
    } else {
        served_args(shares.drop_last()) + seq!["-virtfs"@, served_dir(shares.last())]
    }
}

/// How QEMU is told whether to show a window.
pub open spec fn display_args(display: bool) -> Seq<Seq<char>> {
    if display {
        seq!["-display"@, "gtk"@]
    } else {
        seq!["-display"@, "none"@]
    }
}

/// How QEMU is told where serial output goes, and whether to run in the background. In the
/// background the serial device is kept and its output discarded, for guests with a serial
/// console.
pub open spec fn background_args(daemonize: bool) -> Seq<Seq<char>> {
    if daemonize {
        seq!["-serial"@, "null"@, "-daemonize"@]
    } else {
        seq!["-serial"@, "stdio"@]
    }
}

/// The arguments that QEMU is started with.
pub open spec fn qemu_args(c: QemuConfig) -> Seq<Seq<char>> {
    text::flag_pair("-bios"@, text::opt_view(c.bios_path))
        + seq!["-machine"@, c.machine_type@]
        + seq!["-cpu"@, c.cpu_type@]
        + seq!["-m"@, c.memory@]
        + seq!["-smp"@, text::decimal(c.cpus as nat)]
        + text::flag_pair("-drive"@, disk_drive(c.disk_image, c.disk_format))
        + text::flag_pair("-kernel"@, text::opt_view(c.kernel_path))
        + text::flag_pair("-append"@, text::opt_view(c.append))
        + text::flag_pair("-drive"@, seed_drive(c.cloud_init_iso))
        + text::flag_pair("-pidfile"@, text::opt_view(c.pid_file))
        + text::flag_pair("-name"@, text::opt_view(c.qemu_name))
        + network_args(c.ssh_port)
        + shares_args(c.virtiofs_shares@)
        + served_args(c.virtio_9p_shares@)
        + display_args(c.display)
        + background_args(c.daemonize)
}

fn push_disk(out: &mut Vec<String>, disk: &Option<String>, format: DiskFormat)
    ensures
        text::views(final(out)@) == text::views(old(out)@) + text::flag_pair(
            "-drive"@,
            disk_drive(*disk, format),
        ),
{
    match disk {
        Some(d) => {
            let drive = text::cat5("file=", d.as_str(), ",format=", format.as_str(), ",if=virtio");
            text::push_pair(out, "-drive", drive.as_str());
        },
        None => {
            text::push_flag(out, "-drive", None);
        },
    }
}

fn push_seed(out: &mut Vec<String>, iso: &Option<String>)
    ensures
        text::views(final(out)@) == text::views(old(out)@) + text::flag_pair(
            "-drive"@,
            seed_drive(*iso),
        ),
{
    match iso {
        Some(i) => {
            let drive = text::cat3("file=", i.as_str(), ",format=raw,if=virtio,media=cdrom");
            text::push_pair(out, "-drive", drive.as_str());
        },
        None => {
            text::push_flag(out, "-drive", None);
        },
    }
}

fn push_network(out: &mut Vec<String>, port: Option<u16>)
    ensures
        text::views(final(out)@) == text::views(old(out)@) + network_args(port),
{
    match port {
        Some(p) => {
            let n = text::number(p as u64);
            let netdev = text::cat3("user,id=net0,hostfwd=tcp::", n.as_str(), "-:22");
            text::push_pair(out, "-netdev", netdev.as_str());
            text::push_pair(out, "-device", "virtio-net-pci,netdev=net0");
            assert(text::views(out@) =~= text::views(old(out)@) + network_args(port));
        },
        None => {
            assert(text::views(out@) =~= text::views(old(out)@) + network_args(port));
        },
    }
}

fn push_shares(out: &mut Vec<String>, shares: &Vec<VirtioFsShare>)
    ensures
        text::views(final(out)@) == text::views(old(out)@) + shares_args(shares@),
{
    let ghost start = text::views(out@);
    let mut i: usize = 0;
    assert(text::views(out@) =~= start + shares_args(shares@.take(0)));
    while i < shares.len()
        invariant
            i <= shares.len(),
            text::views(out@) == start + shares_args(shares@.take(i as int)),
        decreases shares.len() - i,
    {
        let ghost before = text::views(out@);
        let share = &shares[i];
        let n = text::number(i as u64);
        let chardev = text::cat2("virtiofsch", n.as_str());
        let socket = text::cat4(
            "socket,id=",
            chardev.as_str(),
            ",path=",
            share.socket_path.as_str(),
        );
        text::push_pair(out, "-chardev", socket.as_str());
        let device = text::cat4(
            "vhost-user-fs-pci,chardev=",
            chardev.as_str(),
            ",tag=",
            share.tag.as_str(),
        );
        text::push_pair(out, "-device", device.as_str());
        proof {
            assert(shares@.take(i + 1).drop_last() =~= shares@.take(i as int));
            assert(shares@.take(i + 1).last() == *share);
            assert(text::views(out@) =~= before + share_args(*share, i as nat));
            assert(start + (shares_args(shares@.take(i as int)) + share_args(*share, i as nat))
                =~= before + share_args(*share, i as nat));
        }
        i = i + 1;
    }
    assert(shares@.take(i as int) =~= shares@);
}

fn push_served(out: &mut Vec<String>, shares: &Vec<Virtio9pShare>)
    ensures
        text::views(final(out)@) == text::views(old(out)@) + served_args(shares@),
{
    let ghost start = text::views(out@);
    let mut i: usize = 0;
    assert(text::views(out@) =~= start + served_args(shares@.take(0)));
    while i < shares.len()
        invariant
            i <= shares.len(),
            text::views(out@) == start + served_args(shares@.take(i as int)),
        decreases shares.len() - i,
    {
        let ghost before = text::views(out@);
        let share = &shares[i];
        let dir = text::cat5(
            "local,path=",
            share.host_path.as_str(),
            ",mount_tag=",
            share.tag.as_str(),
            ",security_model=none",
        );
        text::push_pair(out, "-virtfs", dir.as_str());
        proof {
            assert(shares@.take(i + 1).drop_last() =~= shares@.take(i as int));
            assert(shares@.take(i + 1).last() == *share);
            assert(start + (served_args(shares@.take(i as int)) + seq![
                "-virtfs"@,
                served_dir(*share),
            ]) =~= before + seq!["-virtfs"@, served_dir(*share)]);
        }
        i = i + 1;
    }
    assert(shares@.take(i as int) =~= shares@);
}

impl QemuConfig {
    /// The command that starts the machine.
    pub fn build_command(&self) -> (r: CommandLine)
        ensures
            r.program@ == self.qemu_binary@,
            text::views(r.args@) == qemu_args(*self),
    {
        let mut out: Vec<String> = Vec::new();
        text::push_flag(&mut out, "-bios", text::borrowed(&self.bios_path));
        assert(text::views(out@) =~= text::flag_pair("-bios"@, text::opt_view(self.bios_path)));
        text::push_pair(&mut out, "-machine", self.machine_type.as_str());
        text::push_pair(&mut out, "-cpu", self.cpu_type.as_str());
        text::push_pair(&mut out, "-m", self.memory.as_str());
        let cpus = text::number(self.cpus as u64);
        text::push_pair(&mut out, "-smp", cpus.as_str());
        push_disk(&mut out, &self.disk_image, self.disk_format);
        text::push_flag(&mut out, "-kernel", text::borrowed(&self.kernel_path));
        text::push_flag(&mut out, "-append", text::borrowed(&self.append));
        push_seed(&mut out, &self.cloud_init_iso);
        text::push_flag(&mut out, "-pidfile", text::borrowed(&self.pid_file));
        text::push_flag(&mut out, "-name", text::borrowed(&self.qemu_name));
        push_network(&mut out, self.ssh_port);
        push_shares(&mut out, &self.virtiofs_shares);
        push_served(&mut out, &self.virtio_9p_shares);
        if self.display {
            text::push_pair(&mut out, "-display", "gtk");
        } else {
            text::push_pair(&mut out, "-display", "none");
        }
        let ghost before = text::views(out@);
        if self.daemonize {
            text::push_pair(&mut out, "-serial", "null");
            text::push_word(&mut out, "-daemonize");
        } else {
            text::push_pair(&mut out, "-serial", "stdio");
        }
        assert(text::views(out@) =~= before + background_args(self.daemonize));
        CommandLine { program: self.qemu_binary.clone(), args: out }
    }

    /// The program and the arguments that start the machine, in one list.
    pub fn build_args(&self) -> (r: Vec<String>)
        ensures
            text::views(r@) == seq![self.qemu_binary@] + qemu_args(*self),
    {
        let command = self.build_command();
        let mut out: Vec<String> = Vec::new();
        let mut args = command.args;
        out.push(command.program);
        let ghost first = out@;
        let ghost rest = args@;
        out.append(&mut args);
        proof {
            assert(out@ =~= first + rest);
            assert(text::views(out@) =~= seq![self.qemu_binary@] + text::views(rest));
        }
        out
    }
}

/// Whether the socket of the share at position `i` exists, as far as anyone looked.
pub open spec fn socket_exists(seen: QemuPaths, i: int) -> bool {
    0 <= i < seen.sockets_exist@.len() && seen.sockets_exist@[i]
}

/// Why the share at position `i` is refused.
pub open spec fn share_fault(share: VirtioFsShare, seen: QemuPaths, i: int) -> Option<Seq<char>> {
    if text::trimmed(share.tag@).len() == 0 {
        Some("virtiofs tag must not be empty"@)
    } else if !path::absolute(share.socket_path@) {
        Some("virtiofs socket path must be absolute: "@ + share.socket_path@)
    } else if !socket_exists(seen, i) {
        Some("virtiofs socket does not exist: "@ + share.socket_path@)
    } else {
        None
    }
}

/// The fault of the first share that is refused.
pub open spec fn shares_fault(shares: Seq<VirtioFsShare>, seen: QemuPaths) -> Option<Seq<char>>
    decreases shares.len(),
{
    if shares.len() == 0 {
        None
    } else {
        match shares_fault(shares.drop_last(), seen) {
            Some(message) => Some(message),
            None => share_fault(shares.last(), seen, shares.len() - 1),
        }
    }
}

/// Why a machine cannot be started with a configuration.
pub open spec fn config_fault(c: QemuConfig, seen: QemuPaths) -> Option<Seq<char>> {
    if c.disk_image is None {
        Some("Disk image is required"@)
    } else if c.cloud_init_iso is None {
        Some("Cloud-init ISO is required"@)
    } else if !seen.disk_exists {
        Some("Disk image does not exist: "@ + c.disk_image->0@)
    } else if !seen.iso_exists {
        Some("Cloud-init ISO does not exist: "@ + c.cloud_init_iso->0@)
    } else if c.kernel_path is Some && !seen.kernel_exists {
        Some("Kernel image does not exist: "@ + c.kernel_path->0@)
    } else {
        shares_fault(c.virtiofs_shares@, seen)
    }
}

proof fn lemma_shares_fault_stays(shares: Seq<VirtioFsShare>, seen: QemuPaths, n: int)
    requires
        0 <= n <= shares.len(),
        shares_fault(shares.take(n), seen) is Some,
    ensures
        shares_fault(shares, seen) == shares_fault(shares.take(n), seen),
    decreases shares.len(),
{
    if n < shares.len() {
        assert(shares.drop_last().take(n) =~= shares.take(n));
        lemma_shares_fault_stays(shares.drop_last(), seen, n);
    } else {
        assert(shares.take(n) =~= shares);
    }
}

fn check_shares(shares: &Vec<VirtioFsShare>, seen: &QemuPaths) -> (r: Result<(), String>)
    ensures
        match r {
            Ok(_) => shares_fault(shares@, *seen) is None,
            Err(message) => shares_fault(shares@, *seen) == Some(message@),
        },
{
    let mut i: usize = 0;
    while i < shares.len()
        invariant
            i <= shares.len(),
            shares_fault(shares@.take(i as int), *seen) is None,
        decreases shares.len() - i,
    {
        let share = &shares[i];
        proof {
            assert(shares@.take(i + 1).drop_last() =~= shares@.take(i as int));
            assert(shares@.take(i + 1).last() == *share);
            if shares_fault(shares@.take(i + 1), *seen) is Some {
                lemma_shares_fault_stays(shares@, *seen, i + 1);
            }
        }
        if text::is_blank(share.tag.as_str()) {
            return Err("virtiofs tag must not be empty".to_owned());
        }
        if !path::is_absolute(share.socket_path.as_str()) {
            return Err(
                text::cat2("virtiofs socket path must be absolute: ", share.socket_path.as_str()),
            );
        }
        if !(i < seen.sockets_exist.len() && seen.sockets_exist[i]) {
            return Err(
                text::cat2("virtiofs socket does not exist: ", share.socket_path.as_str()),
            );
        }
        i = i + 1;
    }
    assert(shares@.take(i as int) =~= shares@);
    Ok(())
}

impl QemuConfig {
    /// Checks that a machine can be started with the configuration.
    pub fn validate(&self, seen: &QemuPaths) -> (r: Result<(), String>)
        ensures
            match r {
                Ok(_) => config_fault(*self, *seen) is None,
                Err(message) => config_fault(*self, *seen) == Some(message@),
            },
    {
        let disk = match &self.disk_image {
            Some(disk) => disk,
            None => return Err("Disk image is required".to_owned()),
        };
        let iso = match &self.cloud_init_iso {
            Some(iso) => iso,
            None => return Err("Cloud-init ISO is required".to_owned()),
        };
        if !seen.disk_exists {
            return Err(text::cat2("Disk image does not exist: ", disk.as_str()));
        }
        if !seen.iso_exists {
            return Err(text::cat2("Cloud-init ISO does not exist: ", iso.as_str()));
        }
        if let Some(kernel) = &self.kernel_path {
            if !seen.kernel_exists {
                return Err(text::cat2("Kernel image does not exist: ", kernel.as_str()));
            }
        }
        check_shares(&self.virtiofs_shares, seen)
    }
}

/// How long the arguments are for each part of a configuration that may be missing.
pub open spec fn pair_len(given: bool) -> int {
    if given {
        2
    } else {
        0
    }
}

proof fn lemma_share_is_given(shares: Seq<VirtioFsShare>, i: int)
    requires
        0 <= i < shares.len(),
    ensures
        ({
            let args = shares_args(shares);
            let id = "virtiofsch"@ + text::decimal(i as nat);
            &&& text::gives(args, "-chardev"@, "socket,id="@ + id + ",path="@ + shares[i].socket_path@)
            &&& text::gives(
                args,
                "-device"@,
                "vhost-user-fs-pci,chardev="@ + id + ",tag="@ + shares[i].tag@,
            )
        }),
    decreases shares.len(),
{
    let before = shares_args(shares.drop_last());
    let last = share_args(shares.last(), (shares.len() - 1) as nat);
    text::lemma_gives_join(before, last);
    if i == shares.len() - 1 {
        text::lemma_gives(last, 0);
        text::lemma_gives(last, 2);
    } else {
        lemma_share_is_given(shares.drop_last(), i);
    }
}

proof fn lemma_shares_args_len(shares: Seq<VirtioFsShare>)
    ensures
        shares_args(shares).len() == 4 * shares.len(),
    decreases shares.len(),
{
    if shares.len() > 0 {
        lemma_shares_args_len(shares.drop_last());
    }
}

proof fn lemma_served_is_given(shares: Seq<Virtio9pShare>, i: int)
    requires
        0 <= i < shares.len(),
    ensures
        text::gives(
            served_args(shares),
            "-virtfs"@,
            "local,path="@ + shares[i].host_path@ + ",mount_tag="@ + shares[i].tag@
                + ",security_model=none"@,
        ),
    decreases shares.len(),
{
    let before = served_args(shares.drop_last());
    let last = seq!["-virtfs"@, served_dir(shares.last())];
    text::lemma_gives_join(before, last);
    if i == shares.len() - 1 {
        text::lemma_gives(last, 0);
    } else {
        lemma_served_is_given(shares.drop_last(), i);
    }
}

proof fn lemma_served_args_len(shares: Seq<Virtio9pShare>)
    ensures
        served_args(shares).len() == 2 * shares.len(),
    decreases shares.len(),
{
    if shares.len() > 0 {
        lemma_served_args_len(shares.drop_last());
    }
}

/// QEMU is told everything that a configuration says: the machine gets its memory, its processors,
/// its disk, its seed image and its kernel, the port of the host that leads to the machine's SSH
/// server is the configured one, and every share is reached at its own path under its own tag.
#[verifier::rlimit(80)]
#[verifier::spinoff_prover]
pub proof fn law_command_line_says_what_is_configured(c: QemuConfig)
    ensures
        ({
            let args = qemu_args(c);
            let format = match c.disk_format {
                DiskFormat::Qcow2 => "qcow2"@,
                DiskFormat::Raw => "raw"@,
            };
            &&& text::gives(args, "-machine"@, c.machine_type@)
            &&& text::gives(args, "-cpu"@, c.cpu_type@)
            &&& text::gives(args, "-m"@, c.memory@)
            &&& text::gives(args, "-smp"@, text::decimal(c.cpus as nat))
            &&& (c.bios_path matches Some(bios) ==> text::gives(args, "-bios"@, bios@))
            &&& (c.disk_image matches Some(disk) ==> text::gives(
                args,
                "-drive"@,
                "file="@ + disk@ + ",format="@ + format + ",if=virtio"@,
            ))
            &&& (c.cloud_init_iso matches Some(iso) ==> text::gives(
                args,
                "-drive"@,
                "file="@ + iso@ + ",format=raw,if=virtio,media=cdrom"@,
            ))
            &&& (c.kernel_path matches Some(kernel) ==> text::gives(args, "-kernel"@, kernel@))
            &&& (c.append matches Some(line) ==> text::gives(args, "-append"@, line@))
            &&& (c.pid_file matches Some(pid_file) ==> text::gives(args, "-pidfile"@, pid_file@))
            &&& (c.qemu_name matches Some(name) ==> text::gives(args, "-name"@, name@))
            &&& (c.ssh_port matches Some(port) ==> {
                &&& text::gives(
                    args,
                    "-netdev"@,
                    "user,id=net0,hostfwd=tcp::"@ + text::decimal(port as nat) + "-:22"@,
                )
                &&& text::gives(args, "-device"@, "virtio-net-pci,netdev=net0"@)
            })
            &&& text::gives(
                args,
                "-display"@,
                if c.display {
                    "gtk"@
                } else {
                    "none"@
                },
            )
            &&& text::gives(
                args,
                "-serial"@,
                if c.daemonize {
                    "null"@
                } else {
                    "stdio"@
                },
            )
        }),
        forall|i: int|
            0 <= i < c.virtiofs_shares@.len() ==> {
                let share = #[trigger] c.virtiofs_shares@[i];
                let id = "virtiofsch"@ + text::decimal(i as nat);
                &&& text::gives(
                    qemu_args(c),
                    "-chardev"@,
                    "socket,id="@ + id + ",path="@ + share.socket_path@,
                )
                &&& text::gives(
                    qemu_args(c),
                    "-device"@,
                    "vhost-user-fs-pci,chardev="@ + id + ",tag="@ + share.tag@,
                )
            },
        forall|i: int|
            0 <= i < c.virtio_9p_shares@.len() ==> text::gives(
                qemu_args(c),
                "-virtfs"@,
                "local,path="@ + (#[trigger] c.virtio_9p_shares@[i]).host_path@ + ",mount_tag="@
                    + c.virtio_9p_shares@[i].tag@ + ",security_model=none"@,
            ),
{
    let s0 = text::flag_pair("-bios"@, text::opt_view(c.bios_path));
    let s1 = seq!["-machine"@, c.machine_type@];
    let s2 = seq!["-cpu"@, c.cpu_type@];
    let s3 = seq!["-m"@, c.memory@];
    let s4 = seq!["-smp"@, text::decimal(c.cpus as nat)];
    let s5 = text::flag_pair("-drive"@, disk_drive(c.disk_image, c.disk_format));
    let s6 = text::flag_pair("-kernel"@, text::opt_view(c.kernel_path));
    let s7 = text::flag_pair("-append"@, text::opt_view(c.append));
    let s8 = text::flag_pair("-drive"@, seed_drive(c.cloud_init_iso));
    let s9 = text::flag_pair("-pidfile"@, text::opt_view(c.pid_file));
    let s10 = text::flag_pair("-name"@, text::opt_view(c.qemu_name));
    let s11 = network_args(c.ssh_port);
    let s12 = shares_args(c.virtiofs_shares@);
    let s13 = served_args(c.virtio_9p_shares@);
    let s14 = display_args(c.display);
    let s15 = background_args(c.daemonize);
    let p1 = s0 + s1;
    let p2 = p1 + s2;
    let p3 = p2 + s3;
    let p4 = p3 + s4;
    let p5 = p4 + s5;
    let p6 = p5 + s6;
    let p7 = p6 + s7;
    let p8 = p7 + s8;
    let p9 = p8 + s9;
    let p10 = p9 + s10;
    let p11 = p10 + s11;
    let p12 = p11 + s12;
    let p13 = p12 + s13;
    let p14 = p13 + s14;
    text::lemma_flag_pair_gives("-bios"@, text::opt_view(c.bios_path));
    text::lemma_gives(s1, 0);
    text::lemma_gives(s2, 0);
    text::lemma_gives(s3, 0);
    text::lemma_gives(s4, 0);
    text::lemma_flag_pair_gives("-drive"@, disk_drive(c.disk_image, c.disk_format));
    text::lemma_flag_pair_gives("-kernel"@, text::opt_view(c.kernel_path));
    text::lemma_flag_pair_gives("-append"@, text::opt_view(c.append));
    text::lemma_flag_pair_gives("-drive"@, seed_drive(c.cloud_init_iso));
    text::lemma_flag_pair_gives("-pidfile"@, text::opt_view(c.pid_file));
    text::lemma_flag_pair_gives("-name"@, text::opt_view(c.qemu_name));
    if c.ssh_port is Some {
        text::lemma_gives(s11, 0);
        text::lemma_gives(s11, 2);
    }
    assert forall|i: int| 0 <= i < c.virtiofs_shares@.len() implies {
        let share = #[trigger] c.virtiofs_shares@[i];
        let id = "virtiofsch"@ + text::decimal(i as nat);
        &&& text::gives(s12, "-chardev"@, "socket,id="@ + id + ",path="@ + share.socket_path@)
        &&& text::gives(
            s12,
            "-device"@,
            "vhost-user-fs-pci,chardev="@ + id + ",tag="@ + share.tag@,
        )
    } by {
        lemma_share_is_given(c.virtiofs_shares@, i);
    }
    assert forall|i: int| 0 <= i < c.virtio_9p_shares@.len() implies text::gives(
        s13,
        "-virtfs"@,
        "local,path="@ + (#[trigger] c.virtio_9p_shares@[i]).host_path@ + ",mount_tag="@
            + c.virtio_9p_shares@[i].tag@ + ",security_model=none"@,
    ) by {
        lemma_served_is_given(c.virtio_9p_shares@, i);
    }
    text::lemma_gives(s14, 0);
    text::lemma_gives(s15, 0);
    text::lemma_gives_join(s0, s1);
    text::lemma_gives_join(p1, s2);
    text::lemma_gives_join(p2, s3);
    text::lemma_gives_join(p3, s4);
    text::lemma_gives_join(p4, s5);
    text::lemma_gives_join(p5, s6);
    text::lemma_gives_join(p6, s7);
    text::lemma_gives_join(p7, s8);
    text::lemma_gives_join(p8, s9);
    text::lemma_gives_join(p9, s10);
    text::lemma_gives_join(p10, s11);
    text::lemma_gives_join(p11, s12);
    text::lemma_gives_join(p12, s13);
    text::lemma_gives_join(p13, s14);
    text::lemma_gives_join(p14, s15);
    assert(qemu_args(c) == p14 + s15);
}

/// Whether the share at position `i` can be used.
pub open spec fn usable_share(share: VirtioFsShare, seen: QemuPaths, i: int) -> bool {
    &&& text::trimmed(share.tag@).len() > 0
    &&& share.socket_path@.len() > 0 && share.socket_path@[0] == '/'
    &&& i < seen.sockets_exist@.len() && seen.sockets_exist@[i]
}

proof fn lemma_shares_are_usable(shares: Seq<VirtioFsShare>, seen: QemuPaths)
    ensures
        shares_fault(shares, seen) is None <==> forall|i: int|
            0 <= i < shares.len() ==> usable_share(#[trigger] shares[i], seen, i),
    decreases shares.len(),
{
    if shares.len() > 0 {
        let before = shares.drop_last();
        let last = shares.last();
        let n = shares.len() - 1;
        lemma_shares_are_usable(before, seen);
        assert(share_fault(last, seen, n) is None <==> usable_share(last, seen, n));
        assert(shares[n] == last);
        assert(forall|i: int| 0 <= i < n ==> before[i] == #[trigger] shares[i]);
        if shares_fault(before, seen) is None && usable_share(last, seen, n) {
            assert forall|i: int| 0 <= i < shares.len() implies usable_share(
                #[trigger] shares[i],
                seen,
                i,
            ) by {
                if i < n {
                    assert(usable_share(before[i], seen, i));
                }
            }
        }
        if forall|i: int| 0 <= i < shares.len() ==> usable_share(#[trigger] shares[i], seen, i) {
            assert forall|i: int| 0 <= i < before.len() implies usable_share(
                #[trigger] before[i],
                seen,
                i,
            ) by {
                assert(usable_share(shares[i], seen, i));
            }
        }
    }
}

/// A configuration can be started exactly if its disk and its seed image are set and there, its
/// kernel is there where one is set, and every share has a tag and a socket that is there.
pub proof fn law_configuration_is_complete(c: QemuConfig, seen: QemuPaths)
    ensures
        config_fault(c, seen) is None <==> {
            &&& c.disk_image is Some && seen.disk_exists
            &&& c.cloud_init_iso is Some && seen.iso_exists
            &&& c.kernel_path is Some ==> seen.kernel_exists
            &&& forall|i: int|
                0 <= i < c.virtiofs_shares@.len() ==> usable_share(
                    #[trigger] c.virtiofs_shares@[i],
                    seen,
                    i,
                )
        },
{
    lemma_shares_are_usable(c.virtiofs_shares@, seen);
}

/// The message for a file that is not there says which file it is and where it was looked for.
pub proof fn law_missing_file_is_named(c: QemuConfig, seen: QemuPaths)
    requires
        c.disk_image is Some,
        c.cloud_init_iso is Some,
    ensures
        !seen.disk_exists ==> config_fault(c, seen) == Some(
            "Disk image does not exist: "@ + c.disk_image->0@,
        ),
        seen.disk_exists && !seen.iso_exists ==> config_fault(c, seen) == Some(
            "Cloud-init ISO does not exist: "@ + c.cloud_init_iso->0@,
        ),
        seen.disk_exists && seen.iso_exists && c.kernel_path is Some && !seen.kernel_exists
            ==> config_fault(c, seen) == Some(
            "Kernel image does not exist: "@ + c.kernel_path->0@,
        ),
{
}

/// QEMU is told nothing that a configuration does not say: what is missing in the configuration
/// adds no argument. A machine that runs in the background is told so last.
#[verifier::spinoff_prover]
pub proof fn law_command_line_says_nothing_else(c: QemuConfig)
    ensures
        ({
            let args = qemu_args(c);
            &&& c.daemonize ==> args.last() == "-daemonize"@
            &&& args.len() == 12 + pair_len(c.bios_path is Some) + pair_len(c.disk_image is Some)
                + pair_len(c.cloud_init_iso is Some) + pair_len(c.kernel_path is Some) + pair_len(
                c.append is Some,
            ) + pair_len(c.pid_file is Some) + pair_len(c.qemu_name is Some) + 2 * pair_len(
                c.ssh_port is Some,
            ) + 4 * c.virtiofs_shares@.len() + 2 * c.virtio_9p_shares@.len() + (if c.daemonize {
                1int
            } else {
                0int
            })
        }),
{
    let s0 = text::flag_pair("-bios"@, text::opt_view(c.bios_path));
    let s5 = text::flag_pair("-drive"@, disk_drive(c.disk_image, c.disk_format));
    let s6 = text::flag_pair("-kernel"@, text::opt_view(c.kernel_path));
    let s7 = text::flag_pair("-append"@, text::opt_view(c.append));
    let s8 = text::flag_pair("-drive"@, seed_drive(c.cloud_init_iso));
    let s9 = text::flag_pair("-pidfile"@, text::opt_view(c.pid_file));
    let s10 = text::flag_pair("-name"@, text::opt_view(c.qemu_name));
    assert(s0.len() == pair_len(c.bios_path is Some));
    assert(s5.len() == pair_len(c.disk_image is Some));
    assert(s6.len() == pair_len(c.kernel_path is Some));
    assert(s7.len() == pair_len(c.append is Some));
    assert(s8.len() == pair_len(c.cloud_init_iso is Some));
    assert(s9.len() == pair_len(c.pid_file is Some));
    assert(s10.len() == pair_len(c.qemu_name is Some));
    assert(network_args(c.ssh_port).len() == 2 * pair_len(c.ssh_port is Some));
    lemma_shares_args_len(c.virtiofs_shares@);
    lemma_served_args_len(c.virtio_9p_shares@);
    assert(display_args(c.display).len() == 2);
    let last = background_args(c.daemonize);
    let args = qemu_args(c);
    assert(args.last() == last.last());
}

} // verus!
