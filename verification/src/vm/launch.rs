//! The start of a machine, from the options of its user to a record of a machine that answers.
//!
//! Each stage takes what the host said and gives what to ask of the host next. What a failure
//! leaves to be undone comes with it.

use vstd::prelude::*;

use crate::path;
use crate::shell;
use crate::text;
use crate::vm::cloud_init::seed;
use crate::vm::cloud_init::seed::CloudInitSeed;
use crate::vm::config::Config;
use crate::vm::image::downloader;
use crate::vm::mount::{MountMode, MountSpec};
use crate::vm::platform::HostProfile;
use crate::vm::port;
use crate::vm::qemu::config;
use crate::vm::qemu::config::{DiskFormat, QemuConfig};
use crate::vm::record;
use crate::vm::record::{VmRecord, VmStatus};
use crate::vm::ssh::client;

verus! {

/// What a user asks of a new machine.
#[derive(Debug)]
pub struct RunOptions {
    pub username: Option<String>,
    pub memory: Option<String>,
    pub cpus: Option<u32>,
    pub disk_size: Option<String>,
    pub force_download: bool,
    pub image_url: Option<String>,
    pub kernel: Option<String>,
    pub rootfs: Option<String>,
    pub mounts: Vec<MountSpec>,
    pub verbose: bool,
    /// Whether to show the progress of the start on the terminal.
    pub show_progress: bool,
}

impl Default for RunOptions {
    fn default() -> (r: Self)
        ensures
            r.username is None,
            r.memory is None,
            r.cpus is None,
            r.disk_size is None,
            !r.force_download,
            r.image_url is None,
            r.kernel is None,
            r.rootfs is None,
            r.mounts@.len() == 0,
            !r.verbose,
            r.show_progress,
    {
        RunOptions {
            username: None,
            memory: None,
            cpus: None,
            disk_size: None,
            force_download: false,
            image_url: None,
            kernel: None,
            rootfs: None,
            mounts: Vec::new(),
            verbose: false,
            show_progress: true,
        }
    }
}

/// What a machine boots from.
#[derive(Debug)]
pub enum Boot {
    /// A cloud image, from which the machine gets a disk of its own.
    Cloud { image_url: Option<String>, force_download: bool, disk_size: Option<String> },
    /// A kernel and a root file system of the user's.
    Custom { kernel: String, rootfs: String },
}

/// A machine that can be started, as far as its options go.
#[derive(Debug)]
pub struct RunPlan {
    pub username: String,
    pub memory: String,
    pub cpus: u32,
    pub boot: Boot,
    pub mounts: Vec<MountSpec>,
    pub verbose: bool,
    /// Whether the steps of the start are shown one by one.
    pub show_steps: bool,
}

/// Why a combination of options is refused.
pub open spec fn options_fault(options: RunOptions) -> Option<Seq<char>> {
    if (options.kernel is Some) != (options.rootfs is Some) {
        Some(
            "kernel and rootfs must be provided together, or neither one to use the default cloud image flow"@,
        )
    } else if options.kernel is Some && options.image_url is Some {
        Some("image-url must not be used with custom kernel/rootfs mode"@)
    } else if options.kernel is Some && options.disk_size is Some {
        Some("disk-size must not be used with custom kernel/rootfs mode"@)
    } else {
        None
    }
}

/// A kernel is accepted only together with a root file system, and a root file system only
/// together with a kernel; neither goes with an image or a disk size.
pub proof fn law_kernel_and_rootfs_go_together(options: RunOptions)
    requires
        options_fault(options) is None,
    ensures
        options.kernel is Some <==> options.rootfs is Some,
        options.kernel is Some ==> options.image_url is None && options.disk_size is None,
{
}

/// An optional text, or else a given one.
pub open spec fn text_or(value: Option<String>, default: Seq<char>) -> Seq<char> {
    match value {
        Some(v) => v@,
        None => default,
    }
}

/// Whether `plan` is what accepted options amount to.
pub open spec fn plans(plan: RunPlan, options: RunOptions) -> bool {
    &&& plan.username@ == text_or(options.username, "ubuntu"@)
    &&& plan.memory@ == text_or(options.memory, "4G"@)
    &&& plan.cpus == (match options.cpus {
        Some(n) => n,
        None => 2,
    })
    &&& plan.boot == (if options.kernel is Some {
        Boot::Custom { kernel: options.kernel->0, rootfs: options.rootfs->0 }
    } else {
        Boot::Cloud {
            image_url: options.image_url,
            force_download: options.force_download,
            disk_size: options.disk_size,
        }
    })
    &&& plan.mounts == options.mounts
    &&& plan.verbose == options.verbose
    &&& plan.show_steps == (!options.verbose && options.show_progress)
}

/// Checks the options of a new machine and fills in what they leave open.
pub fn plan_run(options: RunOptions) -> (r: Result<RunPlan, String>)
    ensures
        match r {
            Ok(plan) => options_fault(options) is None && plans(plan, options),
            Err(message) => options_fault(options) == Some(message@),
        },
{
    let username = match options.username {
        Some(name) => name,
        None => "ubuntu".to_owned(),
    };
    let memory = match options.memory {
        Some(memory) => memory,
        None => "4G".to_owned(),
    };
    let cpus: u32 = match options.cpus {
        Some(n) => n,
        None => 2,
    };
    let boot = match (options.kernel, options.rootfs) {
        (Some(kernel), Some(rootfs)) => {
            if options.image_url.is_some() {
                return Err("image-url must not be used with custom kernel/rootfs mode".to_owned());
            }
            if options.disk_size.is_some() {
                return Err("disk-size must not be used with custom kernel/rootfs mode".to_owned());
            }
            Boot::Custom { kernel, rootfs }
        },
        (None, None) => Boot::Cloud {
            image_url: options.image_url,
            force_download: options.force_download,
            disk_size: options.disk_size,
        },
        _ => {
            return Err(
                "kernel and rootfs must be provided together, or neither one to use the default cloud image flow".to_owned(),
            );
        },
    };
    Ok(
        RunPlan {
            username,
            memory,
            cpus,
            boot,
            mounts: options.mounts,
            verbose: options.verbose,
            show_steps: !options.verbose && options.show_progress,
        },
    )
}

/// How many steps the start of a machine has for its user.
pub const LAUNCH_STEPS: u8 = 8;

/// The title of a step of the start.
pub open spec fn step_name(step: u8) -> Seq<char> {
    if step == 1 {
        "Host profile"@
    } else if step == 2 {
        "Directories"@
    } else if step == 3 {
        "Cloud image"@
    } else if step == 4 {
        "SSH key pair"@
    } else if step == 5 {
        "Cloud-init seed"@
    } else if step == 6 {
        "Disk image"@
    } else if step == 7 {
        "Starting QEMU"@
    } else {
        "SSH connected"@
    }
}

pub fn step_title(step: u8) -> (r: &'static str)
    ensures
        r@ == step_name(step),
{
    match step {
        1 => "Host profile",
        2 => "Directories",
        3 => "Cloud image",
        4 => "SSH key pair",
        5 => "Cloud-init seed",
        6 => "Disk image",
        7 => "Starting QEMU",
        _ => "SSH connected",
    }
}

/// What is reported when a step of the start is done.
pub fn step_notice(step: u8, detail: &str) -> (r: String)
    ensures
        r@ == step_name(step) + " — "@ + detail@,
{
    text::cat3(step_title(step), " — ", detail)
}

/// The detail that is shown for the host.
pub fn host_detail(host: &HostProfile) -> (r: String)
    ensures
        r@ == host.os@ + "/"@ + host.arch@ + " ("@ + host.cpu_type@ + ")"@,
{
    text::cat6(host.os, "/", host.arch, " (", host.cpu_type, ")")
}

/// A machine whose host is known.
#[derive(Debug)]
pub struct Launch {
    pub plan: RunPlan,
    pub host: HostProfile,
    pub images_dir: String,
    pub instances_dir: String,
    pub keys_dir: String,
}

/// Where the disk contents of a machine come from.
#[derive(Debug)]
pub enum ImageSource {
    /// The user's root file system.
    Rootfs { path: String },
    /// The image at `url`, kept at `path`. With `force` it is fetched anew.
    Cloud { url: String, path: String, force: bool },
}

/// The name that every machine gives itself.
pub open spec fn guest_hostname() -> Seq<char> {
    "vm"@
}

/// How a machine reaches a directory of the host.
#[derive(Debug, Clone, Copy, PartialEq, Eq, Structural)]
pub enum MountTransport {
    VirtioFs,
    Virtio9p,
}

/// The transport of a host: macOS has no virtiofs daemon.
pub open spec fn transport_on(host: HostProfile) -> MountTransport {
    if host.os@ == "macos"@ {
        MountTransport::Virtio9p
    } else {
        MountTransport::VirtioFs
    }
}

pub fn mount_transport(host: &HostProfile) -> (r: MountTransport)
    ensures
        r == transport_on(*host),
{
    if text::same(host.os, "macos") {
        MountTransport::Virtio9p
    } else {
        MountTransport::VirtioFs
    }
}

/// The tag of the mount at position `index`.
pub open spec fn mount_tag(index: nat) -> Seq<char> {
    "vmizefs"@ + text::decimal(index)
}

pub fn virtiofs_tag_for_index(index: usize) -> (r: String)
    ensures
        r@ == mount_tag(index as nat),
{
    let n = text::number(index as u64);
    text::cat2("vmizefs", n.as_str())
}

/// Two mounts never share a tag.
pub proof fn law_mount_tags_are_distinct(a: nat, b: nat)
    requires
        mount_tag(a) == mount_tag(b),
    ensures
        a == b,
{
    reveal_strlit("vmizefs");
    assert(text::decimal(a) =~= mount_tag(a).skip(7));
    assert(text::decimal(b) =~= mount_tag(b).skip(7));
    text::lemma_decimal_distinct(a, b);
}

/// The command that mounts a directory inside the machine, up to the tag.
pub open spec fn mount_verb(transport: MountTransport, mode: MountMode) -> Seq<char> {
    match (transport, mode) {
        (MountTransport::VirtioFs, MountMode::ReadOnly) => "mount -t virtiofs -o ro "@,
        (MountTransport::VirtioFs, MountMode::ReadWrite) => "mount -t virtiofs "@,
        (MountTransport::Virtio9p, MountMode::ReadOnly) =>
            "mount -t 9p -o trans=virtio,version=9p2000.L,ro "@,
        (MountTransport::Virtio9p, MountMode::ReadWrite) =>
            "mount -t 9p -o trans=virtio,version=9p2000.L "@,
    }
}

/// The commands that make a directory inside the machine and mount the host's directory there.
pub open spec fn mount_commands(index: nat, mount: MountSpec, transport: MountTransport) -> Seq<
    Seq<char>,
> {
    let guest = shell::quoted(mount.guest_path@);
    seq![
        "mkdir -p "@ + guest,
        mount_verb(transport, mount.mode) + shell::quoted(mount_tag(index)) + " "@ + guest,
    ]
}

/// The commands for all mounts, in their order.
pub open spec fn all_mount_commands(mounts: Seq<MountSpec>, transport: MountTransport) -> Seq<
    Seq<char>,
>
    decreases mounts.len(),
{
    if mounts.len() == 0 {
        seq![]
    } else {
        all_mount_commands(mounts.drop_last(), transport) + mount_commands(
            (mounts.len() - 1) as nat,
            mounts.last(),
            transport,
        )
    }
}

/// The commands that mount the directory at position `index`.
pub fn mount_runcmd_for_spec(index: usize, mount: &MountSpec, transport: MountTransport) -> (r: Vec<
    String,
>)
    ensures
        text::views(r@) == mount_commands(index as nat, *mount, transport),
{
    let tag = virtiofs_tag_for_index(index);
    let guest = shell::shell_quote(mount.guest_path.as_str());
    let quoted_tag = shell::shell_quote(tag.as_str());
    let verb = match (transport, mount.mode) {
        (MountTransport::VirtioFs, MountMode::ReadOnly) => "mount -t virtiofs -o ro ",
        (MountTransport::VirtioFs, MountMode::ReadWrite) => "mount -t virtiofs ",
        (MountTransport::Virtio9p, MountMode::ReadOnly) =>
            "mount -t 9p -o trans=virtio,version=9p2000.L,ro ",
        (MountTransport::Virtio9p, MountMode::ReadWrite) =>
            "mount -t 9p -o trans=virtio,version=9p2000.L ",
    };
    let mut out: Vec<String> = Vec::new();
    out.push(text::cat2("mkdir -p ", guest.as_str()));
    out.push(text::cat4(verb, quoted_tag.as_str(), " ", guest.as_str()));
    assert(text::views(out@) =~= mount_commands(index as nat, *mount, transport));
    out
}

fn mount_runcmds(mounts: &Vec<MountSpec>, transport: MountTransport) -> (r: Vec<String>)
    ensures
        text::views(r@) == all_mount_commands(mounts@, transport),
{
    let mut out: Vec<String> = Vec::new();
    let mut i: usize = 0;
    assert(text::views(out@) =~= all_mount_commands(mounts@.take(0), transport));
    while i < mounts.len()
        invariant
            i <= mounts.len(),
            text::views(out@) == all_mount_commands(mounts@.take(i as int), transport),
        decreases mounts.len() - i,
    {
        let ghost before = out@;
        let mut commands = mount_runcmd_for_spec(i, &mounts[i], transport);
        let ghost added = commands@;
        out.append(&mut commands);
        proof {
            assert(mounts@.take(i + 1).drop_last() =~= mounts@.take(i as int));
            assert(text::views(out@) =~= text::views(before) + text::views(added));
        }
        i = i + 1;
    }
    assert(mounts@.take(i as int) =~= mounts@);
    out
}

/// The place of a new machine: its name, its port and its directory.
#[derive(Debug)]
pub struct Slot {
    pub vm_id: String,
    pub ssh_port: u16,
    pub vm_dir: String,
}

/// Whether `slot` is the place with the given number.
pub open spec fn slot_at(slot: Slot, instances_dir: Seq<char>, index: nat) -> bool {
    &&& slot.vm_id@ == record::vm_id(index)
    &&& port::ssh_port(index) == Some(slot.ssh_port as nat)
    &&& slot.vm_dir@ == path::joined(instances_dir, record::vm_id(index))
}

/// What came of creating the directory of a machine.
#[derive(Debug)]
pub enum DirOutcome {
    Created,
    AlreadyExists,
    Failed { reason: String },
}

/// Judges the creation of a machine's directory.
pub fn dir_created(vm_dir: &str, outcome: &DirOutcome) -> (r: Result<(), String>)
    ensures
        judges_dir(r, vm_dir@, *outcome),
        match *outcome {
            DirOutcome::Created => r is Ok,
            DirOutcome::AlreadyExists => r matches Err(message) && message@ == "VM directory "@
                + vm_dir@ + " already exists - this should not happen with sequential IDs"@,
            DirOutcome::Failed { reason } => r matches Err(message) && message@
                == "Failed to create VM directory "@ + vm_dir@ + ": "@ + reason@,
        },
{
    match outcome {
        DirOutcome::Created => Ok(()),
        DirOutcome::AlreadyExists => Err(
            text::cat3(
                "VM directory ",
                vm_dir,
                " already exists - this should not happen with sequential IDs",
            ),
        ),
        DirOutcome::Failed { reason } => Err(
            text::cat4("Failed to create VM directory ", vm_dir, ": ", reason.as_str()),
        ),
    }
}

/// The seed of a machine and the files that it is written to.
#[derive(Debug)]
pub struct SeedPlan {
    pub seed: CloudInitSeed,
    pub metadata_path: String,
    pub userdata_path: String,
    pub iso_path: String,
}

/// How a machine gets its disk.
#[derive(Debug)]
pub enum DiskSource {
    /// The image itself is the disk; its format has to be looked up.
    UseImage { path: String },
    /// A copy of the image, with the size asked for.
    Copy { src: String, dest: String, size: Option<String> },
}

/// A virtiofs daemon to start.
#[derive(Debug)]
pub struct VirtioFsDaemon {
    pub tag: String,
    pub host_path: String,
    pub socket_path: String,
    pub args: Vec<String>,
}

/// A virtiofs daemon that runs.
#[derive(Debug)]
pub struct VirtioFsShareRuntime {
    pub tag: String,
    pub socket_path: String,
    pub pid: u32,
}

/// The virtiofs daemons of a machine.
#[derive(Debug)]
pub struct VirtioFsRuntime {
    pub shares: Vec<VirtioFsShareRuntime>,
}

/// The processes of running daemons.
pub open spec fn share_pids(shares: Seq<VirtioFsShareRuntime>) -> Seq<u32> {
    shares.map_values(|s: VirtioFsShareRuntime| s.pid)
}

impl VirtioFsRuntime {
    pub fn pids(&self) -> (r: Vec<u32>)
        ensures
            r@ == share_pids(self.shares@),
    {
        let mut out: Vec<u32> = Vec::new();
        let mut i: usize = 0;
        while i < self.shares.len()
            invariant
                i <= self.shares.len(),
                out@ == share_pids(self.shares@.take(i as int)),
            decreases self.shares.len() - i,
        {
            let ghost before = out@;
            out.push(self.shares[i].pid);
            assert(share_pids(self.shares@.take(i + 1)) =~= before.push(self.shares@[i as int].pid));
            i = i + 1;
        }
        assert(self.shares@.take(i as int) =~= self.shares@);
        out
    }
}

/// The name of the socket for the mount at position `index`.
pub open spec fn socket_name(index: nat) -> Seq<char> {
    "virtiofs-"@ + text::decimal(index) + ".sock"@
}

/// The arguments of a virtiofs daemon.
pub open spec fn daemon_args(socket: Seq<char>, host_path: Seq<char>) -> Seq<Seq<char>> {
    seq!["--socket-path"@, socket] + seq!["--shared-dir"@, host_path] + seq!["--sandbox"@, "none"@]
        + seq!["--cache"@, "auto"@] + seq!["--inode-file-handles"@, "never"@]
}

/// Whether `daemon` serves the mount at position `index` of the machine in `vm_dir`.
pub open spec fn serves(
    daemon: VirtioFsDaemon,
    vm_dir: Seq<char>,
    index: nat,
    mount: MountSpec,
) -> bool {
    let socket = path::joined(vm_dir, socket_name(index));
    &&& daemon.tag@ == mount_tag(index)
    &&& daemon.host_path@ == mount.host_path@
    &&& daemon.socket_path@ == socket
    &&& text::views(daemon.args@) == daemon_args(socket, mount.host_path@)
}

/// Lists the virtiofs daemons that a machine needs, one per mount and in their order.
pub fn start_virtiofs_runtime(vm_dir: &str, mounts: &Vec<MountSpec>) -> (r: Vec<VirtioFsDaemon>)
    ensures
        r@.len() == mounts@.len(),
        forall|i: int|
            0 <= i < mounts@.len() ==> serves(#[trigger] r@[i], vm_dir@, i as nat, mounts@[i]),
{
    let mut out: Vec<VirtioFsDaemon> = Vec::new();
    let mut i: usize = 0;
    while i < mounts.len()
        invariant
            i <= mounts.len(),
            out@.len() == i,
            forall|j: int|
                0 <= j < i ==> serves(#[trigger] out@[j], vm_dir@, j as nat, mounts@[j]),
        decreases mounts.len() - i,
    {
        let n = text::number(i as u64);
        let name = text::cat3("virtiofs-", n.as_str(), ".sock");
        let socket_path = path::join(vm_dir, name.as_str());
        let mut args: Vec<String> = Vec::new();
        text::push_pair(&mut args, "--socket-path", socket_path.as_str());
        assert(text::views(args@) =~= seq!["--socket-path"@, socket_path@]);
        text::push_pair(&mut args, "--shared-dir", mounts[i].host_path.as_str());
        text::push_pair(&mut args, "--sandbox", "none");
        text::push_pair(&mut args, "--cache", "auto");
        text::push_pair(&mut args, "--inode-file-handles", "never");
        out.push(
            VirtioFsDaemon {
                tag: virtiofs_tag_for_index(i),
                host_path: mounts[i].host_path.clone(),
                socket_path,
                args,
            },
        );
        i = i + 1;
    }
    out
}

/// The message for a host without a virtiofs daemon.
pub fn no_virtiofsd() -> (r: String)
    ensures
        r@ == "virtiofsd not found (expected 'virtiofsd' or 'qemu-virtiofsd' in PATH)"@,
{
    "virtiofsd not found (expected 'virtiofsd' or 'qemu-virtiofsd' in PATH)".to_owned()
}

/// What came of starting a virtiofs daemon.
#[derive(Debug)]
pub enum DaemonOutcome {
    /// It could not be started.
    NotSpawned,
    /// It was started, but its socket did not appear.
    NoSocket { message: String },
    Up { pid: u32 },
}

/// What to do next about the virtiofs daemons of a machine.
#[derive(Debug)]
pub enum DaemonStep {
    /// Delete what an earlier daemon left at the socket's path, start this daemon, and wait for
    /// its socket.
    Start { program: String, args: Vec<String>, socket_path: String },
    /// All of them run.
    Ready,
    /// Stop these processes, and give up.
    Fail { message: String, stop: Vec<u32> },
}

/// The virtiofs daemons of a machine, on their way up one after the other.
#[derive(Debug)]
pub struct DaemonStart {
    pub program: String,
    pub daemons: Vec<VirtioFsDaemon>,
    /// Those that run.
    pub runtime: VirtioFsRuntime,
}

impl DaemonStart {
    /// The daemons that run are the first ones, in order.
    pub open spec fn wf(self) -> bool {
        let up = self.runtime.shares@;
        &&& up.len() <= self.daemons@.len()
        &&& forall|i: int|
            0 <= i < up.len() ==> (#[trigger] up[i]).tag@ == self.daemons@[i].tag@
                && up[i].socket_path@ == self.daemons@[i].socket_path@
    }

    /// Whether a step starts the first daemon that does not run yet, if there is one.
    pub open spec fn goes_on(self, step: DaemonStep) -> bool {
        let at = self.runtime.shares@.len();
        if at == self.daemons@.len() {
            step is Ready
        } else {
            let next = self.daemons@[at as int];
            step matches DaemonStep::Start { program, args, socket_path } && program@
                == self.program@ && text::views(args@) == text::views(next.args@) && socket_path@
                == next.socket_path@
        }
    }

    fn next(&self) -> (r: DaemonStep)
        requires
            self.wf(),
        ensures
            self.goes_on(r),
    {
        let at: usize = self.runtime.shares.len();
        if at == self.daemons.len() {
            return DaemonStep::Ready;
        }
        DaemonStep::Start {
            program: self.program.clone(),
            args: text::copy_list(self.daemons[at].args.as_slice()),
            socket_path: self.daemons[at].socket_path.clone(),
        }
    }

    /// Starts the daemons of a machine with the program found on the host. Without any daemon, the
    /// program is not missed.
    pub fn begin(daemons: Vec<VirtioFsDaemon>, virtiofsd: Option<String>) -> (r: (
        DaemonStart,
        DaemonStep,
    ))
        ensures
            r.0.wf(),
            r.0.daemons == daemons,
            r.0.runtime.shares@.len() == 0,
            match virtiofsd {
                Some(program) => r.0.program == program && r.0.goes_on(r.1),
                None => if daemons@.len() == 0 {
                    r.1 is Ready
                } else {
                    r.1 matches DaemonStep::Fail { message, stop } && message@
                        == "virtiofsd not found (expected 'virtiofsd' or 'qemu-virtiofsd' in PATH)"@
                        && stop@.len() == 0
                },
            },
    {
        let runtime = VirtioFsRuntime { shares: Vec::new() };
        match virtiofsd {
            Some(program) => {
                let start = DaemonStart { program, daemons, runtime };
                let step = start.next();
                (start, step)
            },
            None => {
                let step = if daemons.len() == 0 {
                    DaemonStep::Ready
                } else {
                    DaemonStep::Fail { message: no_virtiofsd(), stop: Vec::new() }
                };
                (DaemonStart { program: String::new(), daemons, runtime }, step)
            },
        }
    }

    /// Goes on once a daemon was to be started. Where its socket did not appear, those that came
    /// up before it are stopped.
    pub fn started(&mut self, outcome: DaemonOutcome) -> (r: DaemonStep)
        requires
            old(self).wf(),
            old(self).runtime.shares@.len() < old(self).daemons@.len(),
        ensures
            final(self).wf(),
            final(self).program == old(self).program,
            final(self).daemons == old(self).daemons,
            ({
                let up = old(self).runtime.shares@;
                let now = final(self).runtime.shares@;
                let daemon = old(self).daemons@[up.len() as int];
                match outcome {
                    DaemonOutcome::NotSpawned => {
                        &&& now == up
                        &&& r matches DaemonStep::Fail { message, stop } && message@
                            == "Failed to start virtiofsd for host path "@ + daemon.host_path@
                            && stop@.len() == 0
                    },
                    DaemonOutcome::NoSocket { message: reason } => {
                        &&& now == up
                        &&& r matches DaemonStep::Fail { message, stop } && message == reason
                            && stop@ == share_pids(up)
                    },
                    DaemonOutcome::Up { pid } => {
                        &&& now.len() == up.len() + 1
                        &&& now.drop_last() == up
                        &&& now.last().pid == pid
                        &&& final(self).goes_on(r)
                    },
                }
            }),
    {
        let at: usize = self.runtime.shares.len();
        match outcome {
            DaemonOutcome::NotSpawned => DaemonStep::Fail {
                message: text::cat2(
                    "Failed to start virtiofsd for host path ",
                    self.daemons[at].host_path.as_str(),
                ),
                stop: Vec::new(),
            },
            DaemonOutcome::NoSocket { message } => DaemonStep::Fail {
                message,
                stop: self.runtime.pids(),
            },
            DaemonOutcome::Up { pid } => {
                let share = VirtioFsShareRuntime {
                    tag: self.daemons[at].tag.clone(),
                    socket_path: self.daemons[at].socket_path.clone(),
                    pid,
                };
                self.runtime.shares.push(share);
                assert(self.runtime.shares@.drop_last() =~= old(self).runtime.shares@);
                self.next()
            },
        }
    }
}

/// Picks the virtiofs daemon: `virtiofsd`, else `qemu-virtiofsd`, else the one of Homebrew.
pub fn resolve_virtiofsd_binary(
    virtiofsd: Option<String>,
    qemu_virtiofsd: Option<String>,
    homebrew_is_file: bool,
) -> (r: Option<String>)
    ensures
        is_virtiofsd(r, virtiofsd, qemu_virtiofsd, homebrew_is_file),
        if virtiofsd is Some {
            r == virtiofsd
        } else if qemu_virtiofsd is Some {
            r == qemu_virtiofsd
        } else if homebrew_is_file {
            text::opt_view(r) == Some("/opt/homebrew/libexec/virtiofsd"@)
        } else {
            r is None
        },
{
    match virtiofsd {
        Some(found) => Some(found),
        None => match qemu_virtiofsd {
            Some(found) => Some(found),
            None => if homebrew_is_file {
                Some("/opt/homebrew/libexec/virtiofsd".to_owned())
            } else {
                None
            },
        },
    }
}

/// What to do next while a daemon or a port is waited for.
#[derive(Debug)]
pub enum WaitStep {
    Ready,
    /// Look again after a pause.
    Pause,
    Fail { message: String },
}

/// Decides on the next step of waiting for a virtiofs daemon's socket.
pub fn wait_for_socket_or_exit(
    pid: u32,
    socket_path: &str,
    socket_exists: bool,
    alive: bool,
    in_time: bool,
) -> (r: WaitStep)
    ensures
        waits_for_socket(r, pid, socket_path@, socket_exists, alive, in_time),
        if !in_time {
            r matches WaitStep::Fail { message } && message@
                == "Timed out waiting for virtiofs socket "@ + socket_path@
        } else if socket_exists {
            r is Ready
        } else if !alive {
            r matches WaitStep::Fail { message } && message@ == "virtiofsd process "@
                + text::decimal(pid as nat) + " exited before creating socket "@ + socket_path@
        } else {
            r is Pause
        },
{
    if !in_time {
        return WaitStep::Fail {
            message: text::cat2("Timed out waiting for virtiofs socket ", socket_path),
        };
    }
    if socket_exists {
        return WaitStep::Ready;
    }
    if !alive {
        let n = text::number(pid as u64);
        return WaitStep::Fail {
            message: text::cat4(
                "virtiofsd process ",
                n.as_str(),
                " exited before creating socket ",
                socket_path,
            ),
        };
    }
    WaitStep::Pause
}

/// What to do next while the daemons of a machine end.
#[derive(Debug, Clone, Copy, PartialEq, Eq, Structural)]
pub enum SidecarStep {
    AllGone,
    /// Look again after a pause.
    Pause,
    /// Kill those that are left for good.
    KillRest,
}

/// Decides on the next step of stopping daemons that were asked to end. `alive` says of each
/// whether it still runs.
pub fn stop_sidecar_processes(alive: &[bool], in_time: bool) -> (r: SidecarStep)
    ensures
        r == sidecar_step(alive@, in_time),
        r == (if !in_time {
            SidecarStep::KillRest
        } else if alive@.contains(true) {
            SidecarStep::Pause
        } else {
            SidecarStep::AllGone
        }),
{
    if !in_time {
        return SidecarStep::KillRest;
    }
    let mut i: usize = 0;
    while i < alive.len()
        invariant
            in_time,
            i <= alive@.len(),
            forall|j: int| 0 <= j < i ==> !alive@[j],
        decreases alive@.len() - i,
    {
        if alive[i] {
            assert(alive@.contains(alive@[i as int]));
            return SidecarStep::Pause;
        }
        i = i + 1;
    }
    SidecarStep::AllGone
}

/// What has to be undone after a failed start.
#[derive(Debug)]
pub enum Cleanup {
    /// Stop the machine's process, and wait for its end at most as long as given.
    StopQemu { pid: u32, seconds: u64 },
    StopSidecars { pids: Vec<u32> },
    RemoveDir { dir: String },
}

/// A start that failed.
#[derive(Debug)]
pub struct LaunchFailure {
    pub message: String,
    /// The error behind the message, where the message is about its circumstances.
    pub cause: Option<String>,
    /// What the step that failed shows.
    pub note: Option<String>,
    /// What has to be undone, in this order. Failures of it do not count.
    pub cleanup: Vec<Cleanup>,
}

/// Whether a cleanup stops a machine's process and its daemons and removes its directory.
pub open spec fn removes_machine(
    cleanup: Seq<Cleanup>,
    pid: u32,
    seconds: u64,
    sidecars: Seq<u32>,
    dir: Seq<char>,
) -> bool {
    &&& cleanup.len() == 3
    &&& cleanup[0] == (Cleanup::StopQemu { pid, seconds })
    &&& cleanup[1] matches Cleanup::StopSidecars { pids } && pids@ == sidecars
    &&& cleanup[2] matches Cleanup::RemoveDir { dir: d } && d@ == dir
}

/// Whether a cleanup removes a machine's directory.
pub open spec fn removes_dir(cleanup: Seq<Cleanup>, dir: Seq<char>) -> bool {
    &&& cleanup.len() == 1
    &&& cleanup[0] matches Cleanup::RemoveDir { dir: d } && d@ == dir
}

/// Whether a cleanup stops a machine's daemons.
pub open spec fn stops_sidecars(cleanup: Seq<Cleanup>, sidecars: Seq<u32>) -> bool {
    &&& cleanup.len() == 1
    &&& cleanup[0] matches Cleanup::StopSidecars { pids } && pids@ == sidecars
}

fn machine_cleanup(pid: u32, seconds: u64, sidecars: &Vec<u32>, dir: &str) -> (r: Vec<Cleanup>)
    ensures
        removes_machine(r@, pid, seconds, sidecars@, dir@),
{
    let pids = sidecars.clone();
    assert(pids@ =~= sidecars@);
    let mut cleanup: Vec<Cleanup> = Vec::new();
    cleanup.push(Cleanup::StopQemu { pid, seconds });
    cleanup.push(Cleanup::StopSidecars { pids });
    cleanup.push(Cleanup::RemoveDir { dir: dir.to_owned() });
    cleanup
}

/// The failure of a start whose virtiofs daemons did not come up: the machine's directory goes.
pub fn virtiofs_failed(message: String, slot: &Slot) -> (r: LaunchFailure)
    ensures
        r.message == message,
        r.cause is None,
        r.note is None,
        removes_dir(r.cleanup@, slot.vm_dir@),
{
    let mut cleanup: Vec<Cleanup> = Vec::new();
    cleanup.push(Cleanup::RemoveDir { dir: slot.vm_dir.clone() });
    LaunchFailure { message, cause: None, note: None, cleanup }
}

/// The failure of a start whose QEMU did not start: the virtiofs daemons go.
pub fn qemu_failed(message: String, runtime: &VirtioFsRuntime) -> (r: LaunchFailure)
    ensures
        r.message == message,
        r.cause is None,
        text::opt_view(r.note) == Some(message@),
        stops_sidecars(r.cleanup@, share_pids(runtime.shares@)),
{
    let mut cleanup: Vec<Cleanup> = Vec::new();
    cleanup.push(Cleanup::StopSidecars { pids: runtime.pids() });
    let note = message.clone();
    LaunchFailure { message, cause: None, note: Some(note), cleanup }
}

/// What the kernel of a custom machine is told, by processor.
pub open spec fn kernel_command_line(arch: Seq<char>) -> Option<Seq<char>> {
    if arch == "x86_64"@ {
        Some("root=/dev/vda rw rootfstype=ext4 console=ttyS0"@)
    } else if arch == "aarch64"@ {
        Some("root=/dev/vda rw rootfstype=ext4 console=ttyAMA0"@)
    } else {
        None
    }
}

/// Whether the shares of a configuration are those of the running daemons.
pub open spec fn shares_match(
    shares: Seq<crate::vm::qemu::config::VirtioFsShare>,
    running: Seq<VirtioFsShareRuntime>,
) -> bool {
    &&& shares.len() == running.len()
    &&& forall|i: int|
        0 <= i < shares.len() ==> (#[trigger] shares[i]).tag@ == running[i].tag@
            && shares[i].socket_path@ == running[i].socket_path@
}

/// Whether the directories that QEMU serves itself are those of the mounts.
pub open spec fn served_match(
    shares: Seq<crate::vm::qemu::config::Virtio9pShare>,
    mounts: Seq<MountSpec>,
) -> bool {
    &&& shares.len() == mounts.len()
    &&& forall|i: int|
        0 <= i < shares.len() ==> (#[trigger] shares[i]).tag@ == mount_tag(i as nat)
            && shares[i].host_path@ == mounts[i].host_path@
}

/// A machine's configuration in all but its kernel and its shares.
pub open spec fn base_config(
    c: QemuConfig,
    launch: Launch,
    slot: Slot,
    disk: Seq<char>,
    format: DiskFormat,
    iso: Seq<char>,
) -> bool {
    &&& c.qemu_binary@ == launch.host.qemu_binary@
    &&& c.machine_type@ == launch.host.machine_type@
    &&& c.cpu_type@ == launch.host.cpu_type@
    &&& c.memory@ == launch.plan.memory@
    &&& c.cpus == launch.plan.cpus
    &&& text::opt_view(c.disk_image) == Some(disk)
    &&& c.disk_format == format
    &&& text::opt_view(c.cloud_init_iso) == Some(iso)
    &&& c.ssh_port == Some(slot.ssh_port)
    &&& text::opt_view(c.pid_file) == Some(path::joined(slot.vm_dir@, "qemu.pid"@))
    &&& text::opt_view(c.qemu_name) == Some(slot.vm_id@)
    &&& !c.display
    &&& c.daemonize == !launch.plan.verbose
}

/// Whether a configuration has the kernel and the firmware that the boot asks for. A custom
/// machine boots its kernel directly, without firmware.
pub open spec fn boot_config(c: QemuConfig, boot: Boot, host: HostProfile) -> bool {
    match boot {
        Boot::Cloud { .. } => {
            &&& text::opt_view(c.bios_path) == text::opt_str_view(host.bios_path)
            &&& c.kernel_path is None
            &&& c.append is None
        },
        Boot::Custom { kernel, .. } => {
            &&& c.bios_path is None
            &&& text::opt_view(c.kernel_path) == Some(kernel@)
            &&& text::opt_view(c.append) == kernel_command_line(host.arch@)
        },
    }
}

/// Whether a configuration shares the directories that the plan asks for, by the host's
/// transport.
pub open spec fn share_config(
    c: QemuConfig,
    launch: Launch,
    running: Seq<VirtioFsShareRuntime>,
) -> bool {
    &&& shares_match(c.virtiofs_shares@, running)
    &&& if transport_on(launch.host) is Virtio9p {
        served_match(c.virtio_9p_shares@, launch.plan.mounts@)
    } else {
        c.virtio_9p_shares@.len() == 0
    }
}

fn with_running_shares(config: QemuConfig, runtime: &VirtioFsRuntime) -> (r: QemuConfig)
    requires
        config.virtiofs_shares@.len() == 0,
    ensures
        shares_match(r.virtiofs_shares@, runtime.shares@),
        r == (QemuConfig { virtiofs_shares: r.virtiofs_shares, ..config }),
{
    let mut c = config;
    let mut i: usize = 0;
    while i < runtime.shares.len()
        invariant
            i <= runtime.shares.len(),
            shares_match(c.virtiofs_shares@, runtime.shares@.take(i as int)),
            c == (QemuConfig { virtiofs_shares: c.virtiofs_shares, ..config }),
        decreases runtime.shares.len() - i,
    {
        let share = &runtime.shares[i];
        let ghost before = c.virtiofs_shares@;
        c = c.virtiofs_share(share.tag.as_str(), share.socket_path.as_str());
        proof {
            let now = c.virtiofs_shares@;
            assert forall|j: int| 0 <= j < now.len() implies (#[trigger] now[j]).tag@
                == runtime.shares@.take(i + 1)[j].tag@ && now[j].socket_path@
                == runtime.shares@.take(i + 1)[j].socket_path@ by {
                if j < i {
                    assert(now[j] == now.drop_last()[j]);
                    assert(before[j].tag@ == runtime.shares@.take(i as int)[j].tag@);
                }
            }
        }
        i = i + 1;
    }
    assert(runtime.shares@.take(i as int) =~= runtime.shares@);
    c
}

fn with_served_dirs(config: QemuConfig, mounts: &Vec<MountSpec>) -> (r: QemuConfig)
    requires
        config.virtio_9p_shares@.len() == 0,
    ensures
        served_match(r.virtio_9p_shares@, mounts@),
        r == (QemuConfig { virtio_9p_shares: r.virtio_9p_shares, ..config }),
{
    let mut c = config;
    let mut i: usize = 0;
    while i < mounts.len()
        invariant
            i <= mounts.len(),
            served_match(c.virtio_9p_shares@, mounts@.take(i as int)),
            c == (QemuConfig { virtio_9p_shares: c.virtio_9p_shares, ..config }),
        decreases mounts.len() - i,
    {
        let tag = virtiofs_tag_for_index(i);
        let ghost before = c.virtio_9p_shares@;
        c = c.virtio_9p_share(tag.as_str(), mounts[i].host_path.as_str());
        proof {
            let now = c.virtio_9p_shares@;
            assert forall|j: int| 0 <= j < now.len() implies (#[trigger] now[j]).tag@ == mount_tag(
                j as nat,
            ) && now[j].host_path@ == mounts@.take(i + 1)[j].host_path@ by {
                if j < i {
                    assert(now[j] == now.drop_last()[j]);
                    assert(before[j].host_path@ == mounts@.take(i as int)[j].host_path@);
                }
            }
        }
        i = i + 1;
    }
    assert(mounts@.take(i as int) =~= mounts@);
    c
}

/// Whether a machine's disk contents come from `source`.
pub open spec fn is_source(source: ImageSource, launch: Launch) -> bool {
    match launch.plan.boot {
        Boot::Custom { rootfs, .. } => source matches ImageSource::Rootfs { path } && path@
            == rootfs@,
        Boot::Cloud { image_url, force_download, .. } => {
            let from = text_or(image_url, launch.host.image_url@);
            source matches ImageSource::Cloud { url, path, force } && url@ == from && path@
                == path::joined(launch.images_dir@, downloader::url_file_name(from)) && force
                == force_download
        },
    }
}

/// Whether a machine gets its disk from `source`, with the image at `image_path`.
pub open spec fn is_disk(
    source: DiskSource,
    launch: Launch,
    slot: Slot,
    image_path: Seq<char>,
) -> bool {
    match launch.plan.boot {
        Boot::Custom { .. } => source matches DiskSource::UseImage { path } && path@ == image_path,
        Boot::Cloud { disk_size, .. } => source matches DiskSource::Copy { src, dest, size } && src@
            == image_path && dest@ == path::joined(slot.vm_dir@, "disk.qcow2"@) && text::opt_view(
            size,
        ) == text::opt_view(disk_size),
    }
}

/// Whether a plan is that of the seed of a machine, with the commands that mount its directories.
pub open spec fn seeds(plan: SeedPlan, launch: Launch, slot: Slot, public_key: Seq<char>) -> bool {
    &&& plan.seed.metadata.local_hostname@ == guest_hostname()
    &&& plan.seed.metadata.instance_id@ == "i-"@ + guest_hostname()
    &&& plan.seed.userdata.hostname@ == guest_hostname()
    &&& plan.seed.userdata.users@.len() == 1
    &&& plan.seed.userdata.users@[0].name@ == launch.plan.username@
    &&& plan.seed.userdata.users@[0].sudo@ == "ALL=(ALL) NOPASSWD:ALL"@
    &&& plan.seed.userdata.users@[0].shell@ == "/bin/bash"@
    &&& text::views(plan.seed.userdata.users@[0].ssh_authorized_keys@) == seq![public_key]
    &&& text::views(plan.seed.userdata.runcmd@) == seq![
        "systemctl enable ssh"@,
        "systemctl start ssh"@,
    ] + all_mount_commands(launch.plan.mounts@, transport_on(launch.host))
    &&& plan.metadata_path@ == path::joined(slot.vm_dir@, "meta-data"@)
    &&& plan.userdata_path@ == path::joined(slot.vm_dir@, "user-data"@)
    &&& plan.iso_path@ == path::joined(slot.vm_dir@, "seed.iso"@)
}

/// Whether daemons are those that a machine needs, one per mount and in their order.
pub open spec fn all_serve(daemons: Seq<VirtioFsDaemon>, launch: Launch, slot: Slot) -> bool {
    if transport_on(launch.host) is Virtio9p {
        daemons.len() == 0
    } else {
        &&& daemons.len() == launch.plan.mounts@.len()
        &&& forall|i: int|
            0 <= i < daemons.len() ==> serves(
                #[trigger] daemons[i],
                slot.vm_dir@,
                i as nat,
                launch.plan.mounts@[i],
            )
    }
}

/// Whether a record is that of a machine that has just started.
pub open spec fn records(
    record: VmRecord,
    launch: Launch,
    slot: Slot,
    private_key_path: Seq<char>,
    disk_path: Seq<char>,
    iso_path: Seq<char>,
    pid: u32,
    running: Seq<VirtioFsShareRuntime>,
    created_at: u64,
) -> bool {
    &&& record.id@ == slot.vm_id@
    &&& record.hostname@ == guest_hostname()
    &&& record.username@ == launch.plan.username@
    &&& record.ssh_port == slot.ssh_port
    &&& record.private_key_path@ == private_key_path
    &&& record.disk_path@ == disk_path
    &&& record.seed_iso_path@ == iso_path
    &&& record.pid == Some(pid)
    &&& record.sidecar_pids@ == share_pids(running)
    &&& record.status is Running
    &&& record.created_at == created_at
    &&& record.host_profile@ == launch.host.os@ + "/"@ + launch.host.arch@ + " ("@
        + launch.host.machine_type@ + ", "@ + launch.host.cpu_type@ + ")"@
}

impl Launch {
    /// A machine that will run on the given host, with its files where the configuration says.
    pub fn new(plan: RunPlan, host: HostProfile, config: &Config) -> (r: Launch)
        ensures
            r.plan == plan,
            r.host == host,
            r.images_dir@ == path::joined(config.base_dir@, "images"@),
            r.instances_dir@ == path::joined(config.base_dir@, "instances"@),
            r.keys_dir@ == path::joined(config.base_dir@, "keys"@),
    {
        Launch {
            plan,
            host,
            images_dir: config.images_dir(),
            instances_dir: config.instances_dir(),
            keys_dir: config.keys_dir(),
        }
    }

    /// Where the disk contents come from.
    pub fn image_source(&self) -> (r: ImageSource)
        ensures
            is_source(r, *self),
            match self.plan.boot {
                Boot::Custom { rootfs, .. } => r matches ImageSource::Rootfs { path } && path@
                    == rootfs@,
                Boot::Cloud { image_url, force_download, .. } => {
                    let url = text_or(image_url, self.host.image_url@);
                    r matches ImageSource::Cloud { url: u, path, force } && u@ == url && path@
                        == path::joined(self.images_dir@, downloader::url_file_name(url)) && force
                        == force_download
                },
            },
    {
        match &self.plan.boot {
            Boot::Custom { rootfs, .. } => ImageSource::Rootfs { path: rootfs.clone() },
            Boot::Cloud { image_url, force_download, .. } => {
                let url = match image_url {
                    Some(url) => url.clone(),
                    None => self.host.image_url.to_owned(),
                };
                let path = downloader::image_path(self.images_dir.as_str(), url.as_str());
                ImageSource::Cloud { url, path, force: *force_download }
            },
        }
    }

    /// Gives the machine its place. `names` are the names of the existing instance directories.
    pub fn allocate(&self, names: &[String]) -> (r: Result<Slot, String>)
        requires
            record::max_index(text::views(names@)) != Some(u32::MAX as nat),
        ensures
            match r {
                Ok(slot) => slot_at(
                    slot,
                    self.instances_dir@,
                    record::next_index(text::views(names@)),
                ),
                Err(message) => record::next_index(text::views(names@)) >= port::MAX_VMS
                    && message@ == port::capacity_message(),
            },
    {
        let index: u32 = match port::validate_vm_capacity(names) {
            Ok(index) => index,
            Err(message) => return Err(message),
        };
        let vm_id = record::next_vm_id(names);
        let vm_dir = record::vm_dir(self.instances_dir.as_str(), vm_id.as_str());
        let ssh_port: u16 = port::SSH_PORT_BASE + index as u16;
        Ok(Slot { vm_id, ssh_port, vm_dir })
    }

    /// The seed of the machine, with the commands that mount its directories.
    pub fn seed(&self, slot: &Slot, public_key: String) -> (r: SeedPlan)
        ensures
            seeds(r, *self, *slot, public_key@),
    {
        let mut seed = CloudInitSeed::with_config(
            "vm".to_owned(),
            self.plan.username.clone(),
            public_key,
        );
        let commands = mount_runcmds(&self.plan.mounts, mount_transport(&self.host));
        seed.extend_runcmd(commands);
        assert(text::views(seed.userdata.users@[0].ssh_authorized_keys@) =~= seq![public_key@]);
        let dir = slot.vm_dir.as_str();
        SeedPlan {
            seed,
            metadata_path: path::join(dir, "meta-data"),
            userdata_path: path::join(dir, "user-data"),
            iso_path: path::join(dir, "seed.iso"),
        }
    }

    /// How the machine gets its disk from the image at `image_path`.
    pub fn disk_source(&self, slot: &Slot, image_path: &str) -> (r: DiskSource)
        ensures
            is_disk(r, *self, *slot, image_path@),
            match self.plan.boot {
                Boot::Custom { .. } => r matches DiskSource::UseImage { path } && path@
                    == image_path@,
                Boot::Cloud { disk_size, .. } => r matches DiskSource::Copy { src, dest, size }
                    && src@ == image_path@ && dest@ == path::joined(slot.vm_dir@, "disk.qcow2"@)
                    && text::opt_view(size) == text::opt_view(disk_size),
            },
    {
        match &self.plan.boot {
            Boot::Custom { .. } => DiskSource::UseImage { path: image_path.to_owned() },
            Boot::Cloud { disk_size, .. } => DiskSource::Copy {
                src: image_path.to_owned(),
                dest: path::join(slot.vm_dir.as_str(), "disk.qcow2"),
                size: disk_size.clone(),
            },
        }
    }

    /// The virtiofs daemons that the machine needs.
    pub fn daemons(&self, slot: &Slot) -> (r: Vec<VirtioFsDaemon>)
        ensures
            all_serve(r@, *self, *slot),
    {
        match mount_transport(&self.host) {
            MountTransport::VirtioFs => start_virtiofs_runtime(
                slot.vm_dir.as_str(),
                &self.plan.mounts,
            ),
            MountTransport::Virtio9p => Vec::new(),
        }
    }

    /// What QEMU is told about the machine.
    pub fn qemu_config(
        &self,
        slot: &Slot,
        disk_path: &str,
        disk_format: DiskFormat,
        iso_path: &str,
        runtime: &VirtioFsRuntime,
    ) -> (r: Result<QemuConfig, String>)
        ensures
            match r {
                Ok(c) => {
                    &&& base_config(c, *self, *slot, disk_path@, disk_format, iso_path@)
                    &&& boot_config(c, self.plan.boot, self.host)
                    &&& share_config(c, *self, runtime.shares@)
                },
                Err(message) => {
                    &&& self.plan.boot is Custom
                    &&& kernel_command_line(self.host.arch@) is None
                    &&& message@ == "Unsupported host architecture for kernel boot: "@
                        + self.host.arch@
                },
            },
            self.plan.boot is Custom && kernel_command_line(self.host.arch@) is None ==> r is Err,
    {
        let bios_path = match &self.plan.boot {
            Boot::Custom { .. } => None,
            Boot::Cloud { .. } => match self.host.bios_path {
                Some(bios) => Some(bios.to_owned()),
                None => None,
            },
        };
        let pid_file = path::join(slot.vm_dir.as_str(), "qemu.pid");
        let mut config = QemuConfig::from_host_profile(&self.host).bios_path_opt(bios_path).memory(
            self.plan.memory.as_str(),
        ).cpus(self.plan.cpus).disk_image(disk_path).disk_format(disk_format).cloud_init_iso(
            iso_path,
        ).ssh_port(slot.ssh_port).pid_file(pid_file.as_str()).name(slot.vm_id.as_str()).display(
            false,
        ).daemonize(!self.plan.verbose);
        if let Boot::Custom { kernel, .. } = &self.plan.boot {
            let append = if text::same(self.host.arch, "x86_64") {
                "root=/dev/vda rw rootfstype=ext4 console=ttyS0"
            } else if text::same(self.host.arch, "aarch64") {
                "root=/dev/vda rw rootfstype=ext4 console=ttyAMA0"
            } else {
                return Err(
                    text::cat2("Unsupported host architecture for kernel boot: ", self.host.arch),
                );
            };
            config = config.kernel_path(kernel.as_str()).append(append);
        }
        config = with_running_shares(config, runtime);
        if let MountTransport::Virtio9p = mount_transport(&self.host) {
            config = with_served_dirs(config, &self.plan.mounts);
        }
        Ok(config)
    }

    /// The record of a machine whose QEMU has started.
    pub fn vm_record(
        &self,
        slot: &Slot,
        private_key_path: &str,
        disk_path: &str,
        iso_path: &str,
        pid: u32,
        runtime: &VirtioFsRuntime,
        created_at: u64,
    ) -> (r: VmRecord)
        ensures
            records(
                r,
                *self,
                *slot,
                private_key_path@,
                disk_path@,
                iso_path@,
                pid,
                runtime.shares@,
                created_at,
            ),
    {
        let platform = text::cat7(
            self.host.os,
            "/",
            self.host.arch,
            " (",
            self.host.machine_type,
            ", ",
            self.host.cpu_type,
        );
        VmRecord {
            id: slot.vm_id.clone(),
            hostname: "vm".to_owned(),
            username: self.plan.username.clone(),
            ssh_port: slot.ssh_port,
            private_key_path: private_key_path.to_owned(),
            disk_path: disk_path.to_owned(),
            seed_iso_path: iso_path.to_owned(),
            pid: Some(pid),
            sidecar_pids: runtime.pids(),
            status: VmStatus::Running,
            created_at,
            host_profile: text::cat2(platform.as_str(), ")"),
        }
    }

    /// Goes on shortly after QEMU has started: the detail that the step shows, or a failure that
    /// takes the machine away again. `pid_alive` says whether the machine's process runs.
    pub fn settled(&self, record: &VmRecord, pid: u32, slot: &Slot, pid_alive: bool) -> (r: Result<
        String,
        LaunchFailure,
    >)
        ensures
            match r {
                Ok(detail) => record.status_now(pid_alive) is Running && detail@ == "PID "@
                    + text::decimal(pid as nat) + ", port "@ + text::decimal(slot.ssh_port as nat),
                Err(failure) => {
                    &&& !(record.status_now(pid_alive) is Running)
                    &&& failure.message@
                        == "QEMU failed to stay running after startup. Use --verbose for startup output."@
                    &&& failure.cause is None
                    &&& text::opt_view(failure.note) == Some("process exited"@)
                    &&& removes_machine(
                        failure.cleanup@,
                        pid,
                        3,
                        record.sidecar_pids@,
                        slot.vm_dir@,
                    )
                },
            },
    {
        match record.runtime_status(pid_alive) {
            crate::vm::record::VmRuntimeStatus::Running => {
                let p = text::number(pid as u64);
                let port = text::number(slot.ssh_port as u64);
                Ok(text::cat4("PID ", p.as_str(), ", port ", port.as_str()))
            },
            _ => Err(
                LaunchFailure {
                    message: "QEMU failed to stay running after startup. Use --verbose for startup output.".to_owned(),
                    cause: None,
                    note: Some("process exited".to_owned()),
                    cleanup: machine_cleanup(pid, 3, &record.sidecar_pids, slot.vm_dir.as_str()),
                },
            ),
        }
    }
}

/// How patient the first connection to a machine is.
#[derive(Debug, Clone, Copy, PartialEq, Eq, Structural)]
pub struct SshPatience {
    /// How long the port may take to answer, in seconds.
    pub port_seconds: u64,
    /// How often a connection is tried.
    pub attempts: u32,
}

/// The patience with a machine: one that is emulated in software gets more.
pub open spec fn patience_with(host: HostProfile) -> SshPatience {
    if text::occurs_in("accel=tcg"@, host.machine_type@) {
        SshPatience { port_seconds: 120, attempts: 30 }
    } else {
        SshPatience { port_seconds: 30, attempts: 12 }
    }
}

pub fn ssh_patience(host: &HostProfile) -> (r: SshPatience)
    ensures
        r == patience_with(*host),
{
    if text::contains(host.machine_type, "accel=tcg") {
        SshPatience { port_seconds: 120, attempts: 30 }
    } else {
        SshPatience { port_seconds: 30, attempts: 12 }
    }
}

/// Decides on the next step of waiting for a machine's SSH port. `timeout_text` is how messages
/// show the time allowed.
pub fn wait_for_ssh_port(
    pid: u32,
    port: u16,
    alive: bool,
    reached: bool,
    in_time: bool,
    timeout_text: &str,
) -> (r: WaitStep)
    ensures
        waits_for_port(r, pid, port, alive, reached, in_time, timeout_text@),
        if !in_time {
            r matches WaitStep::Fail { message } && message@
                == "SSH did not become reachable on 127.0.0.1:"@ + text::decimal(port as nat)
                + " within "@ + timeout_text@ + "; host forwarding likely failed."@
        } else if !alive {
            r matches WaitStep::Fail { message } && message@ == "QEMU process "@ + text::decimal(
                pid as nat,
            )
                + " exited before SSH became available; host forwarding may have failed."@
        } else if reached {
            r is Ready
        } else {
            r is Pause
        },
{
    if !in_time {
        let n = text::number(port as u64);
        return WaitStep::Fail {
            message: text::cat5(
                "SSH did not become reachable on 127.0.0.1:",
                n.as_str(),
                " within ",
                timeout_text,
                "; host forwarding likely failed.",
            ),
        };
    }
    if !alive {
        let n = text::number(pid as u64);
        return WaitStep::Fail {
            message: text::cat3(
                "QEMU process ",
                n.as_str(),
                " exited before SSH became available; host forwarding may have failed.",
            ),
        };
    }
    if reached {
        WaitStep::Ready
    } else {
        WaitStep::Pause
    }
}

/// What came of the first connection to a machine.
#[derive(Debug)]
pub enum SshCheck {
    PortUnreachable { cause: String },
    NotConnected { cause: String },
    /// The command `hostname` failed.
    HostnameFailed { cause: String },
    /// The command `hostname` gave the output; `running` says whether the machine's process still
    /// runs.
    Answered { output: String, running: bool },
}

/// How a failed check shows: its message, the error behind it, and the note of the step.
pub open spec fn check_fault(check: SshCheck) -> Option<(Seq<char>, Option<Seq<char>>, Seq<char>)> {
    match check {
        SshCheck::PortUnreachable { cause } => Some(
            (
                "QEMU failed to become reachable over forwarded SSH"@,
                Some(cause@),
                "port unreachable"@,
            ),
        ),
        SshCheck::NotConnected { cause } => Some(
            ("Failed to connect to VM via SSH"@, Some(cause@), "connection failed"@),
        ),
        SshCheck::HostnameFailed { cause } => Some(
            ("Failed to verify VM startup"@, Some(cause@), "hostname check failed"@),
        ),
        SshCheck::Answered { running, .. } => if running {
            None
        } else {
            Some(
                (
                    "VM process is not running after startup"@,
                    None,
                    "process not running"@,
                ),
            )
        },
    }
}

/// Judges the first connection to a machine: what it answered, or a failure that takes the machine
/// away again.
pub fn verify_ssh_connection(check: SshCheck, record: &VmRecord, pid: u32, vm_dir: &str) -> (r:
    Result<String, LaunchFailure>)
    ensures
        match r {
            Ok(answer) => check_fault(check) is None && answer@ == check->output@,
            Err(failure) => {
                &&& check_fault(check) == Some(
                    (
                        failure.message@,
                        text::opt_view(failure.cause),
                        failure.note->0@,
                    ),
                )
                &&& failure.note is Some
                &&& removes_machine(failure.cleanup@, pid, 5, record.sidecar_pids@, vm_dir@)
            },
        },
{
    let cleanup = machine_cleanup(pid, 5, &record.sidecar_pids, vm_dir);
    match check {
        SshCheck::PortUnreachable { cause } => Err(
            LaunchFailure {
                message: "QEMU failed to become reachable over forwarded SSH".to_owned(),
                cause: Some(cause),
                note: Some("port unreachable".to_owned()),
                cleanup,
            },
        ),
        SshCheck::NotConnected { cause } => Err(
            LaunchFailure {
                message: "Failed to connect to VM via SSH".to_owned(),
                cause: Some(cause),
                note: Some("connection failed".to_owned()),
                cleanup,
            },
        ),
        SshCheck::HostnameFailed { cause } => Err(
            LaunchFailure {
                message: "Failed to verify VM startup".to_owned(),
                cause: Some(cause),
                note: Some("hostname check failed".to_owned()),
                cleanup,
            },
        ),
        SshCheck::Answered { output, running } => if running {
            Ok(output)
        } else {
            Err(
                LaunchFailure {
                    message: "VM process is not running after startup".to_owned(),
                    cause: None,
                    note: Some("process not running".to_owned()),
                    cleanup,
                },
            )
        },
    }
}

/// A plan keeps what its options say: nothing that the user asks for is replaced, and what the
/// user leaves open gets its usual value.
pub proof fn law_plan_keeps_the_options(plan: RunPlan, options: RunOptions)
    requires
        options_fault(options) is None,
        plans(plan, options),
    ensures
        options.username matches Some(username) ==> plan.username@ == username@,
        options.memory matches Some(memory) ==> plan.memory@ == memory@,
        options.cpus matches Some(cpus) ==> plan.cpus == cpus,
        options.username is None ==> plan.username@ == "ubuntu"@,
        options.memory is None ==> plan.memory@ == "4G"@,
        options.cpus is None ==> plan.cpus == 2,
        plan.mounts@ == options.mounts@,
        plan.verbose <==> options.verbose,
        plan.show_steps <==> options.show_progress && !plan.verbose,
        options.kernel matches Some(kernel) ==> (plan.boot matches Boot::Custom {
            kernel: k,
            rootfs,
        } && k@ == kernel@ && options.rootfs is Some && rootfs@ == options.rootfs->0@),
        options.kernel is None ==> (plan.boot matches Boot::Cloud {
            image_url,
            force_download,
            disk_size,
        } && image_url == options.image_url && force_download == options.force_download
            && disk_size == options.disk_size),
{
}

/// The machine that is started is the machine that is recorded: a login with what the record says
/// goes to the port of the host that QEMU leads to the machine's SSH server, and QEMU is told the
/// name, the memory, the processors, the disk and the seed image of the machine.
pub proof fn law_machine_is_reached_as_recorded(
    c: QemuConfig,
    record: VmRecord,
    launch: Launch,
    slot: Slot,
    key: Seq<char>,
    disk: Seq<char>,
    format: DiskFormat,
    iso: Seq<char>,
    pid: u32,
    running: Seq<VirtioFsShareRuntime>,
    created_at: u64,
)
    requires
        base_config(c, launch, slot, disk, format, iso),
        records(record, launch, slot, key, disk, iso, pid, running, created_at),
    ensures
        ({
            let args = config::qemu_args(c);
            let login = client::login_args(
                "127.0.0.1"@,
                record.ssh_port as nat,
                record.username@,
                record.private_key_path@,
            );
            let port = text::decimal(record.ssh_port as nat);
            &&& text::gives(args, "-netdev"@, "user,id=net0,hostfwd=tcp::"@ + port + "-:22"@)
            &&& text::gives(login, "-p"@, port)
            &&& text::gives(login, "-i"@, key)
            &&& login.last() == launch.plan.username@ + "@"@ + "127.0.0.1"@
            &&& text::gives(args, "-name"@, record.id@)
            &&& text::gives(args, "-m"@, launch.plan.memory@)
            &&& text::gives(args, "-smp"@, text::decimal(launch.plan.cpus as nat))
            &&& text::gives(
                args,
                "-drive"@,
                "file="@ + record.disk_path@ + ",format="@ + (match format {
                    DiskFormat::Qcow2 => "qcow2"@,
                    DiskFormat::Raw => "raw"@,
                }) + ",if=virtio"@,
            )
            &&& text::gives(
                args,
                "-drive"@,
                "file="@ + record.seed_iso_path@ + ",format=raw,if=virtio,media=cdrom"@,
            )
            &&& text::gives(args, "-display"@, "none"@)
            &&& launch.plan.verbose <==> args.last() != "-daemonize"@
            &&& record.pid == Some(pid)
            &&& record.sidecar_pids@.len() == running.len()
            &&& record.status is Running
        }),
        forall|i: int|
            0 <= i < running.len() ==> record.sidecar_pids@[i] == (#[trigger] running[i]).pid,
        exists|pid_file: Seq<char>|
            {
                &&& #[trigger] text::gives(config::qemu_args(c), "-pidfile"@, pid_file)
                &&& slot.vm_dir@.is_prefix_of(pid_file)
                &&& ("qemu.pid"@).is_suffix_of(pid_file)
            },
{
    config::law_command_line_says_what_is_configured(c);
    config::law_command_line_says_nothing_else(c);
    client::law_login_goes_where_it_is_sent(
        "127.0.0.1"@,
        record.ssh_port as nat,
        record.username@,
        record.private_key_path@,
    );
    let pid_file = path::joined(slot.vm_dir@, "qemu.pid"@);
    reveal_strlit("qemu.pid");
    path::lemma_joined_ends(slot.vm_dir@, "qemu.pid"@);
    assert(text::gives(config::qemu_args(c), "-pidfile"@, pid_file));
    reveal_strlit("-daemonize");
    reveal_strlit("stdio");
    assert("-daemonize"@[0] != "stdio"@[0]);
}

/// A machine that boots its user's kernel gets that kernel, no firmware, the disk as its root, and
/// a console on the serial port of its processor. Only two processors have one.
pub proof fn law_custom_kernel_is_booted(c: QemuConfig, launch: Launch)
    requires
        launch.plan.boot is Custom,
        boot_config(c, launch.plan.boot, launch.host),
        kernel_command_line(launch.host.arch@) is Some,
    ensures
        ({
            let args = config::qemu_args(c);
            &&& text::gives(args, "-kernel"@, launch.plan.boot->kernel@)
            &&& c.bios_path is None
            &&& launch.host.arch@ == "x86_64"@ ==> text::gives(
                args,
                "-append"@,
                "root=/dev/vda rw rootfstype=ext4 console=ttyS0"@,
            )
            &&& launch.host.arch@ != "x86_64"@ ==> launch.host.arch@ == "aarch64"@ && text::gives(
                args,
                "-append"@,
                "root=/dev/vda rw rootfstype=ext4 console=ttyAMA0"@,
            )
        }),
{
    config::law_command_line_says_what_is_configured(c);
}

/// A machine that boots a cloud image has no kernel of its own, and the firmware of its host.
pub proof fn law_cloud_image_boots_itself(c: QemuConfig, launch: Launch)
    requires
        launch.plan.boot is Cloud,
        boot_config(c, launch.plan.boot, launch.host),
    ensures
        c.kernel_path is None && c.append is None,
        launch.host.bios_path matches Some(bios) ==> text::gives(
            config::qemu_args(c),
            "-bios"@,
            bios@,
        ),
        launch.host.bios_path is None ==> c.bios_path is None,
{
    config::law_command_line_says_what_is_configured(c);
}

proof fn lemma_all_mount_commands(mounts: Seq<MountSpec>, transport: MountTransport, i: int)
    requires
        0 <= i < mounts.len(),
    ensures
        all_mount_commands(mounts, transport).len() == 2 * mounts.len(),
        all_mount_commands(mounts, transport)[2 * i] == mount_commands(
            i as nat,
            mounts[i],
            transport,
        )[0],
        all_mount_commands(mounts, transport)[2 * i + 1] == mount_commands(
            i as nat,
            mounts[i],
            transport,
        )[1],
    decreases mounts.len(),
{
    let before = mounts.drop_last();
    if before.len() > 0 {
        lemma_all_mount_commands(
            before,
            transport,
            if i < before.len() {
                i
            } else {
                0
            },
        );
        if i < before.len() {
            assert(before[i] == mounts[i]);
        }
    } else {
        assert(all_mount_commands(before, transport).len() == 0);
    }
}

/// Every directory that a plan asks for is mounted by the machine where the plan says, from the
/// directory of the host that the plan names, and it can be written to exactly if the plan says
/// so. On macOS QEMU serves the directory, elsewhere a daemon does; either way under the tag that
/// the machine mounts.
pub proof fn law_directories_are_mounted_as_planned(
    plan: SeedPlan,
    daemons: Seq<VirtioFsDaemon>,
    c: QemuConfig,
    launch: Launch,
    slot: Slot,
    public_key: Seq<char>,
    running: Seq<VirtioFsShareRuntime>,
    i: int,
)
    requires
        seeds(plan, launch, slot, public_key),
        all_serve(daemons, launch, slot),
        share_config(c, launch, running),
        0 <= i < launch.plan.mounts@.len(),
    ensures
        ({
            let mount = launch.plan.mounts@[i];
            let commands = text::views(plan.seed.userdata.runcmd@);
            let make = commands[2 + 2 * i];
            let attach = commands[3 + 2 * i];
            let tag = "vmizefs"@ + text::decimal(i as nat);
            let target = shell::quoted(tag) + " "@ + shell::quoted(mount.guest_path@);
            &&& commands.len() == 2 + 2 * launch.plan.mounts@.len()
            &&& make == "mkdir -p "@ + shell::quoted(mount.guest_path@)
            &&& if launch.host.os@ == "macos"@ {
                &&& attach == (if mount.mode is ReadOnly {
                    "mount -t 9p -o trans=virtio,version=9p2000.L,ro "@
                } else {
                    "mount -t 9p -o trans=virtio,version=9p2000.L "@
                }) + target
                &&& text::gives(
                    config::qemu_args(c),
                    "-virtfs"@,
                    "local,path="@ + mount.host_path@ + ",mount_tag="@ + tag
                        + ",security_model=none"@,
                )
                &&& daemons.len() == 0
            } else {
                &&& attach == (if mount.mode is ReadOnly {
                    "mount -t virtiofs -o ro "@
                } else {
                    "mount -t virtiofs "@
                }) + target
                &&& daemons.len() == launch.plan.mounts@.len()
                &&& daemons[i].tag@ == tag
                &&& text::gives(
                    text::views(daemons[i].args@),
                    "--shared-dir"@,
                    mount.host_path@,
                )
                &&& text::gives(
                    text::views(daemons[i].args@),
                    "--socket-path"@,
                    daemons[i].socket_path@,
                )
                &&& text::gives(text::views(daemons[i].args@), "--sandbox"@, "none"@)
                &&& text::gives(text::views(daemons[i].args@), "--cache"@, "auto"@)
                &&& text::gives(text::views(daemons[i].args@), "--inode-file-handles"@, "never"@)
                &&& slot.vm_dir@.is_prefix_of(daemons[i].socket_path@)
                &&& ("virtiofs-"@ + text::decimal(i as nat) + ".sock"@).is_suffix_of(
                    daemons[i].socket_path@,
                )
                &&& c.virtio_9p_shares@.len() == 0
            }
        }),
{
    let mounts = launch.plan.mounts@;
    let transport = transport_on(launch.host);
    let mount = mounts[i];
    let commands = text::views(plan.seed.userdata.runcmd@);
    lemma_all_mount_commands(mounts, transport, i);
    let rest = all_mount_commands(mounts, transport);
    assert(commands[2 + 2 * i] == rest[2 * i]);
    assert(commands[3 + 2 * i] == rest[2 * i + 1]);
    let tag = "vmizefs"@ + text::decimal(i as nat);
    let target = shell::quoted(tag) + " "@ + shell::quoted(mount.guest_path@);
    let verb = mount_verb(transport, mount.mode);
    assert(rest[2 * i + 1] =~= verb + target);
    if transport is Virtio9p {
        config::law_command_line_says_what_is_configured(c);
        assert(c.virtio_9p_shares@[i].tag@ == tag);
        assert(c.virtio_9p_shares@[i].host_path@ == mount.host_path@);
    } else {
        let daemon = daemons[i];
        assert(serves(daemon, slot.vm_dir@, i as nat, mount));
        let args = text::views(daemon.args@);
        text::lemma_gives(args, 0);
        text::lemma_gives(args, 2);
        text::lemma_gives(args, 4);
        text::lemma_gives(args, 6);
        text::lemma_gives(args, 8);
        let name = "virtiofs-"@ + text::decimal(i as nat) + ".sock"@;
        reveal_strlit("virtiofs-");
        assert(name[0] == 'v');
        path::lemma_joined_ends(slot.vm_dir@, name);
    }
}

/// The shares that QEMU is told of are those of the running daemons: each under its tag, at its
/// socket.
pub proof fn law_running_daemons_are_shared(
    c: QemuConfig,
    launch: Launch,
    running: Seq<VirtioFsShareRuntime>,
    i: int,
)
    requires
        share_config(c, launch, running),
        0 <= i < running.len(),
    ensures
        ({
            let id = "virtiofsch"@ + text::decimal(i as nat);
            &&& text::gives(
                config::qemu_args(c),
                "-chardev"@,
                "socket,id="@ + id + ",path="@ + running[i].socket_path@,
            )
            &&& text::gives(
                config::qemu_args(c),
                "-device"@,
                "vhost-user-fs-pci,chardev="@ + id + ",tag="@ + running[i].tag@,
            )
        }),
{
    config::law_command_line_says_what_is_configured(c);
    assert(c.virtiofs_shares@[i].tag@ == running[i].tag@);
}

/// The seed of a machine lets its user in with the machine's key, starts the SSH server, and runs
/// the commands that mount the machine's directories. Its documents lie in the machine's
/// directory, under the names that cloud-init looks for.
pub proof fn law_seed_lets_the_user_in(
    plan: SeedPlan,
    launch: Launch,
    slot: Slot,
    public_key: Seq<char>,
)
    requires
        seeds(plan, launch, slot, public_key),
    ensures
        ({
            let document = plan.seed.userdata.cloud_config();
            &&& ("#cloud-config\nhostname: vm\n"@).is_prefix_of(document)
            &&& text::occurs_in(
                "users:\n  - name: "@ + launch.plan.username@ + "\n    sudo: "@
                    + "ALL=(ALL) NOPASSWD:ALL"@ + "\n    shell: "@ + "/bin/bash"@
                    + "\n    ssh_authorized_keys:\n      - "@ + public_key + "\n"@
                    + "runcmd:\n  - "@ + "systemctl enable ssh"@ + "\n"@,
                document,
            )
            &&& text::occurs_in("  - "@ + "systemctl start ssh"@ + "\n"@, document)
            &&& forall|i: int|
                0 <= i < all_mount_commands(launch.plan.mounts@, transport_on(launch.host)).len()
                    ==> text::occurs_in(
                    "  - "@ + (#[trigger] all_mount_commands(
                        launch.plan.mounts@,
                        transport_on(launch.host),
                    )[i]) + "\n"@,
                    document,
                )
            &&& plan.seed.metadata.text() == "instance-id: i-vm\nlocal-hostname: vm"@
            &&& slot.vm_dir@.is_prefix_of(plan.metadata_path@) && ("meta-data"@).is_suffix_of(
                plan.metadata_path@,
            )
            &&& slot.vm_dir@.is_prefix_of(plan.userdata_path@) && ("user-data"@).is_suffix_of(
                plan.userdata_path@,
            )
            &&& slot.vm_dir@.is_prefix_of(plan.iso_path@) && ("seed.iso"@).is_suffix_of(
                plan.iso_path@,
            )
        }),
{
    let data = plan.seed.userdata;
    let commands = text::views(data.runcmd@);
    let mounts = all_mount_commands(launch.plan.mounts@, transport_on(launch.host));
    seed::law_user_data_lets_the_user_in(
        data,
        "vm"@,
        launch.plan.username@,
        public_key,
        commands,
    );
    let document = data.cloud_config();
    assert(commands[0] == "systemctl enable ssh"@);
    assert(commands[1] == "systemctl start ssh"@);
    let account = "users:\n  - name: "@ + launch.plan.username@ + "\n    sudo: "@
        + "ALL=(ALL) NOPASSWD:ALL"@ + "\n    shell: "@ + "/bin/bash"@
        + "\n    ssh_authorized_keys:\n      - "@ + public_key + "\n"@;
    assert(account + "runcmd:\n  - "@ + commands[0] + "\n"@ =~= "users:\n  - name: "@
        + launch.plan.username@ + "\n    sudo: "@ + "ALL=(ALL) NOPASSWD:ALL"@ + "\n    shell: "@
        + "/bin/bash"@ + "\n    ssh_authorized_keys:\n      - "@ + public_key + "\n"@
        + "runcmd:\n  - "@ + "systemctl enable ssh"@ + "\n"@);
    assert("  - "@ + commands[1] + "\n"@ =~= "  - "@ + "systemctl start ssh"@ + "\n"@);
    assert forall|i: int| 0 <= i < mounts.len() implies text::occurs_in(
        "  - "@ + (#[trigger] mounts[i]) + "\n"@,
        document,
    ) by {
        assert(commands[i + 2] == mounts[i]);
    }
    reveal_strlit("#cloud-config\nhostname: vm\n");
    reveal_strlit("#cloud-config\nhostname: ");
    reveal_strlit("vm");
    reveal_strlit("\n");
    assert("#cloud-config\nhostname: vm\n"@ =~= "#cloud-config\nhostname: "@ + "vm"@ + "\n"@);
    reveal_strlit("instance-id: i-vm\nlocal-hostname: vm");
    reveal_strlit("instance-id: ");
    reveal_strlit("i-");
    reveal_strlit("\nlocal-hostname: ");
    assert(plan.seed.metadata.text() =~= "instance-id: i-vm\nlocal-hostname: vm"@);
    reveal_strlit("meta-data");
    reveal_strlit("user-data");
    reveal_strlit("seed.iso");
    path::lemma_joined_ends(slot.vm_dir@, "meta-data"@);
    path::lemma_joined_ends(slot.vm_dir@, "user-data"@);
    path::lemma_joined_ends(slot.vm_dir@, "seed.iso"@);
}

/// A machine with a root file system of its user's runs on that file system itself. Any other
/// machine runs on a disk of its own, in its own directory, made from the image that the user or
/// else the host names, and fetches it anew exactly if the user asks for that.
pub proof fn law_disk_comes_from_what_is_asked_for(
    source: ImageSource,
    disk: DiskSource,
    launch: Launch,
    slot: Slot,
    image_path: Seq<char>,
)
    requires
        is_source(source, launch),
        is_disk(disk, launch, slot, image_path),
    ensures
        match launch.plan.boot {
            Boot::Custom { rootfs, .. } => source is Rootfs && source->Rootfs_path@ == rootfs@
                && disk is UseImage && disk->path@ == image_path,
            Boot::Cloud { image_url, force_download, disk_size } => {
                &&& source is Cloud && disk is Copy
                &&& image_url matches Some(url) ==> source->url@ == url@
                &&& image_url is None ==> source->url@ == launch.host.image_url@
                &&& source->force <==> force_download
                &&& downloader::url_file_name(source->url@).is_suffix_of(source->Cloud_path@)
                &&& disk->src@ == image_path
                &&& slot.vm_dir@.is_prefix_of(disk->dest@) && ("disk.qcow2"@).is_suffix_of(
                    disk->dest@,
                )
                &&& disk->size is Some <==> disk_size is Some
                &&& disk_size matches Some(size) ==> disk->size->0@ == size@
            },
        },
{
    reveal_strlit("disk.qcow2");
    path::lemma_joined_ends(slot.vm_dir@, "disk.qcow2"@);
    if let Boot::Cloud { image_url, .. } = launch.plan.boot {
        let from = text_or(image_url, launch.host.image_url@);
        path::lemma_joined_ends(launch.images_dir@, downloader::url_file_name(from));
    }
}

/// A start that fails after QEMU runs leaves nothing behind: the machine's process is stopped, its
/// daemons are stopped, and its directory is removed, in this order.
pub proof fn law_failed_start_leaves_nothing(
    cleanup: Seq<Cleanup>,
    record: VmRecord,
    pid: u32,
    seconds: u64,
    dir: Seq<char>,
)
    requires
        removes_machine(cleanup, pid, seconds, record.sidecar_pids@, dir),
    ensures
        cleanup.len() == 3,
        cleanup[0] is StopQemu && cleanup[0]->pid == pid && cleanup[0]->seconds == seconds,
        cleanup[1] is StopSidecars && forall|i: int|
            0 <= i < record.sidecar_pids@.len() ==> cleanup[1]->pids@.contains(
                #[trigger] record.sidecar_pids@[i],
            ),
        cleanup[2] is RemoveDir && cleanup[2]->dir@ == dir,
{
    assert forall|i: int| 0 <= i < record.sidecar_pids@.len() implies cleanup[1]->pids@.contains(
        #[trigger] record.sidecar_pids@[i],
    ) by {
        assert(cleanup[1]->pids@[i] == record.sidecar_pids@[i]);
    }
}

/// The first connection succeeds exactly if the machine has answered and still runs; a failure
/// with an error behind it shows that error.
pub proof fn law_only_a_running_answer_is_success(check: SshCheck)
    ensures
        check_fault(check) is None <==> check is Answered && check->running,
        check matches SshCheck::PortUnreachable { cause } ==> (check_fault(check)->0).1 == Some(
            cause@,
        ),
        check matches SshCheck::NotConnected { cause } ==> (check_fault(check)->0).1 == Some(
            cause@,
        ),
        check matches SshCheck::HostnameFailed { cause } ==> (check_fault(check)->0).1 == Some(
            cause@,
        ),
        check is Answered && !check->running ==> (check_fault(check)->0).1 is None,
{
}

/// An emulated machine is given more time and more attempts than one that runs on the host's
/// processor.
pub proof fn law_emulated_machines_get_more_patience(emulated: HostProfile, native: HostProfile)
    requires
        text::occurs_in("accel=tcg"@, emulated.machine_type@),
        !text::occurs_in("accel=tcg"@, native.machine_type@),
    ensures
        patience_with(emulated).port_seconds == 4 * patience_with(native).port_seconds,
        patience_with(emulated).attempts > 2 * patience_with(native).attempts,
        patience_with(native).port_seconds == 30,
        patience_with(native).attempts == 12,
        patience_with(emulated).attempts == 30,
{
}

/// Whether `step` is the next one of waiting for a virtiofs daemon's socket.
pub open spec fn waits_for_socket(
    step: WaitStep,
    pid: u32,
    socket_path: Seq<char>,
    socket_exists: bool,
    alive: bool,
    in_time: bool,
) -> bool {
    if !in_time {
        step matches WaitStep::Fail { message } && message@
            == "Timed out waiting for virtiofs socket "@ + socket_path
    } else if socket_exists {
        step is Ready
    } else if !alive {
        step matches WaitStep::Fail { message } && message@ == "virtiofsd process "@
            + text::decimal(pid as nat) + " exited before creating socket "@ + socket_path
    } else {
        step is Pause
    }
}

/// A daemon's socket is waited for as long as the daemon lives and there is time. The message for
/// one that does not come names the socket.
pub proof fn law_socket_is_waited_for(
    step: WaitStep,
    pid: u32,
    socket_path: Seq<char>,
    socket_exists: bool,
    alive: bool,
    in_time: bool,
)
    requires
        waits_for_socket(step, pid, socket_path, socket_exists, alive, in_time),
    ensures
        step is Ready <==> in_time && socket_exists,
        step is Pause <==> in_time && !socket_exists && alive,
        step is Fail ==> socket_path.is_suffix_of(step->message@),
        step is Fail && in_time ==> ("virtiofsd process "@ + text::decimal(
            pid as nat,
        )).is_prefix_of(step->message@),
        step is Fail && !in_time ==> ("Timed out"@).is_prefix_of(step->message@),
{
    if step is Fail {
        let message = step->message@;
        let n = message.len() as int;
        assert(socket_path =~= message.subrange(n - socket_path.len(), n));
        if in_time {
            let head = "virtiofsd process "@ + text::decimal(pid as nat);
            assert(head =~= message.subrange(0, head.len() as int));
        } else {
            reveal_strlit("Timed out");
            reveal_strlit("Timed out waiting for virtiofs socket ");
            assert("Timed out"@ =~= message.subrange(0, 9));
        }
    }
}

/// Whether `step` is the next one of waiting for a machine's SSH port.
pub open spec fn waits_for_port(
    step: WaitStep,
    pid: u32,
    port: u16,
    alive: bool,
    reached: bool,
    in_time: bool,
    timeout_text: Seq<char>,
) -> bool {
    if !in_time {
        step matches WaitStep::Fail { message } && message@
            == "SSH did not become reachable on 127.0.0.1:"@ + text::decimal(port as nat)
            + " within "@ + timeout_text + "; host forwarding likely failed."@
    } else if !alive {
        step matches WaitStep::Fail { message } && message@ == "QEMU process "@ + text::decimal(
            pid as nat,
        )
            + " exited before SSH became available; host forwarding may have failed."@
    } else if reached {
        step is Ready
    } else {
        step is Pause
    }
}

/// A machine's port is waited for as long as the machine lives and there is time; a machine that
/// has ended is never taken for one that answers. The message for one that does not come names the
/// port or the process.
pub proof fn law_port_is_waited_for(
    step: WaitStep,
    pid: u32,
    port: u16,
    alive: bool,
    reached: bool,
    in_time: bool,
    timeout_text: Seq<char>,
)
    requires
        waits_for_port(step, pid, port, alive, reached, in_time, timeout_text),
    ensures
        step is Ready <==> in_time && alive && reached,
        step is Pause <==> in_time && alive && !reached,
        step is Fail && !in_time ==> ("SSH did not become reachable on 127.0.0.1:"@ + text::decimal(
            port as nat,
        ) + " within "@ + timeout_text).is_prefix_of(step->message@),
        step is Fail && in_time ==> ("QEMU process "@ + text::decimal(pid as nat)
            + " exited before SSH became available"@).is_prefix_of(step->message@),
{
    if step is Fail {
        let message = step->message@;
        if in_time {
            reveal_strlit(" exited before SSH became available");
            reveal_strlit(" exited before SSH became available; host forwarding may have failed.");
            let head = "QEMU process "@ + text::decimal(pid as nat)
                + " exited before SSH became available"@;
            assert(head =~= message.subrange(0, head.len() as int));
        } else {
            let head = "SSH did not become reachable on 127.0.0.1:"@ + text::decimal(port as nat)
                + " within "@ + timeout_text;
            assert(head =~= message.subrange(0, head.len() as int));
        }
    }
}

/// The next step of stopping daemons that were asked to end.
pub open spec fn sidecar_step(alive: Seq<bool>, in_time: bool) -> SidecarStep {
    if !in_time {
        SidecarStep::KillRest
    } else if alive.contains(true) {
        SidecarStep::Pause
    } else {
        SidecarStep::AllGone
    }
}

/// Daemons that were asked to end get their time; then those that are left are killed.
pub proof fn law_daemons_get_their_time(alive: Seq<bool>, in_time: bool)
    ensures
        sidecar_step(alive, in_time) == SidecarStep::AllGone <==> in_time && forall|i: int|
            0 <= i < alive.len() ==> !#[trigger] alive[i],
        sidecar_step(alive, in_time) == SidecarStep::KillRest <==> !in_time,
{
    if alive.contains(true) {
        let i = choose|i: int| 0 <= i < alive.len() && alive[i] == true;
        assert(alive[i]);
    } else {
        assert forall|i: int| 0 <= i < alive.len() implies !#[trigger] alive[i] by {
            if alive[i] {
                assert(alive.contains(alive[i]));
            }
        }
    }
}

/// Whether `r` is the virtiofs daemon that is picked.
pub open spec fn is_virtiofsd(
    r: Option<String>,
    virtiofsd: Option<String>,
    qemu_virtiofsd: Option<String>,
    homebrew_is_file: bool,
) -> bool {
    if virtiofsd is Some {
        r == virtiofsd
    } else if qemu_virtiofsd is Some {
        r == qemu_virtiofsd
    } else if homebrew_is_file {
        text::opt_view(r) == Some("/opt/homebrew/libexec/virtiofsd"@)
    } else {
        r is None
    }
}

/// A virtiofs daemon is found exactly if there is one, and the usual one is taken before any other.
pub proof fn law_usual_daemon_is_preferred(
    r: Option<String>,
    virtiofsd: Option<String>,
    qemu_virtiofsd: Option<String>,
    homebrew_is_file: bool,
)
    requires
        is_virtiofsd(r, virtiofsd, qemu_virtiofsd, homebrew_is_file),
    ensures
        r is Some <==> virtiofsd is Some || qemu_virtiofsd is Some || homebrew_is_file,
        virtiofsd is Some ==> r->0@ == virtiofsd->0@,
        virtiofsd is None && qemu_virtiofsd is Some ==> r->0@ == qemu_virtiofsd->0@,
        virtiofsd is None && qemu_virtiofsd is None && homebrew_is_file ==> r->0@
            == "/opt/homebrew/libexec/virtiofsd"@,
{
}

/// A machine's process is looked up in the file that QEMU is told to write its number to, and the
/// machine's directory, its name and its port all have the machine's number.
pub proof fn law_place_of_a_machine(
    c: QemuConfig,
    launch: Launch,
    slot: Slot,
    index: nat,
    disk: Seq<char>,
    format: DiskFormat,
    iso: Seq<char>,
)
    requires
        slot_at(slot, launch.instances_dir@, index),
        base_config(c, launch, slot, disk, format, iso),
        index <= u32::MAX,
    ensures
        text::gives(
            config::qemu_args(c),
            "-pidfile"@,
            record::pid_file(launch.instances_dir@, slot.vm_id@),
        ),
        text::gives(config::qemu_args(c), "-name"@, slot.vm_id@),
        record::vm_index(slot.vm_id@) == Some(index),
        slot.ssh_port == 2220 + index,
        index < 10,
        slot.vm_id@.is_suffix_of(slot.vm_dir@),
{
    config::law_command_line_says_what_is_configured(c);
    record::law_id_keeps_index(index);
    path::lemma_joined_ends(launch.instances_dir@, record::vm_id(index));
}

/// Whether `r` is what the creation of a machine's directory is judged as.
pub open spec fn judges_dir(r: Result<(), String>, vm_dir: Seq<char>, outcome: DirOutcome) -> bool {
    match outcome {
        DirOutcome::Created => r is Ok,
        DirOutcome::AlreadyExists => r matches Err(message) && message@ == "VM directory "@ + vm_dir
            + " already exists - this should not happen with sequential IDs"@,
        DirOutcome::Failed { reason } => r matches Err(message) && message@
            == "Failed to create VM directory "@ + vm_dir + ": "@ + reason@,
    }
}

/// A machine gets a directory exactly if the directory was made for it: one that was there before
/// is never taken for its own. A message names the directory.
pub proof fn law_directory_is_made_for_its_machine(
    r: Result<(), String>,
    vm_dir: Seq<char>,
    outcome: DirOutcome,
)
    requires
        judges_dir(r, vm_dir, outcome),
    ensures
        r is Ok <==> outcome is Created,
        outcome is AlreadyExists ==> ("VM directory "@ + vm_dir).is_prefix_of(r->Err_0@),
        outcome is Failed ==> ("Failed to create VM directory "@ + vm_dir).is_prefix_of(r->Err_0@)
            && outcome->reason@.is_suffix_of(r->Err_0@),
{
    match outcome {
        DirOutcome::AlreadyExists => {
            text::lemma_ends(
                "VM directory "@,
                vm_dir,
                " already exists - this should not happen with sequential IDs"@,
            );
        },
        DirOutcome::Failed { reason } => {
            let head = "Failed to create VM directory "@;
            text::lemma_ends(head, vm_dir, ": "@ + reason@);
            assert(head + vm_dir + (": "@ + reason@) =~= r->Err_0@);
            let n = r->Err_0@.len() as int;
            assert(reason@ =~= r->Err_0@.subrange(n - reason@.len(), n));
        },
        DirOutcome::Created => {},
    }
}

/// The steps of a start, of which there are eight, are told apart by their titles.
pub proof fn law_steps_are_told_apart(a: u8, b: u8)
    requires
        1 <= a <= LAUNCH_STEPS,
        1 <= b <= LAUNCH_STEPS,
    ensures
        step_name(a) == step_name(b) ==> a == b,
        step_name(1) == "Host profile"@ && step_name(2) == "Directories"@,
        step_name(3) == "Cloud image"@ && step_name(4) == "SSH key pair"@,
        step_name(5) == "Cloud-init seed"@ && step_name(6) == "Disk image"@,
        step_name(7) == "Starting QEMU"@ && step_name(LAUNCH_STEPS) == "SSH connected"@,
{
    reveal_strlit("Host profile");
    reveal_strlit("Directories");
    reveal_strlit("Cloud image");
    reveal_strlit("SSH key pair");
    reveal_strlit("Cloud-init seed");
    reveal_strlit("Disk image");
    reveal_strlit("Starting QEMU");
    reveal_strlit("SSH connected");
    assert("Host profile"@.len() == 12 && "SSH key pair"@.len() == 12);
    assert("Host profile"@[0] == 'H' && "SSH key pair"@[0] == 'S');
    assert("Directories"@.len() == 11 && "Cloud image"@.len() == 11);
    assert("Directories"@[0] == 'D' && "Cloud image"@[0] == 'C');
    assert("Cloud-init seed"@.len() == 15 && "Disk image"@.len() == 10);
    assert("Starting QEMU"@.len() == 13 && "SSH connected"@.len() == 13);
    assert("Starting QEMU"@[1] == 't' && "SSH connected"@[1] == 'S');
}

} // verus!
