//! What has to hold before a task's machine is started, and the machine that the task gets.

use vstd::prelude::*;

use crate::path;
use crate::path::PathKind;
use crate::task;
use crate::task::{LoadedTask, TaskVmBoot, TaskVmConfig, TaskVmMount, TaskVmMountMode};
use crate::text;
use crate::vm::image::disk;
use crate::vm::mount::{MountMode, MountSpec};
use crate::worker::error::{runtime, Error};
use crate::worker::kernel_config;
use crate::worker::kernel_config::{KernelConfigRequirement, KernelConfigValue};
use crate::worker::vm_ops::VmOptions;

verus! {

/// What the caller of a run decides.
#[derive(Debug)]
pub struct TaskRunOptions {
    /// The disk size; it takes the place of the one that the task declares.
    pub disk_size: Option<String>,
    /// Whether the start of the machine is shown on the terminal.
    pub show_progress: bool,
}

impl Default for TaskRunOptions {
    fn default() -> (r: Self)
        ensures
            r.disk_size is None,
            r.show_progress,
    {
        TaskRunOptions { disk_size: None, show_progress: true }
    }
}

impl Clone for TaskRunOptions {
    fn clone(&self) -> (r: Self)
        ensures
            r == *self,
    {
        TaskRunOptions { disk_size: self.disk_size.clone(), show_progress: self.show_progress }
    }
}

/// The directory of a task, which is where its output directory lies.
pub open spec fn task_dir_of(task: LoadedTask) -> Option<Seq<char>> {
    path::parent_of(task.output_dir@)
}

/// The path that a value of the machine's configuration stands for, for its kind to be looked up.
pub fn vm_config_path(task: &LoadedTask, value: &str) -> (r: Option<String>)
    ensures
        text::opt_view(r) == (match task_dir_of(*task) {
            Some(dir) => Some(path::joined(dir, value@)),
            None => None,
        }),
{
    match path::parent(task.output_dir.as_str()) {
        Some(dir) => Some(path::join(dir.as_str(), value)),
        None => None,
    }
}

/// The file that a value of the machine's configuration stands for, or why it is refused.
pub open spec fn config_file(
    task: LoadedTask,
    field: Seq<char>,
    value: Seq<char>,
    kind: PathKind,
) -> Result<Seq<char>, Seq<char>> {
    match task_dir_of(task) {
        None => Err("Failed to resolve task directory for "@ + field),
        Some(dir) => {
            let at = path::joined(dir, value);
            if kind is Missing {
                Err(field + " path does not exist: "@ + at)
            } else if !(kind is File) {
                Err(field + " path is not a file: "@ + at)
            } else {
                Ok(at)
            }
        },
    }
}

/// Finds the file that a value of the machine's configuration stands for. `kind` says what its
/// path leads to.
pub fn resolve_vm_config_path(task: &LoadedTask, field: &str, value: &str, kind: PathKind) -> (r:
    Result<String, Error>)
    ensures
        match r {
            Ok(found) => config_file(*task, field@, value@, kind) == Ok::<Seq<char>, Seq<char>>(
                found@,
            ),
            Err(err) => config_file(*task, field@, value@, kind) matches Err(message)
                && err.is_runtime(message),
        },
{
    let at = match vm_config_path(task, value) {
        Some(at) => at,
        None => return Err(runtime(text::cat2("Failed to resolve task directory for ", field))),
    };
    if !kind.is_found() {
        return Err(runtime(text::cat3(field, " path does not exist: ", at.as_str())));
    }
    if !kind.is_file() {
        return Err(runtime(text::cat3(field, " path is not a file: ", at.as_str())));
    }
    Ok(at)
}

/// Why the mount at position `index` is refused when its task runs.
pub open spec fn mount_fault(
    task_dir: Seq<char>,
    mount: TaskVmMount,
    index: nat,
    kind: PathKind,
) -> Option<Seq<char>> {
    let host = path::joined(task_dir, mount.host@);
    if kind is Missing {
        Some(task::mount_label(index) + ".host path does not exist: "@ + host)
    } else if !(kind is Directory) {
        Some(task::mount_label(index) + ".host path is not a directory: "@ + host)
    } else if !path::absolute(mount.guest@) {
        Some(task::mount_label(index) + ".guest path is not absolute: "@ + mount.guest@)
    } else {
        None
    }
}

/// The fault of the first mount that is refused.
pub open spec fn mounts_fault(
    task_dir: Seq<char>,
    mounts: Seq<TaskVmMount>,
    kinds: Seq<PathKind>,
) -> Option<Seq<char>>
    decreases mounts.len(),
{
    if mounts.len() == 0 {
        None
    } else {
        task::either(
            mounts_fault(task_dir, mounts.drop_last(), kinds),
            mount_fault(
                task_dir,
                mounts.last(),
                (mounts.len() - 1) as nat,
                task::kind_at(kinds, mounts.len() - 1),
            ),
        )
    }
}

/// Whether a mount is the one that a task declares.
pub open spec fn mount_of(spec: MountSpec, task_dir: Seq<char>, mount: TaskVmMount) -> bool {
    &&& spec.host_path@ == path::joined(task_dir, mount.host@)
    &&& spec.guest_path@ == mount.guest@
    &&& spec.mode == (match mount.mode {
        TaskVmMountMode::ReadOnly => MountMode::ReadOnly,
        TaskVmMountMode::ReadWrite => MountMode::ReadWrite,
    })
}

/// Whether mounts are those that a task declares, in their order.
pub open spec fn mounts_of(
    specs: Seq<MountSpec>,
    task_dir: Seq<char>,
    mounts: Seq<TaskVmMount>,
) -> bool {
    &&& specs.len() == mounts.len()
    &&& forall|i: int|
        0 <= i < specs.len() ==> mount_of(#[trigger] specs[i], task_dir, mounts[i])
}

proof fn lemma_mounts_fault_stays(
    task_dir: Seq<char>,
    mounts: Seq<TaskVmMount>,
    kinds: Seq<PathKind>,
    n: int,
)
    requires
        0 <= n <= mounts.len(),
        mounts_fault(task_dir, mounts.take(n), kinds) is Some,
    ensures
        mounts_fault(task_dir, mounts, kinds) == mounts_fault(task_dir, mounts.take(n), kinds),
    decreases mounts.len(),
{
    if n < mounts.len() {
        assert(mounts.drop_last().take(n) =~= mounts.take(n));
        lemma_mounts_fault_stays(task_dir, mounts.drop_last(), kinds, n);
    } else {
        assert(mounts.take(n) =~= mounts);
    }
}

/// The mounts of a machine, or why they are refused.
pub open spec fn all_mounts_fault(
    task: LoadedTask,
    mounts: Seq<TaskVmMount>,
    kinds: Seq<PathKind>,
) -> Option<Seq<char>> {
    if mounts.len() == 0 {
        None
    } else {
        match task_dir_of(task) {
            None => Some("Failed to resolve task directory for vm.mounts"@),
            Some(dir) => mounts_fault(dir, mounts, kinds),
        }
    }
}

/// Finds the host directories that a task wants to see in its machine. `kinds` says what the path
/// of each leads to.
pub fn resolve_vm_mounts(task: &LoadedTask, mounts: &Vec<TaskVmMount>, kinds: &[PathKind]) -> (r:
    Result<Vec<MountSpec>, Error>)
    ensures
        match r {
            Ok(specs) => {
                &&& all_mounts_fault(*task, mounts@, kinds@) is None
                &&& mounts@.len() == 0 ==> specs@.len() == 0
                &&& mounts@.len() > 0 ==> mounts_of(specs@, task_dir_of(*task)->0, mounts@)
            },
            Err(err) => all_mounts_fault(*task, mounts@, kinds@) matches Some(message)
                && err.is_runtime(message),
        },
{
    let mut out: Vec<MountSpec> = Vec::new();
    if mounts.len() == 0 {
        return Ok(out);
    }
    let task_dir = match path::parent(task.output_dir.as_str()) {
        Some(dir) => dir,
        None => {
            return Err(runtime("Failed to resolve task directory for vm.mounts".to_owned()));
        },
    };
    let ghost dir = task_dir@;
    let mut i: usize = 0;
    while i < mounts.len()
        invariant
            i <= mounts.len(),
            mounts@.len() > 0,
            dir == task_dir@,
            task_dir_of(*task) == Some(dir),
            mounts_fault(dir, mounts@.take(i as int), kinds@) is None,
            out@.len() == i,
            forall|j: int| 0 <= j < i ==> mount_of(#[trigger] out@[j], dir, mounts@[j]),
        decreases mounts.len() - i,
    {
        let mount = &mounts[i];
        let label = task::mount_name(i);
        let kind = if i < kinds.len() {
            kinds[i]
        } else {
            PathKind::Missing
        };
        proof {
            assert(mounts@.take(i + 1).drop_last() =~= mounts@.take(i as int));
            assert(mounts@.take(i + 1).last() == *mount);
            if mounts_fault(dir, mounts@.take(i + 1), kinds@) is Some {
                lemma_mounts_fault_stays(dir, mounts@, kinds@, i + 1);
            }
        }
        let host_path = path::join(task_dir.as_str(), mount.host.as_str());
        if !kind.is_found() {
            return Err(
                runtime(
                    text::cat3(
                        label.as_str(),
                        ".host path does not exist: ",
                        host_path.as_str(),
                    ),
                ),
            );
        }
        if !kind.is_dir() {
            return Err(
                runtime(
                    text::cat3(
                        label.as_str(),
                        ".host path is not a directory: ",
                        host_path.as_str(),
                    ),
                ),
            );
        }
        if !path::is_absolute(mount.guest.as_str()) {
            return Err(
                runtime(
                    text::cat3(
                        label.as_str(),
                        ".guest path is not absolute: ",
                        mount.guest.as_str(),
                    ),
                ),
            );
        }
        let mode = match mount.mode {
            TaskVmMountMode::ReadOnly => MountMode::ReadOnly,
            TaskVmMountMode::ReadWrite => MountMode::ReadWrite,
        };
        out.push(MountSpec { host_path, guest_path: mount.guest.clone(), mode });
        i = i + 1;
    }
    assert(mounts@.take(i as int) =~= mounts@);
    Ok(out)
}

/// What the host says about the paths that a task's machine needs.
#[derive(Debug)]
pub struct LaunchFacts {
    /// What the path of each mount leads to.
    pub mounts: Vec<PathKind>,
    pub kernel: PathKind,
    pub rootfs: PathKind,
}

/// The machine that a task gets, and what to do to its root file system first.
#[derive(Debug)]
pub struct LaunchPlan {
    pub vm_options: VmOptions,
    /// The root file system image that has to be cloned; the clone takes its place.
    pub clone_from: Option<String>,
    /// The size that the root file system image has to get.
    pub resize_to: Option<String>,
}

/// The disk size that counts: the caller's, or else the task's.
pub open spec fn effective_disk_size(options: TaskRunOptions, task: LoadedTask) -> Option<Seq<char>> {
    if options.disk_size is Some {
        text::opt_view(options.disk_size)
    } else {
        text::opt_view(task.definition.disk_size)
    }
}

/// The mounts that a task declares.
pub open spec fn declared_mounts(task: LoadedTask) -> Seq<TaskVmMount> {
    match task.definition.vm {
        Some(vm) => vm.mounts@,
        None => seq![],
    }
}

/// Why a custom machine is refused.
pub open spec fn custom_fault(
    task: LoadedTask,
    vm: TaskVmConfig,
    size: Option<Seq<char>>,
    facts: LaunchFacts,
) -> Option<Seq<char>> {
    if vm.kernel is None {
        Some("vm.kernel is required for vm.boot='custom'"@)
    } else if vm.rootfs is None {
        Some("vm.rootfs is required for vm.boot='custom'"@)
    } else {
        match config_file(task, "vm.kernel"@, vm.kernel->0@, facts.kernel) {
            Err(message) => Some(message),
            Ok(_) => match config_file(task, "vm.rootfs"@, vm.rootfs->0@, facts.rootfs) {
                Err(message) => Some(message),
                Ok(_) => if size is Some && !vm.clone_rootfs {
                    Some("custom VM boot requires vm.clone_rootfs=true when disk_size is set"@)
                } else {
                    None
                },
            },
        }
    }
}

/// Why a task's machine is refused.
pub open spec fn launch_fault(
    task: LoadedTask,
    options: TaskRunOptions,
    facts: LaunchFacts,
) -> Option<Seq<char>> {
    match all_mounts_fault(task, declared_mounts(task), facts.mounts@) {
        Some(message) => Some(message),
        None => match task.definition.vm {
            None => None,
            Some(vm) => match vm.boot {
                TaskVmBoot::Ubuntu => None,
                TaskVmBoot::Custom => custom_fault(
                    task,
                    vm,
                    effective_disk_size(options, task),
                    facts,
                ),
            },
        },
    }
}

/// Whether the options have the mounts that a task declares.
pub open spec fn mounts_planned(plan: LaunchPlan, task: LoadedTask) -> bool {
    let mounts = declared_mounts(task);
    if mounts.len() == 0 {
        plan.vm_options.mounts@.len() == 0
    } else {
        mounts_of(plan.vm_options.mounts@, task_dir_of(task)->0, mounts)
    }
}

/// Whether a plan is that of a machine with the standard image.
pub open spec fn plans_ubuntu(plan: LaunchPlan, size: Option<Seq<char>>) -> bool {
    &&& text::opt_view(plan.vm_options.disk_size) == size
    &&& plan.vm_options.kernel is None
    &&& plan.vm_options.rootfs is None
    &&& plan.clone_from is None
    &&& plan.resize_to is None
}

/// Whether a plan is that of a machine with its own kernel and root file system. Its disk size is
/// given to a clone of the root file system, never to the machine.
pub open spec fn plans_custom(
    plan: LaunchPlan,
    task_dir: Seq<char>,
    vm: TaskVmConfig,
    size: Option<Seq<char>>,
) -> bool {
    let rootfs = path::joined(task_dir, vm.rootfs->0@);
    &&& plan.vm_options.disk_size is None
    &&& text::opt_view(plan.vm_options.kernel) == Some(path::joined(task_dir, vm.kernel->0@))
    &&& text::opt_view(plan.vm_options.rootfs) == Some(rootfs)
    &&& text::opt_view(plan.clone_from) == (if vm.clone_rootfs {
        Some(rootfs)
    } else {
        None
    })
    &&& text::opt_view(plan.resize_to) == disk::wanted_size(size)
}

/// Whether `plan` is the machine of an accepted task.
pub open spec fn plans_launch(
    plan: LaunchPlan,
    task: LoadedTask,
    options: TaskRunOptions,
) -> bool {
    let size = effective_disk_size(options, task);
    &&& plan.vm_options.show_progress == options.show_progress
    &&& mounts_planned(plan, task)
    &&& match task.definition.vm {
        None => plans_ubuntu(plan, size),
        Some(vm) => match vm.boot {
            TaskVmBoot::Ubuntu => plans_ubuntu(plan, size),
            TaskVmBoot::Custom => plans_custom(plan, task_dir_of(task)->0, vm, size),
        },
    }
}

fn plan_custom(
    task: &LoadedTask,
    vm: &TaskVmConfig,
    size: Option<String>,
    mounts: Vec<MountSpec>,
    show_progress: bool,
    facts: &LaunchFacts,
) -> (r: Result<LaunchPlan, Error>)
    ensures
        match r {
            Ok(plan) => {
                &&& custom_fault(*task, *vm, text::opt_view(size), *facts) is None
                &&& plan.vm_options.show_progress == show_progress
                &&& plan.vm_options.mounts == mounts
                &&& plans_custom(plan, task_dir_of(*task)->0, *vm, text::opt_view(size))
            },
            Err(err) => custom_fault(*task, *vm, text::opt_view(size), *facts) matches Some(message)
                && err.is_runtime(message),
        },
{
    let kernel_value = match &vm.kernel {
        Some(value) => value,
        None => return Err(runtime("vm.kernel is required for vm.boot='custom'".to_owned())),
    };
    let rootfs_value = match &vm.rootfs {
        Some(value) => value,
        None => return Err(runtime("vm.rootfs is required for vm.boot='custom'".to_owned())),
    };
    let kernel = match resolve_vm_config_path(
        task,
        "vm.kernel",
        kernel_value.as_str(),
        facts.kernel,
    ) {
        Ok(found) => found,
        Err(err) => return Err(err),
    };
    let rootfs = match resolve_vm_config_path(
        task,
        "vm.rootfs",
        rootfs_value.as_str(),
        facts.rootfs,
    ) {
        Ok(found) => found,
        Err(err) => return Err(err),
    };
    if size.is_some() && !vm.clone_rootfs {
        return Err(
            runtime(
                "custom VM boot requires vm.clone_rootfs=true when disk_size is set".to_owned(),
            ),
        );
    }
    let clone_from = if vm.clone_rootfs {
        Some(rootfs.clone())
    } else {
        None
    };
    let resize_to = match &size {
        None => None,
        Some(wanted) => {
            let trimmed = text::trim(wanted.as_str());
            if trimmed.as_str().is_empty() {
                None
            } else {
                Some(trimmed)
            }
        },
    };
    Ok(
        LaunchPlan {
            vm_options: VmOptions {
                disk_size: None,
                kernel: Some(kernel),
                rootfs: Some(rootfs),
                mounts,
                show_progress,
            },
            clone_from,
            resize_to,
        },
    )
}

/// Plans a task's machine. The caller's disk size takes the place of the task's.
pub fn prepare_vm_launch_options(task: &LoadedTask, options: &TaskRunOptions, facts: &LaunchFacts) -> (r:
    Result<LaunchPlan, Error>)
    ensures
        match r {
            Ok(plan) => launch_fault(*task, *options, *facts) is None && plans_launch(
                plan,
                *task,
                *options,
            ),
            Err(err) => launch_fault(*task, *options, *facts) matches Some(message)
                && err.is_runtime(message),
        },
{
    let size = match &options.disk_size {
        Some(size) => Some(size.clone()),
        None => task.definition.disk_size.clone(),
    };
    assert(text::opt_view(size) == effective_disk_size(*options, *task));
    let mounts = match &task.definition.vm {
        Some(vm) => match resolve_vm_mounts(task, &vm.mounts, &facts.mounts) {
            Ok(mounts) => mounts,
            Err(err) => return Err(err),
        },
        None => Vec::new(),
    };
    if let Some(vm) = &task.definition.vm {
        if let TaskVmBoot::Custom = vm.boot {
            return plan_custom(task, vm, size, mounts, options.show_progress, facts);
        }
    }
    Ok(
        LaunchPlan {
            vm_options: VmOptions {
                disk_size: size,
                kernel: None,
                rootfs: None,
                mounts,
                show_progress: options.show_progress,
            },
            clone_from: None,
            resize_to: None,
        },
    )
}

/// A custom machine is accepted when its task is loaded only if it has the kernel and the root file
/// system that it needs when the task runs.
pub proof fn law_loaded_custom_machine_is_complete(
    task: LoadedTask,
    vm: TaskVmConfig,
    size: Option<Seq<char>>,
    facts: LaunchFacts,
)
    requires
        task::vm_config_fault(vm) is None,
        vm.boot is Custom,
        task_dir_of(task) is Some,
        facts.kernel is File,
        facts.rootfs is File,
    ensures
        custom_fault(task, vm, size, facts) is Some <==> size is Some && !vm.clone_rootfs,
{
}

impl LaunchPlan {
    /// Puts a clone in the place of the root file system image.
    pub fn use_clone(&mut self, clone: &str)
        ensures
            text::opt_view(final(self).vm_options.rootfs) == Some(clone@),
            final(self).vm_options == (VmOptions {
                rootfs: final(self).vm_options.rootfs,
                ..old(self).vm_options
            }),
            final(self).clone_from == old(self).clone_from,
            final(self).resize_to == old(self).resize_to,
    {
        self.vm_options.rootfs = Some(clone.to_owned());
    }
}

/// The error for a root file system image that could not be cloned.
pub fn clone_failed(from: &str, to: &str, reason: &str) -> (r: Error)
    ensures
        r.is_runtime("Failed to clone custom rootfs "@ + from@ + " to "@ + to@ + ": "@ + reason@),
{
    runtime(text::cat6("Failed to clone custom rootfs ", from, " to ", to, ": ", reason))
}

/// What came of `qemu-img resize`.
#[derive(Debug)]
pub enum ResizeOutcome {
    Resized,
    /// The tool could not be run.
    NotRun { reason: String },
    Failed { stderr: String },
}

/// Judges what came of giving an image a size.
pub fn resize_rootfs_image(rootfs: &str, size: &str, outcome: &ResizeOutcome) -> (r: Result<
    (),
    Error,
>)
    ensures
        judges_resize(r, rootfs@, size@, *outcome),
        match *outcome {
            ResizeOutcome::Resized => r is Ok,
            ResizeOutcome::NotRun { reason } => r matches Err(err) && err.is_runtime(
                "Failed to execute qemu-img resize for "@ + rootfs@ + ": "@ + reason@,
            ),
            ResizeOutcome::Failed { stderr } => r matches Err(err) && err.is_runtime(
                "qemu-img resize failed for "@ + rootfs@ + " to "@ + size@ + ": "@ + text::trimmed(
                    stderr@,
                ),
            ),
        },
{
    match outcome {
        ResizeOutcome::Resized => Ok(()),
        ResizeOutcome::NotRun { reason } => Err(
            runtime(
                text::cat4(
                    "Failed to execute qemu-img resize for ",
                    rootfs,
                    ": ",
                    reason.as_str(),
                ),
            ),
        ),
        ResizeOutcome::Failed { stderr } => {
            let stderr = text::trim(stderr.as_str());
            Err(
                runtime(
                    text::cat6(
                        "qemu-img resize failed for ",
                        rootfs,
                        " to ",
                        size,
                        ": ",
                        stderr.as_str(),
                    ),
                ),
            )
        },
    }
}

/// What makes the names of temporary files differ.
#[derive(Debug)]
pub struct TempMarks {
    pub temp_dir: String,
    pub pid: u32,
    /// The time since 1970 in nanoseconds.
    pub nanos: u128,
    /// How many temporary names this process has made before.
    pub counter: u64,
}

/// The name of a temporary file or directory.
pub open spec fn temp_name(
    prefix: Seq<char>,
    marks: TempMarks,
    extension: Option<Seq<char>>,
) -> Seq<char> {
    let name = prefix + "-"@ + text::decimal(marks.pid as nat) + "-"@ + text::decimal(
        marks.nanos as nat,
    ) + "-"@ + text::decimal(marks.counter as nat);
    match extension {
        Some(ext) => name + "."@ + ext,
        None => name,
    }
}

/// A path for a temporary file or directory.
pub fn unique_temp_path(prefix: &str, marks: &TempMarks, extension: Option<&str>) -> (r: String)
    ensures
        r@ == path::joined(
            marks.temp_dir@,
            temp_name(prefix@, *marks, text::opt_str_view(extension)),
        ),
{
    let pid = text::number(marks.pid as u64);
    let nanos = text::large_number(marks.nanos);
    let counter = text::number(marks.counter);
    let name = text::cat7(
        prefix,
        "-",
        pid.as_str(),
        "-",
        nanos.as_str(),
        "-",
        counter.as_str(),
    );
    let name = match extension {
        Some(ext) => text::cat3(name.as_str(), ".", ext),
        None => name,
    };
    path::join(marks.temp_dir.as_str(), name.as_str())
}

/// A character that can stand in a file name: `c` itself, or a dash.
pub open spec fn file_char(c: char) -> char {
    if text::ascii_alphanumeric(c) || c == '-' || c == '_' {
        c
    } else {
        '-'
    }
}

/// Makes a text that can stand in a file name.
pub fn sanitize_for_path(value: &str) -> (r: String)
    ensures
        r@ == value@.map_values(|c: char| file_char(c)),
{
    let v = text::to_chars(value);
    let mut out = String::new();
    let mut i: usize = 0;
    while i < v.len()
        invariant
            i <= v.len(),
            v@ == value@,
            out@ == value@.take(i as int).map_values(|c: char| file_char(c)),
        decreases v.len() - i,
    {
        let c: char = v[i];
        let safe = (c >= '0' && c <= '9') || (c >= 'A' && c <= 'Z') || (c >= 'a' && c <= 'z') || c
            == '-' || c == '_';
        if safe {
            out.push(c);
        } else {
            out.push('-');
        }
        assert(out@ =~= value@.take(i + 1).map_values(|c: char| file_char(c)));
        i = i + 1;
    }
    assert(value@.take(i as int) =~= value@);
    out
}

/// A sanitized text is as long as the text it was made from, and cannot lead out of a directory:
/// it holds neither a slash nor a dot.
pub proof fn law_sanitized_text_is_one_name(value: Seq<char>)
    ensures
        value.map_values(|c: char| file_char(c)).len() == value.len(),
        !value.map_values(|c: char| file_char(c)).contains('/'),
        !value.map_values(|c: char| file_char(c)).contains('.'),
{
}

/// What the name of a clone starts with.
pub open spec fn clone_label(task_name: Option<Seq<char>>) -> Seq<char> {
    match task_name {
        Some(name) => if name.len() > 0 {
            name.map_values(|c: char| file_char(c))
        } else {
            "task"@
        },
        None => "task"@,
    }
}

/// The extension of a clone: that of the image, or `img`.
pub open spec fn clone_extension(rootfs: Seq<char>) -> Seq<char> {
    match path::extension_of(rootfs) {
        Some(ext) => ext,
        None => "img"@,
    }
}

/// The path of a clone of the image at `rootfs`.
pub fn next_rootfs_clone_path(rootfs: &str, task_name: Option<&str>, marks: &TempMarks) -> (r:
    String)
    ensures
        r@ == clone_path(rootfs@, text::opt_str_view(task_name), *marks),
        r@ == path::joined(
            marks.temp_dir@,
            temp_name(
                "vmize-rootfs-"@ + clone_label(text::opt_str_view(task_name)),
                *marks,
                Some(clone_extension(rootfs@)),
            ),
        ),
{
    let label = match task_name {
        Some(name) => {
            let label = sanitize_for_path(name);
            if label.as_str().is_empty() {
                "task".to_owned()
            } else {
                label
            }
        },
        None => "task".to_owned(),
    };
    let ext = match path::extension(rootfs) {
        Some(ext) => ext,
        None => "img".to_owned(),
    };
    let prefix = text::cat2("vmize-rootfs-", label.as_str());
    unique_temp_path(prefix.as_str(), marks, Some(ext.as_str()))
}

/// What a list of entries requires, or the fault of the first that cannot be read.
pub open spec fn requirements_of(entries: Seq<Seq<char>>) -> Result<
    Seq<(Seq<char>, KernelConfigValue)>,
    Seq<char>,
>
    decreases entries.len(),
{
    if entries.len() == 0 {
        Ok(seq![])
    } else {
        match requirements_of(entries.drop_last()) {
            Err(message) => Err(message),
            Ok(before) => match kernel_config::requirement_of(entries.last()) {
                Err(message) => Err(message),
                Ok(requirement) => Ok(before.push(requirement)),
            },
        }
    }
}

/// What requirements ask for.
pub open spec fn requirement_views(requirements: Seq<KernelConfigRequirement>) -> Seq<
    (Seq<char>, KernelConfigValue),
> {
    requirements.map_values(|r: KernelConfigRequirement| (r.symbol@, r.expected))
}

/// The entries of `required_kernel_config` that a task declares.
pub open spec fn declared_requirements(task: LoadedTask) -> Seq<Seq<char>> {
    match task.definition.vm {
        Some(vm) => match vm.required_kernel_config {
            Some(entries) => text::views(entries@),
            None => seq![],
        },
        None => seq![],
    }
}

proof fn lemma_requirements_fault_stays(entries: Seq<Seq<char>>, n: int)
    requires
        0 <= n <= entries.len(),
        requirements_of(entries.take(n)) is Err,
    ensures
        requirements_of(entries) == requirements_of(entries.take(n)),
    decreases entries.len(),
{
    if n < entries.len() {
        assert(entries.drop_last().take(n) =~= entries.take(n));
        lemma_requirements_fault_stays(entries.drop_last(), n);
    } else {
        assert(entries.take(n) =~= entries);
    }
}

fn read_requirements(entries: &Vec<String>) -> (r: Result<Vec<KernelConfigRequirement>, Error>)
    ensures
        match r {
            Ok(requirements) => requirements_of(text::views(entries@)) == Ok::<
                Seq<(Seq<char>, KernelConfigValue)>,
                Seq<char>,
            >(requirement_views(requirements@)),
            Err(err) => requirements_of(text::views(entries@)) matches Err(message)
                && err.is_runtime(message),
        },
{
    let ghost all = text::views(entries@);
    let mut out: Vec<KernelConfigRequirement> = Vec::new();
    let mut i: usize = 0;
    assert(requirement_views(out@) =~= seq![]);
    while i < entries.len()
        invariant
            i <= entries.len(),
            all == text::views(entries@),
            requirements_of(all.take(i as int)) == Ok::<
                Seq<(Seq<char>, KernelConfigValue)>,
                Seq<char>,
            >(requirement_views(out@)),
        decreases entries.len() - i,
    {
        let ghost before = requirement_views(out@);
        proof {
            assert(all.take(i + 1).drop_last() =~= all.take(i as int));
            assert(all.take(i + 1).last() == entries@[i as int]@);
            if requirements_of(all.take(i + 1)) is Err {
                lemma_requirements_fault_stays(all, i + 1);
            }
        }
        match kernel_config::parse_kernel_config_requirement(entries[i].as_str()) {
            Ok(requirement) => {
                out.push(requirement);
                assert(requirement_views(out@) =~= before.push(
                    (requirement.symbol@, requirement.expected),
                ));
            },
            Err(err) => return Err(err),
        }
        i = i + 1;
    }
    assert(all.take(i as int) =~= all);
    Ok(out)
}

/// Reads the kernel configuration that a task requires.
pub fn resolve_kernel_config_requirements(task: &LoadedTask) -> (r: Result<
    Vec<KernelConfigRequirement>,
    Error,
>)
    ensures
        match r {
            Ok(requirements) => requirements_of(declared_requirements(*task)) == Ok::<
                Seq<(Seq<char>, KernelConfigValue)>,
                Seq<char>,
            >(requirement_views(requirements@)),
            Err(err) => requirements_of(declared_requirements(*task)) matches Err(message)
                && err.is_runtime(message),
        },
{
    if let Some(vm) = &task.definition.vm {
        if let Some(entries) = &vm.required_kernel_config {
            return read_requirements(entries);
        }
    }
    let none: Vec<KernelConfigRequirement> = Vec::new();
    assert(requirement_views(none@) =~= seq![]);
    Ok(none)
}

/// The name that messages give a task.
pub open spec fn task_label(task: LoadedTask) -> Seq<char> {
    match task.definition.name {
        Some(name) => name@,
        None => "<unnamed-task>"@,
    }
}

/// Why the kernel configuration file of a task fails its requirements, or cannot be checked.
pub open spec fn static_fault(
    task: LoadedTask,
    requirements: Seq<KernelConfigRequirement>,
    kind: PathKind,
    contents: Result<String, String>,
) -> Option<Seq<char>> {
    if requirements.len() == 0 {
        None
    } else if task.definition.vm is None {
        Some("vm config is required when vm.required_kernel_config is set"@)
    } else if task.definition.vm->0.kernel_config is None {
        Some("vm.kernel_config is required when vm.required_kernel_config is set"@)
    } else {
        match config_file(
            task,
            "vm.kernel_config"@,
            task.definition.vm->0.kernel_config->0@,
            kind,
        ) {
            Err(message) => Some(message),
            Ok(at) => match contents {
                Err(reason) => Some("Failed to read vm.kernel_config "@ + at + ": "@ + reason@),
                Ok(config) => {
                    let found = kernel_config::mismatches(
                        kernel_config::lines_say(text::lines_of(config@)),
                        requirements,
                    );
                    if found.len() == 0 {
                        None
                    } else {
                        Some(
                            "Kernel config preflight failed for "@ + task_label(task) + " using "@
                                + at + ": "@ + text::joined(found, ", "@),
                        )
                    }
                },
            },
        }
    }
}

/// Checks the kernel configuration file of a task before its machine is started. `kind` says what
/// the file's path leads to, and `contents` is what reading it gave.
pub fn verify_kernel_config_static(
    task: &LoadedTask,
    requirements: &Vec<KernelConfigRequirement>,
    kind: PathKind,
    contents: &Result<String, String>,
) -> (r: Result<(), Error>)
    ensures
        match r {
            Ok(_) => static_fault(*task, requirements@, kind, *contents) is None,
            Err(err) => static_fault(*task, requirements@, kind, *contents) matches Some(message)
                && err.is_runtime(message),
        },
{
    if requirements.len() == 0 {
        return Ok(());
    }
    let vm = match &task.definition.vm {
        Some(vm) => vm,
        None => {
            return Err(
                runtime("vm config is required when vm.required_kernel_config is set".to_owned()),
            );
        },
    };
    let value = match &vm.kernel_config {
        Some(value) => value,
        None => {
            return Err(
                runtime(
                    "vm.kernel_config is required when vm.required_kernel_config is set".to_owned(),
                ),
            );
        },
    };
    let at = match resolve_vm_config_path(task, "vm.kernel_config", value.as_str(), kind) {
        Ok(at) => at,
        Err(err) => return Err(err),
    };
    match contents {
        Err(reason) => Err(
            runtime(
                text::cat4(
                    "Failed to read vm.kernel_config ",
                    at.as_str(),
                    ": ",
                    reason.as_str(),
                ),
            ),
        ),
        Ok(config) => {
            let parsed = kernel_config::parse_kernel_config_text(config.as_str());
            let found = kernel_config::collect_kernel_config_mismatches(&parsed, requirements);
            assert(text::views(found@).len() == found@.len());
            if found.len() == 0 {
                return Ok(());
            }
            let name = match &task.definition.name {
                Some(name) => name.as_str(),
                None => "<unnamed-task>",
            };
            let list = text::join(&found, ", ");
            Err(
                runtime(
                    text::cat6(
                        "Kernel config preflight failed for ",
                        name,
                        " using ",
                        at.as_str(),
                        ": ",
                        list.as_str(),
                    ),
                ),
            )
        },
    }
}

/// Whether `fault` is why a task whose requirements were read cannot be run.
pub open spec fn refuses_run(
    task: LoadedTask,
    options: TaskRunOptions,
    requirements: Seq<KernelConfigRequirement>,
    kind: PathKind,
    contents: Result<String, String>,
    facts: LaunchFacts,
    fault: Seq<char>,
) -> bool {
    match static_fault(task, requirements, kind, contents) {
        Some(message) => fault == message,
        None => launch_fault(task, options, facts) == Some(fault),
    }
}

/// Plans the run of a task: what its kernel has to be configured with, and its machine. A kernel
/// that is known to be configured otherwise is refused before anything is done to a file.
pub fn plan_task_run(
    task: &LoadedTask,
    options: &TaskRunOptions,
    kind: PathKind,
    contents: &Result<String, String>,
    facts: &LaunchFacts,
) -> (r: Result<(Vec<KernelConfigRequirement>, LaunchPlan), Error>)
    ensures
        match r {
            Ok((requirements, plan)) => {
                &&& requirements_of(declared_requirements(*task)) == Ok::<
                    Seq<(Seq<char>, KernelConfigValue)>,
                    Seq<char>,
                >(requirement_views(requirements@))
                &&& static_fault(*task, requirements@, kind, *contents) is None
                &&& launch_fault(*task, *options, *facts) is None
                &&& plans_launch(plan, *task, *options)
            },
            Err(err) => match requirements_of(declared_requirements(*task)) {
                Err(message) => err.is_runtime(message),
                Ok(required) => err matches Error::Runtime { message } && exists|
                    requirements: Seq<KernelConfigRequirement>,
                |
                    #[trigger] requirement_views(requirements) == required && refuses_run(
                        *task,
                        *options,
                        requirements,
                        kind,
                        *contents,
                        *facts,
                        message@,
                    ),
            },
        },
{
    let requirements = match resolve_kernel_config_requirements(task) {
        Ok(requirements) => requirements,
        Err(err) => return Err(err),
    };
    match verify_kernel_config_static(task, &requirements, kind, contents) {
        Ok(()) => {},
        Err(err) => return Err(err),
    }
    match prepare_vm_launch_options(task, options, facts) {
        Ok(plan) => Ok((requirements, plan)),
        Err(err) => Err(err),
    }
}

/// A task sees each directory that it declares, in the order in which it declares them: the one
/// of that name in its own directory, at the place that it asks for, and with leave to write
/// exactly if it asks for that.
pub proof fn law_mounts_are_as_declared(
    plan: LaunchPlan,
    task: LoadedTask,
    options: TaskRunOptions,
    vm: TaskVmConfig,
    i: int,
)
    requires
        plans_launch(plan, task, options),
        task.definition.vm == Some(vm),
        0 <= i < vm.mounts@.len(),
    ensures
        plan.vm_options.mounts@.len() == vm.mounts@.len(),
        plan.vm_options.mounts@[i].mode is ReadWrite <==> vm.mounts@[i].mode is ReadWrite,
        plan.vm_options.mounts@[i].mode is ReadOnly <==> vm.mounts@[i].mode is ReadOnly,
        plan.vm_options.mounts@[i].guest_path@ == vm.mounts@[i].guest@,
        vm.mounts@[i].host@.is_suffix_of(plan.vm_options.mounts@[i].host_path@),
        !path::absolute(vm.mounts@[i].host@) ==> task_dir_of(task)->0.is_prefix_of(
            plan.vm_options.mounts@[i].host_path@,
        ),
{
    assert(mount_of(plan.vm_options.mounts@[i], task_dir_of(task)->0, vm.mounts@[i]));
    path::lemma_joined_ends(task_dir_of(task)->0, vm.mounts@[i].host@);
}

/// A machine gets the disk size that the caller asks for, and else the one that its task asks for;
/// with a root file system of its own that size goes to a clone of it, and to nothing else.
pub proof fn law_disk_size_of_a_machine(plan: LaunchPlan, task: LoadedTask, options: TaskRunOptions)
    requires
        plans_launch(plan, task, options),
    ensures
        ({
            let custom = task.definition.vm matches Some(vm) && vm.boot is Custom;
            let given = if custom {
                text::opt_view(plan.resize_to)
            } else {
                text::opt_view(plan.vm_options.disk_size)
            };
            &&& custom ==> plan.vm_options.disk_size is None
            &&& !custom ==> plan.resize_to is None && plan.clone_from is None
            &&& options.disk_size matches Some(size) ==> if custom {
                given is None <==> text::trimmed(size@).len() == 0
            } else {
                given == Some(size@)
            }
            &&& options.disk_size matches Some(size) ==> custom && given is Some ==> given == Some(
                text::trimmed(size@),
            )
            &&& options.disk_size is None ==> !custom ==> given == text::opt_view(
                task.definition.disk_size,
            )
            &&& options.disk_size is None && task.definition.disk_size is None ==> given is None
        }),
{
}

/// A machine boots the kernel and the root file system that its task names where the task asks for
/// that, and neither where it does not. A clone is made of that root file system exactly if the
/// task asks for one.
pub proof fn law_machine_boots_what_its_task_names(
    plan: LaunchPlan,
    task: LoadedTask,
    options: TaskRunOptions,
    vm: TaskVmConfig,
)
    requires
        plans_launch(plan, task, options),
        task.definition.vm == Some(vm),
        vm.boot is Custom ==> vm.kernel is Some && vm.rootfs is Some,
    ensures
        plan.vm_options.kernel is Some <==> vm.boot is Custom,
        plan.vm_options.rootfs is Some <==> vm.boot is Custom,
        vm.boot is Custom ==> {
            &&& vm.kernel->0@.is_suffix_of(plan.vm_options.kernel->0@)
            &&& vm.rootfs->0@.is_suffix_of(plan.vm_options.rootfs->0@)
            &&& plan.clone_from is Some <==> vm.clone_rootfs
            &&& plan.clone_from matches Some(image) ==> image@ == plan.vm_options.rootfs->0@
        },
{
    if vm.boot is Custom {
        path::lemma_joined_ends(task_dir_of(task)->0, vm.kernel->0@);
        path::lemma_joined_ends(task_dir_of(task)->0, vm.rootfs->0@);
    }
}

/// A task that requires something of a kernel is let through before its start exactly if its
/// configuration file is a file, can be read, and gives each symbol the value that is required.
pub proof fn law_preflight_is_passed_exactly_if_met(
    task: LoadedTask,
    vm: TaskVmConfig,
    requirements: Seq<KernelConfigRequirement>,
    kind: PathKind,
    contents: Result<String, String>,
)
    requires
        requirements.len() > 0,
        task.definition.vm == Some(vm),
        vm.kernel_config is Some,
        task_dir_of(task) is Some,
    ensures
        static_fault(task, requirements, kind, contents) is None <==> kind is File && (
        contents matches Ok(config) && forall|i: int|
            0 <= i < requirements.len() ==> kernel_config::lines_say(
                text::lines_of(config@),
            ).contains_pair((#[trigger] requirements[i]).symbol@, requirements[i].expected)),
{
    if let Ok(config) = contents {
        kernel_config::law_no_mismatch_means_met(
            kernel_config::lines_say(text::lines_of(config@)),
            requirements,
        );
    }
}

/// What a task requires is one requirement per entry, each as the entry says.
pub proof fn law_requirements_are_the_entries(entries: Seq<Seq<char>>)
    ensures
        requirements_of(entries) is Ok <==> forall|i: int|
            0 <= i < entries.len() ==> kernel_config::requirement_of(#[trigger] entries[i]) is Ok,
        requirements_of(entries) matches Ok(found) ==> found.len() == entries.len() && forall|i: int|
            0 <= i < entries.len() ==> kernel_config::requirement_of(#[trigger] entries[i]) == Ok::<
                (Seq<char>, KernelConfigValue),
                Seq<char>,
            >(found[i]),
    decreases entries.len(),
{
    if entries.len() > 0 {
        let init = entries.drop_last();
        law_requirements_are_the_entries(init);
        assert(entries.last() == entries[entries.len() - 1]);
        if requirements_of(entries) is Ok {
            let found = requirements_of(entries)->Ok_0;
            assert forall|i: int| 0 <= i < entries.len() implies kernel_config::requirement_of(
                #[trigger] entries[i],
            ) == Ok::<(Seq<char>, KernelConfigValue), Seq<char>>(found[i]) by {
                if i < init.len() {
                    assert(init[i] == entries[i]);
                }
            }
        } else if forall|i: int|
            0 <= i < entries.len() ==> kernel_config::requirement_of(#[trigger] entries[i]) is Ok {
            assert forall|i: int| 0 <= i < init.len() implies kernel_config::requirement_of(
                #[trigger] init[i],
            ) is Ok by {
                assert(init[i] == entries[i]);
            }
        }
    }
}

/// Two temporary names that a process makes at one moment differ.
pub proof fn law_temporary_names_differ(
    prefix: Seq<char>,
    a: TempMarks,
    b: TempMarks,
    extension: Option<Seq<char>>,
)
    requires
        a.pid == b.pid,
        a.nanos == b.nanos,
        temp_name(prefix, a, extension) == temp_name(prefix, b, extension),
    ensures
        a.counter == b.counter,
{
    let head = prefix + "-"@ + text::decimal(a.pid as nat) + "-"@ + text::decimal(a.nanos as nat)
        + "-"@;
    let x = text::decimal(a.counter as nat);
    let y = text::decimal(b.counter as nat);
    let tail = match extension {
        Some(ext) => "."@ + ext,
        None => seq![],
    };
    let whole = temp_name(prefix, a, extension);
    assert(whole =~= head + x + tail);
    assert(whole =~= head + y + tail);
    assert(x =~= whole.subrange(head.len() as int, whole.len() - tail.len()));
    assert(y =~= whole.subrange(head.len() as int, whole.len() - tail.len()));
    text::lemma_decimal_distinct(a.counter as nat, b.counter as nat);
}

/// A value of the machine's configuration stands for a file below the task's directory. The
/// message for one that is refused starts with the field, and ends with the path that was looked
/// at.
pub proof fn law_refused_file_is_named(
    task: LoadedTask,
    field: Seq<char>,
    value: Seq<char>,
    kind: PathKind,
)
    ensures
        config_file(task, field, value, kind) is Ok <==> task_dir_of(task) is Some && kind is File,
        config_file(task, field, value, kind) matches Ok(at) ==> {
            &&& value.is_suffix_of(at)
            &&& !path::absolute(value) ==> (task_dir_of(task)->0).is_prefix_of(at)
        },
        config_file(task, field, value, kind) matches Err(message) ==> {
            &&& task_dir_of(task) is None ==> ("Failed to resolve task directory for "@).is_prefix_of(
                message,
            ) && field.is_suffix_of(message)
            &&& task_dir_of(task) is Some ==> field.is_prefix_of(message) && value.is_suffix_of(
                message,
            )
            &&& task_dir_of(task) is Some && kind is Missing ==> text::occurs_in(
                " path does not exist: "@,
                message,
            )
            &&& task_dir_of(task) is Some && !(kind is Missing) ==> text::occurs_in(
                " path is not a file: "@,
                message,
            )
        },
{
    match task_dir_of(task) {
        None => {
            text::lemma_ends("Failed to resolve task directory for "@, seq![], field);
            assert("Failed to resolve task directory for "@ + seq![] + field
                =~= "Failed to resolve task directory for "@ + field);
        },
        Some(dir) => {
            let at = path::joined(dir, value);
            path::lemma_joined_ends(dir, value);
            text::lemma_ends(field, " path does not exist: "@, at);
            text::lemma_ends(field, " path is not a file: "@, at);
            if let Err(message) = config_file(task, field, value, kind) {
                assert(value =~= message.subrange(
                    message.len() - value.len(),
                    message.len() as int,
                ));
            }
        },
    }
}

/// A mount can be used exactly if its host path is a directory and its guest path is absolute. The
/// message for one that is refused names the mount by its position, and the path that is at fault.
pub proof fn law_refused_mount_is_named(
    task_dir: Seq<char>,
    mount: TaskVmMount,
    index: nat,
    kind: PathKind,
)
    ensures
        mount_fault(task_dir, mount, index, kind) is None <==> kind is Directory
            && mount.guest@.len() > 0 && mount.guest@[0] == '/',
        mount_fault(task_dir, mount, index, kind) matches Some(message) ==> {
            &&& ("vm.mounts["@ + text::decimal(index) + "]"@).is_prefix_of(message)
            &&& kind is Missing ==> text::occurs_in(".host path does not exist: "@, message)
                && mount.host@.is_suffix_of(message)
            &&& !(kind is Missing) && !(kind is Directory) ==> text::occurs_in(
                ".host path is not a directory: "@,
                message,
            ) && mount.host@.is_suffix_of(message)
            &&& kind is Directory ==> text::occurs_in(".guest path is not absolute: "@, message)
                && mount.guest@.is_suffix_of(message)
        },
{
    let label = task::mount_label(index);
    let host = path::joined(task_dir, mount.host@);
    path::lemma_joined_ends(task_dir, mount.host@);
    text::lemma_ends(label, ".host path does not exist: "@, host);
    text::lemma_ends(label, ".host path is not a directory: "@, host);
    text::lemma_ends(label, ".guest path is not absolute: "@, mount.guest@);
    if let Some(message) = mount_fault(task_dir, mount, index, kind) {
        if !(kind is Directory) {
            let n = message.len() as int;
            assert(mount.host@ =~= message.subrange(n - mount.host@.len(), n));
        }
    }
}

/// A custom machine can be run exactly if its kernel and its root file system are named and are
/// files, and its root file system is cloned wherever it is given a size.
pub proof fn law_custom_machine_can_be_run(
    task: LoadedTask,
    vm: TaskVmConfig,
    size: Option<Seq<char>>,
    facts: LaunchFacts,
)
    ensures
        custom_fault(task, vm, size, facts) is None <==> {
            &&& vm.kernel is Some && vm.rootfs is Some
            &&& task_dir_of(task) is Some
            &&& facts.kernel is File && facts.rootfs is File
            &&& size is Some ==> vm.clone_rootfs
        },
        vm.kernel is None ==> custom_fault(task, vm, size, facts) == Some(
            "vm.kernel is required for vm.boot='custom'"@,
        ),
        vm.kernel is Some && vm.rootfs is None ==> custom_fault(task, vm, size, facts) == Some(
            "vm.rootfs is required for vm.boot='custom'"@,
        ),
        vm.kernel is Some && vm.rootfs is Some && task_dir_of(task) is Some && facts.kernel is File
            && facts.rootfs is File && size is Some && !vm.clone_rootfs ==> custom_fault(
            task,
            vm,
            size,
            facts,
        ) == Some("custom VM boot requires vm.clone_rootfs=true when disk_size is set"@),
{
}

/// The message for a kernel that does not meet its task's requirements names the task, the file
/// and what is missing; a task without a name is called so.
pub proof fn law_failed_preflight_is_explained(
    task: LoadedTask,
    requirements: Seq<KernelConfigRequirement>,
    kind: PathKind,
    contents: Result<String, String>,
)
    requires
        requirements.len() > 0,
        static_fault(task, requirements, kind, contents) is Some,
    ensures
        ({
            let message = static_fault(task, requirements, kind, contents)->0;
            let vm = task.definition.vm->0;
            &&& task.definition.vm is None ==> message
                == "vm config is required when vm.required_kernel_config is set"@
            &&& task.definition.vm is Some && vm.kernel_config is None ==> message
                == "vm.kernel_config is required when vm.required_kernel_config is set"@
            &&& task.definition.vm is Some && vm.kernel_config is Some ==> text::occurs_in(
                if config_file(task, "vm.kernel_config"@, vm.kernel_config->0@, kind) is Err {
                    "vm.kernel_config"@
                } else if contents is Err {
                    "Failed to read vm.kernel_config "@
                } else {
                    "Kernel config preflight failed for "@ + (match task.definition.name {
                        Some(name) => name@,
                        None => "<unnamed-task>"@,
                    }) + " using "@
                },
                message,
            )
        }),
{
    let message = static_fault(task, requirements, kind, contents)->0;
    if task.definition.vm is Some && task.definition.vm->0.kernel_config is Some {
        let value = task.definition.vm->0.kernel_config->0@;
        let field = "vm.kernel_config"@;
        match config_file(task, field, value, kind) {
            Err(reason) => {
                match task_dir_of(task) {
                    None => {
                        let head = "Failed to resolve task directory for "@;
                        text::lemma_occurs_between(head, field, seq![]);
                        assert(head + field + seq![] =~= message);
                    },
                    Some(dir) => {
                        let rest = message.skip(field.len() as int);
                        text::lemma_occurs_between(seq![], field, rest);
                        assert(seq![] + field + rest =~= message);
                    },
                }
            },
            Ok(at) => {
                let head = if contents is Err {
                    "Failed to read vm.kernel_config "@
                } else {
                    "Kernel config preflight failed for "@ + task_label(task) + " using "@
                };
                let rest = message.skip(head.len() as int);
                assert(seq![] + head + rest =~= message);
                text::lemma_occurs_between(seq![], head, rest);
            },
        }
    }
}

/// The path of a clone of the image at `rootfs`.
pub open spec fn clone_path(
    rootfs: Seq<char>,
    task_name: Option<Seq<char>>,
    marks: TempMarks,
) -> Seq<char> {
    path::joined(
        marks.temp_dir@,
        temp_name(
            "vmize-rootfs-"@ + clone_label(task_name),
            marks,
            Some(clone_extension(rootfs)),
        ),
    )
}

/// A clone lies in the directory for temporary files, and ends like the image that it is a clone
/// of.
pub proof fn law_clone_ends_like_its_image(
    rootfs: Seq<char>,
    task_name: Option<Seq<char>>,
    marks: TempMarks,
)
    ensures
        marks.temp_dir@.is_prefix_of(clone_path(rootfs, task_name, marks)),
        path::extension_of(rootfs) matches Some(ext) ==> ("."@ + ext).is_suffix_of(
            clone_path(rootfs, task_name, marks),
        ),
        path::extension_of(rootfs) is None ==> (".img"@).is_suffix_of(
            clone_path(rootfs, task_name, marks),
        ),
        text::occurs_in("vmize-rootfs-"@, clone_path(rootfs, task_name, marks)),
{
    reveal_strlit("vmize-rootfs-");
    reveal_strlit(".");
    reveal_strlit("img");
    reveal_strlit(".img");
    let name = temp_name(
        "vmize-rootfs-"@ + clone_label(task_name),
        marks,
        Some(clone_extension(rootfs)),
    );
    assert(name[0] == 'v');
    path::lemma_joined_ends(marks.temp_dir@, name);
    let whole = clone_path(rootfs, task_name, marks);
    let n = whole.len() as int;
    let tail = "."@ + clone_extension(rootfs);
    assert(tail =~= name.subrange(name.len() - tail.len(), name.len() as int));
    assert(tail =~= whole.subrange(n - tail.len(), n));
    if path::extension_of(rootfs) is None {
        assert(tail =~= ".img"@);
    }
    let at = n - name.len();
    assert(whole.subrange(at, at + 13) =~= "vmize-rootfs-"@);
    assert(text::occurs_at("vmize-rootfs-"@, whole, at));
}

proof fn lemma_mounts_fault_none(
    task_dir: Seq<char>,
    mounts: Seq<TaskVmMount>,
    kinds: Seq<PathKind>,
)
    ensures
        mounts_fault(task_dir, mounts, kinds) is None <==> forall|i: int|
            0 <= i < mounts.len() ==> task::kind_at(kinds, i) is Directory && path::absolute(
                (#[trigger] mounts[i]).guest@,
            ),
    decreases mounts.len(),
{
    if mounts.len() > 0 {
        let before = mounts.drop_last();
        let n = mounts.len() - 1;
        lemma_mounts_fault_none(task_dir, before, kinds);
        assert(mounts[n] == mounts.last());
        assert(forall|i: int| 0 <= i < n ==> before[i] == #[trigger] mounts[i]);
        if forall|i: int|
            0 <= i < mounts.len() ==> task::kind_at(kinds, i) is Directory && path::absolute(
                (#[trigger] mounts[i]).guest@,
            ) {
            assert forall|i: int| 0 <= i < before.len() implies task::kind_at(
                kinds,
                i,
            ) is Directory && path::absolute((#[trigger] before[i]).guest@) by {
                assert(mounts[i] == before[i]);
            }
        }
        if mounts_fault(task_dir, mounts, kinds) is None {
            assert forall|i: int| 0 <= i < mounts.len() implies task::kind_at(
                kinds,
                i,
            ) is Directory && path::absolute((#[trigger] mounts[i]).guest@) by {
                if i < n {
                    assert(path::absolute(before[i].guest@));
                }
            }
        }
    }
}

/// A task's machine can be run exactly if the host path of each of its mounts is a directory and
/// the guest path is absolute, and, for a custom machine, its kernel and its root file system can
/// be used.
pub proof fn law_machine_of_a_task_can_be_run(
    task: LoadedTask,
    options: TaskRunOptions,
    facts: LaunchFacts,
)
    ensures
        launch_fault(task, options, facts) is None <==> {
            &&& task.definition.vm matches Some(vm) ==> (vm.mounts@.len() > 0 ==> task_dir_of(
                task,
            ) is Some && forall|i: int|
                0 <= i < vm.mounts@.len() ==> task::kind_at(facts.mounts@, i) is Directory
                    && path::absolute((#[trigger] vm.mounts@[i]).guest@))
            &&& task.definition.vm matches Some(vm) ==> (vm.boot is Custom ==> custom_fault(
                task,
                vm,
                effective_disk_size(options, task),
                facts,
            ) is None)
        },
{
    if task.definition.vm is Some && task_dir_of(task) is Some {
        lemma_mounts_fault_none(
            task_dir_of(task)->0,
            task.definition.vm->0.mounts@,
            facts.mounts@,
        );
    }
}

/// Whether `r` is what giving an image a size is judged as.
pub open spec fn judges_resize(
    r: Result<(), Error>,
    rootfs: Seq<char>,
    size: Seq<char>,
    outcome: ResizeOutcome,
) -> bool {
    match outcome {
        ResizeOutcome::Resized => r is Ok,
        ResizeOutcome::NotRun { reason } => r matches Err(err) && err.is_runtime(
            "Failed to execute qemu-img resize for "@ + rootfs + ": "@ + reason@,
        ),
        ResizeOutcome::Failed { stderr } => r matches Err(err) && err.is_runtime(
            "qemu-img resize failed for "@ + rootfs + " to "@ + size + ": "@ + text::trimmed(
                stderr@,
            ),
        ),
    }
}

/// An image counts as resized exactly if it was. The error for one that was not names the image
/// and the reason, and the size where the tool refused it.
pub proof fn law_failed_resize_is_named(
    r: Result<(), Error>,
    rootfs: Seq<char>,
    size: Seq<char>,
    outcome: ResizeOutcome,
)
    requires
        judges_resize(r, rootfs, size, outcome),
    ensures
        r is Ok <==> outcome is Resized,
        outcome matches ResizeOutcome::NotRun { reason } ==> r->Err_0.is_runtime(
            "Failed to execute qemu-img resize for "@ + rootfs + ": "@ + reason@,
        ),
        outcome is Failed ==> r->Err_0 is Runtime && ("qemu-img resize failed for "@ + rootfs
            + " to "@ + size).is_prefix_of(r->Err_0->Runtime_message@) && text::trimmed(
            outcome->stderr@,
        ).is_suffix_of(r->Err_0->Runtime_message@),
{
    if let ResizeOutcome::Failed { stderr } = outcome {
        text::lemma_ends(
            "qemu-img resize failed for "@ + rootfs + " to "@ + size,
            ": "@,
            text::trimmed(stderr@),
        );
    }
}

} // verus!
