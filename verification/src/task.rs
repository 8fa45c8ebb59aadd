//! Task definitions: what a task directory declares, and which declarations are accepted.

use vstd::prelude::*;

use crate::path;
use crate::path::PathKind;
use crate::text;

verus! {

/// What a task's virtual machine boots from.
#[derive(Debug, Clone, Copy, PartialEq, Eq, Structural)]
pub enum TaskVmBoot {
    Ubuntu,
    Custom,
}

impl Default for TaskVmBoot {
    fn default() -> (r: Self)
        ensures
            r is Ubuntu,
    {
        TaskVmBoot::Ubuntu
    }
}

/// Whether a task's script may write to a mounted host directory.
#[derive(Debug, Clone, Copy, PartialEq, Eq, Structural)]
pub enum TaskVmMountMode {
    ReadOnly,
    ReadWrite,
}

impl Default for TaskVmMountMode {
    fn default() -> (r: Self)
        ensures
            r is ReadOnly,
    {
        TaskVmMountMode::ReadOnly
    }
}

/// A host directory that a task wants to see inside its virtual machine.
#[derive(Debug, PartialEq, Eq)]
pub struct TaskVmMount {
    pub host: String,
    pub guest: String,
    pub mode: TaskVmMountMode,
}

/// The virtual machine that a task asks for.
#[derive(Debug, PartialEq, Eq)]
pub struct TaskVmConfig {
    pub boot: TaskVmBoot,
    pub memory: Option<String>,
    pub cpus: Option<u32>,
    pub kernel: Option<String>,
    pub rootfs: Option<String>,
    pub kernel_config: Option<String>,
    pub required_kernel_config: Option<Vec<String>>,
    pub mounts: Vec<TaskVmMount>,
    pub clone_rootfs: bool,
}

/// A root file system image is cloned unless a task says otherwise.
pub fn default_clone_rootfs() -> (r: bool)
    ensures
        r,
{
    true
}

impl Default for TaskVmConfig {
    fn default() -> (r: Self)
        ensures
            r.boot is Ubuntu,
            r.memory is None,
            r.cpus is None,
            r.kernel is None,
            r.rootfs is None,
            r.kernel_config is None,
            r.required_kernel_config is None,
            r.mounts@.len() == 0,
            r.clone_rootfs,
    {
        TaskVmConfig {
            boot: TaskVmBoot::Ubuntu,
            memory: None,
            cpus: None,
            kernel: None,
            rootfs: None,
            kernel_config: None,
            required_kernel_config: None,
            mounts: Vec::new(),
            clone_rootfs: default_clone_rootfs(),
        }
    }
}

/// What the file `task.json` of a task directory declares.
#[derive(Debug)]
pub struct TaskDefinition {
    pub name: Option<String>,
    pub description: Option<String>,
    pub disk_size: Option<String>,
    pub commands: Vec<String>,
    pub artifacts: Option<Vec<String>>,
    pub next_task_dir: Option<String>,
    pub vm: Option<TaskVmConfig>,
}

/// An accepted task together with the directories that it works in.
#[derive(Debug)]
pub struct LoadedTask {
    pub definition: TaskDefinition,
    pub input_dir: String,
    pub output_dir: String,
    pub logs_dir: String,
}

impl Clone for TaskVmMount {
    fn clone(&self) -> (r: Self)
        ensures
            r == *self,
    {
        TaskVmMount { host: self.host.clone(), guest: self.guest.clone(), mode: self.mode }
    }
}

/// Whether two optional lists hold the same strings.
pub open spec fn same_list(a: Option<Vec<String>>, b: Option<Vec<String>>) -> bool {
    match (a, b) {
        (Some(x), Some(y)) => x@ == y@,
        (None, None) => true,
        _ => false,
    }
}

fn copy_optional_list(list: &Option<Vec<String>>) -> (r: Option<Vec<String>>)
    ensures
        same_list(r, *list),
{
    match list {
        Some(l) => Some(text::copy_list(l)),
        None => None,
    }
}

/// Whether two configurations ask for the same machine.
pub open spec fn same_vm(a: TaskVmConfig, b: TaskVmConfig) -> bool {
    &&& a.boot == b.boot
    &&& a.memory == b.memory
    &&& a.cpus == b.cpus
    &&& a.kernel == b.kernel
    &&& a.rootfs == b.rootfs
    &&& a.kernel_config == b.kernel_config
    &&& same_list(a.required_kernel_config, b.required_kernel_config)
    &&& a.mounts@ == b.mounts@
    &&& a.clone_rootfs == b.clone_rootfs
}

impl Clone for TaskVmConfig {
    fn clone(&self) -> (r: Self)
        ensures
            same_vm(r, *self),
    {
        let mut mounts: Vec<TaskVmMount> = Vec::new();
        let mut i: usize = 0;
        while i < self.mounts.len()
            invariant
                i <= self.mounts.len(),
                mounts@ == self.mounts@.take(i as int),
            decreases self.mounts.len() - i,
        {
            mounts.push(self.mounts[i].clone());
            i = i + 1;
        }
        assert(self.mounts@.take(i as int) =~= self.mounts@);
        TaskVmConfig {
            boot: self.boot,
            memory: self.memory.clone(),
            cpus: self.cpus,
            kernel: self.kernel.clone(),
            rootfs: self.rootfs.clone(),
            kernel_config: self.kernel_config.clone(),
            required_kernel_config: copy_optional_list(&self.required_kernel_config),
            mounts,
            clone_rootfs: self.clone_rootfs,
        }
    }
}

/// Whether two definitions declare the same.
pub open spec fn same_definition(a: TaskDefinition, b: TaskDefinition) -> bool {
    &&& a.name == b.name
    &&& a.description == b.description
    &&& a.disk_size == b.disk_size
    &&& a.commands@ == b.commands@
    &&& same_list(a.artifacts, b.artifacts)
    &&& a.next_task_dir == b.next_task_dir
    &&& match (a.vm, b.vm) {
        (Some(x), Some(y)) => same_vm(x, y),
        (None, None) => true,
        _ => false,
    }
}

impl Clone for TaskDefinition {
    fn clone(&self) -> (r: Self)
        ensures
            same_definition(r, *self),
    {
        let vm = match &self.vm {
            Some(vm) => Some(vm.clone()),
            None => None,
        };
        TaskDefinition {
            name: self.name.clone(),
            description: self.description.clone(),
            disk_size: self.disk_size.clone(),
            commands: text::copy_list(&self.commands),
            artifacts: copy_optional_list(&self.artifacts),
            next_task_dir: self.next_task_dir.clone(),
            vm,
        }
    }
}

impl LoadedTask {
    /// The same task with its input taken from another directory.
    pub fn with_input_dir(&self, input_dir: String) -> (r: LoadedTask)
        ensures
            same_definition(r.definition, self.definition),
            r.input_dir == input_dir,
            r.output_dir == self.output_dir,
            r.logs_dir == self.logs_dir,
    {
        LoadedTask {
            definition: self.definition.clone(),
            input_dir,
            output_dir: self.output_dir.clone(),
            logs_dir: self.logs_dir.clone(),
        }
    }
}

/// What became of reading `task.json`.
#[derive(Debug)]
pub enum TaskFile {
    /// The file could not be read.
    Unreadable { reason: String },
    /// The file does not hold a task definition.
    Malformed { reason: String },
    Parsed { definition: TaskDefinition },
}

/// The message of a failed check.
pub open spec fn fault_of(r: Result<(), String>) -> Option<Seq<char>> {
    match r {
        Ok(_) => None,
        Err(message) => Some(message@),
    }
}

/// The fault `first`, or else the fault `second`.
pub open spec fn either(first: Option<Seq<char>>, second: Option<Seq<char>>) -> Option<Seq<char>> {
    if first is Some {
        first
    } else {
        second
    }
}

/// Whether a string holds nothing but whitespace.
pub open spec fn blank(s: Seq<char>) -> bool {
    text::trimmed(s).len() == 0
}

/// Why a path to the next task's directory is refused.
pub open spec fn relative_task_path_fault(value: Seq<char>) -> Option<Seq<char>> {
    if blank(value) {
        Some("must not be empty"@)
    } else if path::absolute(value) {
        Some("absolute paths are not allowed"@)
    } else if path::parts(value).contains(path::Part::Cur) {
        Some("must not include '.' path components"@)
    } else {
        None
    }
}

pub fn validate_relative_task_path(value: &str) -> (r: Result<(), String>)
    ensures
        fault_of(r) == relative_task_path_fault(value@),
{
    if text::is_blank(value) {
        return Err("must not be empty".to_owned());
    }
    if path::is_absolute(value) {
        return Err("absolute paths are not allowed".to_owned());
    }
    if path::has_cur_dir(value) {
        return Err("must not include '.' path components".to_owned());
    }
    Ok(())
}

/// Why a path to an artifact is refused.
pub open spec fn artifact_path_fault(value: Seq<char>) -> Option<Seq<char>> {
    either(
        relative_task_path_fault(value),
        if path::parts(value).contains(path::Part::Up) {
            Some("must not include '..' path components"@)
        } else {
            None
        },
    )
}

pub fn validate_artifact_path(value: &str) -> (r: Result<(), String>)
    ensures
        fault_of(r) == artifact_path_fault(value@),
{
    match validate_relative_task_path(value) {
        Err(message) => Err(message),
        Ok(_) => if path::has_parent_dir(value) {
            Err("must not include '..' path components".to_owned())
        } else {
            Ok(())
        },
    }
}

/// An accepted artifact path names something below the directory that it is looked up in: it
/// is relative, and each of its components is a plain name.
pub proof fn law_artifact_stays_inside(value: Seq<char>)
    requires
        artifact_path_fault(value) is None,
    ensures
        !path::absolute(value),
        forall|i: int|
            0 <= i < path::parts(value).len() ==> (#[trigger] path::parts(value)[i]) is Name,
{
    path::lemma_plain_path(value);
}

/// Whether `c` may occur in the name of a kernel configuration symbol.
pub open spec fn symbol_char(c: char) -> bool {
    text::ascii_upper(c) || text::ascii_digit(c) || c == '_'
}

pub open spec fn symbol_chars(s: Seq<char>) -> bool {
    forall|i: int| 0 <= i < s.len() ==> symbol_char(#[trigger] s[i])
}

/// Whether a string holds only characters that a kernel configuration symbol may hold.
pub fn is_symbol_text(s: &str) -> (r: bool)
    ensures
        r == symbol_chars(s@),
{
    let v = text::to_chars(s);
    let mut i: usize = 0;
    while i < v.len()
        invariant
            i <= v.len(),
            v@ == s@,
            forall|j: int| 0 <= j < i ==> symbol_char(#[trigger] v@[j]),
        decreases v.len() - i,
    {
        let c: char = v[i];
        if !((c >= 'A' && c <= 'Z') || (c >= '0' && c <= '9') || c == '_') {
            assert(!symbol_char(s@[i as int]));
            return false;
        }
        i = i + 1;
    }
    true
}

/// Whether a string starts as a kernel configuration symbol does and goes on after that.
pub open spec fn config_prefixed(symbol: Seq<char>) -> bool {
    "CONFIG_"@.is_prefix_of(symbol) && symbol.len() > "CONFIG_"@.len()
}

pub fn is_config_prefixed(symbol: &str) -> (r: bool)
    ensures
        r == config_prefixed(symbol@),
{
    text::starts_with(symbol, "CONFIG_") && symbol.unicode_len() > "CONFIG_".unicode_len()
}

/// The values that a kernel configuration symbol can be required to have.
pub open spec fn tristate(value: Seq<char>) -> bool {
    value == "y"@ || value == "m"@ || value == "n"@
}

/// Why an entry of `required_kernel_config` is refused.
pub open spec fn required_kernel_config_entry_fault(value: Seq<char>) -> Option<Seq<char>> {
    let value = text::trimmed(value);
    if value.len() == 0 {
        Some("vm.required_kernel_config entries must not be empty"@)
    } else {
        match text::split_once_at(value, '=') {
            None => Some("must be in form CONFIG_FOO=y|m|n"@),
            Some((symbol, expected)) => {
                if !config_prefixed(symbol) {
                    Some("must start with CONFIG_ and include a symbol name"@)
                } else if !symbol_chars(symbol) {
                    Some("symbol must contain only A-Z, 0-9, and _"@)
                } else if !tristate(expected) {
                    Some("must be in form CONFIG_FOO=y|m|n"@)
                } else {
                    None
                }
            },
        }
    }
}

pub fn validate_required_kernel_config_entry(value: &str) -> (r: Result<(), String>)
    ensures
        fault_of(r) == required_kernel_config_entry_fault(value@),
{
    let value = text::trim(value);
    if value.as_str().is_empty() {
        return Err("vm.required_kernel_config entries must not be empty".to_owned());
    }
    match text::split_once(value.as_str(), '=') {
        None => Err("must be in form CONFIG_FOO=y|m|n".to_owned()),
        Some((symbol, expected)) => {
            if !is_config_prefixed(symbol.as_str()) {
                Err("must start with CONFIG_ and include a symbol name".to_owned())
            } else if !is_symbol_text(symbol.as_str()) {
                Err("symbol must contain only A-Z, 0-9, and _".to_owned())
            } else if text::same(expected.as_str(), "y") || text::same(expected.as_str(), "m")
                || text::same(expected.as_str(), "n") {
                Ok(())
            } else {
                Err("must be in form CONFIG_FOO=y|m|n".to_owned())
            }
        },
    }
}

/// Why the path in the field `field` of a virtual machine's configuration is refused.
pub open spec fn vm_path_fault(value: Seq<char>, field: Seq<char>) -> Option<Seq<char>> {
    if blank(value) {
        Some(field + " must not be empty"@)
    } else if path::parts(value).contains(path::Part::Cur) {
        Some(field + " must not include '.' path components"@)
    } else {
        None
    }
}

pub fn validate_vm_path(value: &str, field: &str) -> (r: Result<(), String>)
    ensures
        fault_of(r) == vm_path_fault(value@, field@),
{
    if text::is_blank(value) {
        return Err(text::cat2(field, " must not be empty"));
    }
    if path::has_cur_dir(value) {
        return Err(text::cat2(field, " must not include '.' path components"));
    }
    Ok(())
}

/// How messages name the mount at position `index`.
pub open spec fn mount_label(index: nat) -> Seq<char> {
    "vm.mounts["@ + text::decimal(index) + "]"@
}

pub fn mount_name(index: usize) -> (r: String)
    ensures
        r@ == mount_label(index as nat),
{
    let n = text::number(index as u64);
    text::cat3("vm.mounts[", n.as_str(), "]")
}

/// Why the mount at position `index` is refused.
pub open spec fn vm_mount_fault(mount: TaskVmMount, index: nat) -> Option<Seq<char>> {
    let guest = path::parts(mount.guest@);
    if blank(mount.host@) {
        Some(mount_label(index) + ".host must not be empty"@)
    } else if blank(mount.guest@) {
        Some(mount_label(index) + ".guest must not be empty"@)
    } else if path::parts(mount.host@).contains(path::Part::Cur) {
        Some(mount_label(index) + ".host must not include '.' path components"@)
    } else if !path::absolute(mount.guest@) {
        Some(mount_label(index) + ".guest must be an absolute path"@)
    } else if guest.contains(path::Part::Cur) || guest.contains(path::Part::Up) {
        Some(mount_label(index) + ".guest must not include '.' or '..' path components"@)
    } else {
        None
    }
}

pub fn validate_vm_mount(mount: &TaskVmMount, index: usize) -> (r: Result<(), String>)
    ensures
        fault_of(r) == vm_mount_fault(*mount, index as nat),
{
    let label = mount_name(index);
    let host = mount.host.as_str();
    let guest = mount.guest.as_str();
    if text::is_blank(host) {
        return Err(text::cat2(label.as_str(), ".host must not be empty"));
    }
    if text::is_blank(guest) {
        return Err(text::cat2(label.as_str(), ".guest must not be empty"));
    }
    if path::has_cur_dir(host) {
        return Err(text::cat2(label.as_str(), ".host must not include '.' path components"));
    }
    if !path::is_absolute(guest) {
        return Err(text::cat2(label.as_str(), ".guest must be an absolute path"));
    }
    if path::has_cur_dir(guest) || path::has_parent_dir(guest) {
        return Err(
            text::cat2(label.as_str(), ".guest must not include '.' or '..' path components"),
        );
    }
    Ok(())
}

/// The fault of the first mount that is refused.
pub open spec fn vm_mounts_fault(mounts: Seq<TaskVmMount>) -> Option<Seq<char>>
    decreases mounts.len(),
{
    if mounts.len() == 0 {
        None
    } else {
        either(
            vm_mounts_fault(mounts.drop_last()),
            vm_mount_fault(mounts.last(), (mounts.len() - 1) as nat),
        )
    }
}

fn validate_vm_mounts(mounts: &Vec<TaskVmMount>) -> (r: Result<(), String>)
    ensures
        fault_of(r) == vm_mounts_fault(mounts@),
{
    let mut i: usize = 0;
    while i < mounts.len()
        invariant
            i <= mounts.len(),
            vm_mounts_fault(mounts@.take(i as int)) is None,
        decreases mounts.len() - i,
    {
        assert(mounts@.take(i + 1).drop_last() =~= mounts@.take(i as int));
        if let Err(message) = validate_vm_mount(&mounts[i], i) {
            proof {
                lemma_mounts_fault_stays(mounts@, i + 1);
            }
            return Err(message);
        }
        i = i + 1;
    }
    assert(mounts@.take(i as int) =~= mounts@);
    Ok(())
}

proof fn lemma_mounts_fault_stays(mounts: Seq<TaskVmMount>, n: int)
    requires
        0 <= n <= mounts.len(),
        vm_mounts_fault(mounts.take(n)) is Some,
    ensures
        vm_mounts_fault(mounts) == vm_mounts_fault(mounts.take(n)),
    decreases mounts.len(),
{
    if n < mounts.len() {
        assert(mounts.drop_last().take(n) =~= mounts.take(n));
        lemma_mounts_fault_stays(mounts.drop_last(), n);
    } else {
        assert(mounts.take(n) =~= mounts);
    }
}

/// The message for an entry of `required_kernel_config` that is refused.
pub open spec fn entry_fault(entry: Seq<char>) -> Option<Seq<char>> {
    match required_kernel_config_entry_fault(entry) {
        Some(message) => Some(
            "vm.required_kernel_config entry '"@ + entry + "' invalid: "@ + message,
        ),
        None => None,
    }
}

/// The fault of the first entry that is refused.
pub open spec fn entries_fault(entries: Seq<Seq<char>>) -> Option<Seq<char>>
    decreases entries.len(),
{
    if entries.len() == 0 {
        None
    } else {
        either(entries_fault(entries.drop_last()), entry_fault(entries.last()))
    }
}

proof fn lemma_entries_fault_stays(entries: Seq<Seq<char>>, n: int)
    requires
        0 <= n <= entries.len(),
        entries_fault(entries.take(n)) is Some,
    ensures
        entries_fault(entries) == entries_fault(entries.take(n)),
    decreases entries.len(),
{
    if n < entries.len() {
        assert(entries.drop_last().take(n) =~= entries.take(n));
        lemma_entries_fault_stays(entries.drop_last(), n);
    } else {
        assert(entries.take(n) =~= entries);
    }
}

fn validate_required_entries(entries: &Vec<String>) -> (r: Result<(), String>)
    ensures
        fault_of(r) == entries_fault(text::views(entries@)),
{
    let ghost all = text::views(entries@);
    let mut i: usize = 0;
    while i < entries.len()
        invariant
            i <= entries.len(),
            all == text::views(entries@),
            entries_fault(all.take(i as int)) is None,
        decreases entries.len() - i,
    {
        assert(all.take(i + 1).drop_last() =~= all.take(i as int));
        assert(all.take(i + 1).last() == entries@[i as int]@);
        let entry = entries[i].as_str();
        if let Err(message) = validate_required_kernel_config_entry(entry) {
            proof {
                lemma_entries_fault_stays(all, i + 1);
            }
            return Err(
                text::cat4(
                    "vm.required_kernel_config entry '",
                    entry,
                    "' invalid: ",
                    message.as_str(),
                ),
            );
        }
        i = i + 1;
    }
    assert(all.take(i as int) =~= all);
    Ok(())
}

/// The fault of the required kernel configuration, given whether a configuration file is named.
pub open spec fn required_config_fault(
    required: Option<Vec<String>>,
    kernel_config: Option<String>,
) -> Option<Seq<char>> {
    match required {
        None => None,
        Some(entries) => {
            if entries@.len() == 0 {
                Some("vm.required_kernel_config must not be empty when provided"@)
            } else if kernel_config is None {
                Some("vm.kernel_config is required when vm.required_kernel_config is set"@)
            } else {
                entries_fault(text::views(entries@))
            }
        },
    }
}

/// The fault of the path in an optional field.
pub open spec fn optional_path_fault(value: Option<String>, field: Seq<char>) -> Option<Seq<char>> {
    match value {
        Some(v) => vm_path_fault(v@, field),
        None => None,
    }
}

/// The fault of the fields that depend on what the machine boots from.
pub open spec fn boot_fault(vm: TaskVmConfig) -> Option<Seq<char>> {
    match vm.boot {
        TaskVmBoot::Ubuntu => if vm.kernel is Some || vm.rootfs is Some || vm.kernel_config is Some
            || vm.required_kernel_config is Some {
            Some(
                "vm.boot='ubuntu' does not allow vm.kernel/vm.rootfs/vm.kernel_config/vm.required_kernel_config (use vm.boot='custom')"@,
            )
        } else {
            None
        },
        TaskVmBoot::Custom => if vm.kernel is None {
            Some("vm.kernel is required when vm.boot='custom'"@)
        } else if vm.rootfs is None {
            Some("vm.rootfs is required when vm.boot='custom'"@)
        } else {
            either(
                either(
                    optional_path_fault(vm.kernel, "vm.kernel"@),
                    optional_path_fault(vm.rootfs, "vm.rootfs"@),
                ),
                either(
                    optional_path_fault(vm.kernel_config, "vm.kernel_config"@),
                    required_config_fault(vm.required_kernel_config, vm.kernel_config),
                ),
            )
        },
    }
}

/// Why the configuration of a task's virtual machine is refused.
pub open spec fn vm_config_fault(vm: TaskVmConfig) -> Option<Seq<char>> {
    if vm.memory is Some && blank(vm.memory->0@) {
        Some("vm.memory must not be empty when provided"@)
    } else if vm.cpus == Some(0u32) {
        Some("vm.cpus must be greater than 0 when provided"@)
    } else {
        either(vm_mounts_fault(vm.mounts@), boot_fault(vm))
    }
}

fn validate_boot(vm: &TaskVmConfig) -> (r: Result<(), String>)
    ensures
        fault_of(r) == boot_fault(*vm),
{
    match vm.boot {
        TaskVmBoot::Ubuntu => {
            if vm.kernel.is_some() || vm.rootfs.is_some() || vm.kernel_config.is_some()
                || vm.required_kernel_config.is_some() {
                return Err(
                    "vm.boot='ubuntu' does not allow vm.kernel/vm.rootfs/vm.kernel_config/vm.required_kernel_config (use vm.boot='custom')".to_owned(),
                );
            }
            Ok(())
        },
        TaskVmBoot::Custom => {
            let kernel = match &vm.kernel {
                Some(kernel) => kernel,
                None => return Err("vm.kernel is required when vm.boot='custom'".to_owned()),
            };
            let rootfs = match &vm.rootfs {
                Some(rootfs) => rootfs,
                None => return Err("vm.rootfs is required when vm.boot='custom'".to_owned()),
            };
            if let Err(message) = validate_vm_path(kernel.as_str(), "vm.kernel") {
                return Err(message);
            }
            if let Err(message) = validate_vm_path(rootfs.as_str(), "vm.rootfs") {
                return Err(message);
            }
            if let Some(kernel_config) = &vm.kernel_config {
                if let Err(message) = validate_vm_path(kernel_config.as_str(), "vm.kernel_config") {
                    return Err(message);
                }
            }
            if let Some(required) = &vm.required_kernel_config {
                if required.len() == 0 {
                    return Err(
                        "vm.required_kernel_config must not be empty when provided".to_owned(),
                    );
                }
                if vm.kernel_config.is_none() {
                    return Err(
                        "vm.kernel_config is required when vm.required_kernel_config is set".to_owned(),
                    );
                }
                return validate_required_entries(required);
            }
            Ok(())
        },
    }
}

pub fn validate_vm_config(vm: &TaskVmConfig) -> (r: Result<(), String>)
    ensures
        fault_of(r) == vm_config_fault(*vm),
{
    if let Some(memory) = &vm.memory {
        if text::is_blank(memory.as_str()) {
            return Err("vm.memory must not be empty when provided".to_owned());
        }
    }
    if let Some(cpus) = vm.cpus {
        if cpus == 0 {
            return Err("vm.cpus must be greater than 0 when provided".to_owned());
        }
    }
    if let Err(message) = validate_vm_mounts(&vm.mounts) {
        return Err(message);
    }
    validate_boot(vm)
}

/// Where the definition of the task in `task_dir` stands.
pub open spec fn definition_path(task_dir: Seq<char>) -> Seq<char> {
    path::joined(task_dir, "task.json"@)
}

pub open spec fn input_path(task_dir: Seq<char>) -> Seq<char> {
    path::joined(task_dir, "input"@)
}

pub open spec fn output_path(task_dir: Seq<char>) -> Seq<char> {
    path::joined(task_dir, "output"@)
}

pub open spec fn logs_path(task_dir: Seq<char>) -> Seq<char> {
    path::joined(output_path(task_dir), "logs"@)
}

/// Where the definition of the task in `task_dir` is read from.
pub fn task_json_path(task_dir: &str) -> (r: String)
    ensures
        r@ == definition_path(task_dir@),
{
    path::join(task_dir, "task.json")
}

/// The directory that holds a task's scripts.
pub fn task_input_dir(task_dir: &str) -> (r: String)
    ensures
        r@ == input_path(task_dir@),
{
    path::join(task_dir, "input")
}

/// The kind at position `i`; what nobody looked at counts as missing.
pub open spec fn kind_at(kinds: Seq<PathKind>, i: int) -> PathKind {
    if 0 <= i < kinds.len() {
        kinds[i]
    } else {
        PathKind::Missing
    }
}

/// Why a command that leads to `kind` is refused.
pub open spec fn command_fault(
    input_dir: Seq<char>,
    command: Seq<char>,
    kind: PathKind,
) -> Option<Seq<char>> {
    let at = path::joined(input_dir, command);
    if kind is Missing {
        Some("Command '"@ + command + "' not found in input: "@ + at)
    } else if !(kind is File) {
        Some("Command '"@ + command + "' is not a file in input: "@ + at)
    } else {
        None
    }
}

/// The fault of the first command that is refused. `kinds` says what each command leads to.
pub open spec fn commands_fault(
    input_dir: Seq<char>,
    commands: Seq<Seq<char>>,
    kinds: Seq<PathKind>,
) -> Option<Seq<char>>
    decreases commands.len(),
{
    if commands.len() == 0 {
        None
    } else {
        either(
            commands_fault(input_dir, commands.drop_last(), kinds),
            command_fault(input_dir, commands.last(), kind_at(kinds, commands.len() - 1)),
        )
    }
}

proof fn lemma_commands_fault_stays(
    input_dir: Seq<char>,
    commands: Seq<Seq<char>>,
    kinds: Seq<PathKind>,
    n: int,
)
    requires
        0 <= n <= commands.len(),
        commands_fault(input_dir, commands.take(n), kinds) is Some,
    ensures
        commands_fault(input_dir, commands, kinds) == commands_fault(
            input_dir,
            commands.take(n),
            kinds,
        ),
    decreases commands.len(),
{
    if n < commands.len() {
        assert(commands.drop_last().take(n) =~= commands.take(n));
        lemma_commands_fault_stays(input_dir, commands.drop_last(), kinds, n);
    } else {
        assert(commands.take(n) =~= commands);
    }
}

fn check_commands(input_dir: &str, commands: &Vec<String>, kinds: &[PathKind]) -> (r: Result<
    (),
    String,
>)
    ensures
        fault_of(r) == commands_fault(input_dir@, text::views(commands@), kinds@),
{
    let ghost all = text::views(commands@);
    let mut i: usize = 0;
    while i < commands.len()
        invariant
            i <= commands.len(),
            all == text::views(commands@),
            commands_fault(input_dir@, all.take(i as int), kinds@) is None,
        decreases commands.len() - i,
    {
        proof {
            assert(all.take(i + 1).drop_last() =~= all.take(i as int));
            assert(all.take(i + 1).last() == commands@[i as int]@);
            if commands_fault(input_dir@, all.take(i + 1), kinds@) is Some {
                lemma_commands_fault_stays(input_dir@, all, kinds@, i + 1);
            }
        }
        let command = commands[i].as_str();
        let kind = if i < kinds.len() {
            kinds[i]
        } else {
            PathKind::Missing
        };
        let at = path::join(input_dir, command);
        if !kind.is_found() {
            return Err(
                text::cat4("Command '", command, "' not found in input: ", at.as_str()),
            );
        }
        if !kind.is_file() {
            return Err(
                text::cat4("Command '", command, "' is not a file in input: ", at.as_str()),
            );
        }
        i = i + 1;
    }
    assert(all.take(i as int) =~= all);
    Ok(())
}

/// The message for an artifact that is refused.
pub open spec fn artifact_fault(json_path: Seq<char>, artifact: Seq<char>) -> Option<Seq<char>> {
    match artifact_path_fault(artifact) {
        Some(message) => Some(
            "Invalid artifact '"@ + artifact + "' in "@ + json_path + ": "@ + message,
        ),
        None => None,
    }
}

/// The fault of the first artifact that is refused.
pub open spec fn artifacts_fault(
    json_path: Seq<char>,
    artifacts: Seq<Seq<char>>,
) -> Option<Seq<char>>
    decreases artifacts.len(),
{
    if artifacts.len() == 0 {
        None
    } else {
        either(
            artifacts_fault(json_path, artifacts.drop_last()),
            artifact_fault(json_path, artifacts.last()),
        )
    }
}

proof fn lemma_artifacts_fault_stays(json_path: Seq<char>, artifacts: Seq<Seq<char>>, n: int)
    requires
        0 <= n <= artifacts.len(),
        artifacts_fault(json_path, artifacts.take(n)) is Some,
    ensures
        artifacts_fault(json_path, artifacts) == artifacts_fault(json_path, artifacts.take(n)),
    decreases artifacts.len(),
{
    if n < artifacts.len() {
        assert(artifacts.drop_last().take(n) =~= artifacts.take(n));
        lemma_artifacts_fault_stays(json_path, artifacts.drop_last(), n);
    } else {
        assert(artifacts.take(n) =~= artifacts);
    }
}

fn check_artifacts(json_path: &str, artifacts: &Vec<String>) -> (r: Result<(), String>)
    ensures
        fault_of(r) == artifacts_fault(json_path@, text::views(artifacts@)),
{
    let ghost all = text::views(artifacts@);
    let mut i: usize = 0;
    while i < artifacts.len()
        invariant
            i <= artifacts.len(),
            all == text::views(artifacts@),
            artifacts_fault(json_path@, all.take(i as int)) is None,
        decreases artifacts.len() - i,
    {
        proof {
            assert(all.take(i + 1).drop_last() =~= all.take(i as int));
            assert(all.take(i + 1).last() == artifacts@[i as int]@);
            if artifacts_fault(json_path@, all.take(i + 1)) is Some {
                lemma_artifacts_fault_stays(json_path@, all, i + 1);
            }
        }
        let artifact = artifacts[i].as_str();
        if let Err(message) = validate_artifact_path(artifact) {
            return Err(
                text::cat6(
                    "Invalid artifact '",
                    artifact,
                    "' in ",
                    json_path,
                    ": ",
                    message.as_str(),
                ),
            );
        }
        i = i + 1;
    }
    assert(all.take(i as int) =~= all);
    Ok(())
}

/// The fault of what a definition declares besides its commands.
pub open spec fn declaration_fault(
    json_path: Seq<char>,
    definition: TaskDefinition,
) -> Option<Seq<char>> {
    let next = match definition.next_task_dir {
        None => None,
        Some(dir) => match relative_task_path_fault(dir@) {
            None => None,
            Some(message) => Some(
                "Invalid next_task_dir '"@ + dir@ + "' in "@ + json_path + ": "@ + message,
            ),
        },
    };
    let artifacts = match definition.artifacts {
        None => None,
        Some(list) => artifacts_fault(json_path, text::views(list@)),
    };
    let vm = match definition.vm {
        None => None,
        Some(config) => match vm_config_fault(config) {
            None => None,
            Some(message) => Some("Invalid vm config in "@ + json_path + ": "@ + message),
        },
    };
    either(next, either(artifacts, vm))
}

fn check_declaration(json_path: &str, definition: &TaskDefinition) -> (r: Result<(), String>)
    ensures
        fault_of(r) == declaration_fault(json_path@, *definition),
{
    if let Some(next) = &definition.next_task_dir {
        if let Err(message) = validate_relative_task_path(next.as_str()) {
            return Err(
                text::cat6(
                    "Invalid next_task_dir '",
                    next.as_str(),
                    "' in ",
                    json_path,
                    ": ",
                    message.as_str(),
                ),
            );
        }
    }
    if let Some(artifacts) = &definition.artifacts {
        if let Err(message) = check_artifacts(json_path, artifacts) {
            return Err(message);
        }
    }
    if let Some(vm) = &definition.vm {
        if let Err(message) = validate_vm_config(vm) {
            return Err(text::cat4("Invalid vm config in ", json_path, ": ", message.as_str()));
        }
    }
    Ok(())
}

/// Why the task in `task_dir` is refused. `input` says what its input directory's path leads
/// to, and `commands` what each command's path below it leads to.
pub open spec fn task_fault(
    task_dir: Seq<char>,
    file: TaskFile,
    input: PathKind,
    commands: Seq<PathKind>,
) -> Option<Seq<char>> {
    let json_path = definition_path(task_dir);
    match file {
        TaskFile::Unreadable { reason } => Some("Cannot read "@ + json_path + ": "@ + reason@),
        TaskFile::Malformed { reason } => Some(
            "Invalid JSON in "@ + json_path + ": "@ + reason@,
        ),
        TaskFile::Parsed { definition } => {
            if input is Missing {
                Some("Input directory not found: "@ + input_path(task_dir))
            } else if !(input is Directory) {
                Some("Input path is not a directory: "@ + input_path(task_dir))
            } else {
                either(
                    commands_fault(
                        input_path(task_dir),
                        text::views(definition.commands@),
                        commands,
                    ),
                    declaration_fault(json_path, definition),
                )
            }
        },
    }
}

/// Accepts or refuses the task in `task_dir`, from what was found there.
///
/// The directory for logs still has to be created for an accepted task.
pub fn load_task(task_dir: &str, file: TaskFile, input: PathKind, commands: &[PathKind]) -> (r:
    Result<LoadedTask, String>)
    ensures
        match r {
            Ok(task) => {
                &&& task_fault(task_dir@, file, input, commands@) is None
                &&& file == (TaskFile::Parsed { definition: task.definition })
                &&& task.input_dir@ == input_path(task_dir@)
                &&& task.output_dir@ == output_path(task_dir@)
                &&& task.logs_dir@ == logs_path(task_dir@)
            },
            Err(message) => task_fault(task_dir@, file, input, commands@) == Some(message@),
        },
{
    let json_path = task_json_path(task_dir);
    let definition = match file {
        TaskFile::Unreadable { reason } => {
            return Err(text::cat4("Cannot read ", json_path.as_str(), ": ", reason.as_str()));
        },
        TaskFile::Malformed { reason } => {
            return Err(text::cat4("Invalid JSON in ", json_path.as_str(), ": ", reason.as_str()));
        },
        TaskFile::Parsed { definition } => definition,
    };
    let input_dir = task_input_dir(task_dir);
    if !input.is_found() {
        return Err(text::cat2("Input directory not found: ", input_dir.as_str()));
    }
    if !input.is_dir() {
        return Err(text::cat2("Input path is not a directory: ", input_dir.as_str()));
    }
    if let Err(message) = check_commands(input_dir.as_str(), &definition.commands, commands) {
        return Err(message);
    }
    if let Err(message) = check_declaration(json_path.as_str(), &definition) {
        return Err(message);
    }
    let output_dir = path::join(task_dir, "output");
    let logs_dir = path::join(output_dir.as_str(), "logs");
    Ok(LoadedTask { definition, input_dir, output_dir, logs_dir })
}

/// The message for a logs directory that could not be created.
pub fn logs_dir_message(logs_dir: &str, reason: &str) -> (r: String)
    ensures
        r@ == "Cannot create logs dir "@ + logs_dir@ + ": "@ + reason@,
{
    text::cat4("Cannot create logs dir ", logs_dir, ": ", reason)
}

proof fn lemma_artifacts_each(json_path: Seq<char>, artifacts: Seq<Seq<char>>, i: int)
    requires
        artifacts_fault(json_path, artifacts) is None,
        0 <= i < artifacts.len(),
    ensures
        artifact_path_fault(artifacts[i]) is None,
    decreases artifacts.len(),
{
    if i < artifacts.len() - 1 {
        lemma_artifacts_each(json_path, artifacts.drop_last(), i);
    }
}

proof fn lemma_commands_each(
    input_dir: Seq<char>,
    commands: Seq<Seq<char>>,
    kinds: Seq<PathKind>,
    i: int,
)
    requires
        commands_fault(input_dir, commands, kinds) is None,
        0 <= i < commands.len(),
    ensures
        kind_at(kinds, i) is File,
    decreases commands.len(),
{
    if i < commands.len() - 1 {
        lemma_commands_each(input_dir, commands.drop_last(), kinds, i);
    }
}

/// In an accepted task every command is a file of the input directory, every artifact stays
/// inside the output directory, the next task's directory is given relative to the task, and
/// a custom machine has both a kernel and a root file system.
pub proof fn law_accepted_task(
    task_dir: Seq<char>,
    definition: TaskDefinition,
    input: PathKind,
    commands: Seq<PathKind>,
)
    requires
        task_fault(task_dir, TaskFile::Parsed { definition }, input, commands) is None,
    ensures
        input is Directory,
        forall|i: int|
            0 <= i < definition.commands@.len() ==> (#[trigger] kind_at(commands, i)) is File,
        definition.artifacts matches Some(list) ==> forall|i: int|
            0 <= i < list@.len() ==> artifact_path_fault((#[trigger] list@[i])@) is None,
        definition.next_task_dir matches Some(dir) ==> !path::absolute(dir@),
        definition.vm matches Some(vm) ==> (vm.boot is Custom ==> vm.kernel is Some && vm.rootfs is Some),
        definition.vm matches Some(vm) ==> (vm.boot is Ubuntu ==> vm.kernel is None && vm.rootfs is None),
{
    let names = text::views(definition.commands@);
    assert forall|i: int| 0 <= i < definition.commands@.len() implies (#[trigger] kind_at(
        commands,
        i,
    )) is File by {
        lemma_commands_each(input_path(task_dir), names, commands, i);
    }
    if let Some(list) = definition.artifacts {
        assert forall|i: int| 0 <= i < list@.len() implies artifact_path_fault(
            (#[trigger] list@[i])@,
        ) is None by {
            assert(text::views(list@)[i] == list@[i]@);
            lemma_artifacts_each(definition_path(task_dir), text::views(list@), i);
        }
    }
}

/// Whether a mount of a task can be used.
pub open spec fn usable_mount(mount: TaskVmMount) -> bool {
    &&& !blank(mount.host@) && !blank(mount.guest@)
    &&& mount.guest@.len() > 0 && mount.guest@[0] == '/'
    &&& !path::parts(mount.host@).contains(path::Part::Cur)
    &&& !path::parts(mount.guest@).contains(path::Part::Cur)
    &&& !path::parts(mount.guest@).contains(path::Part::Up)
}

proof fn lemma_mounts_are_usable(mounts: Seq<TaskVmMount>)
    ensures
        vm_mounts_fault(mounts) is None <==> forall|i: int|
            0 <= i < mounts.len() ==> usable_mount(#[trigger] mounts[i]),
    decreases mounts.len(),
{
    if mounts.len() > 0 {
        let before = mounts.drop_last();
        lemma_mounts_are_usable(before);
        assert(mounts[mounts.len() - 1] == mounts.last());
        assert(forall|i: int| 0 <= i < before.len() ==> before[i] == #[trigger] mounts[i]);
        if vm_mounts_fault(before) is None && usable_mount(mounts.last()) {
            assert forall|i: int| 0 <= i < mounts.len() implies usable_mount(
                #[trigger] mounts[i],
            ) by {
                if i < before.len() {
                    assert(usable_mount(before[i]));
                }
            }
        }
        if forall|i: int| 0 <= i < mounts.len() ==> usable_mount(#[trigger] mounts[i]) {
            assert forall|i: int| 0 <= i < before.len() implies usable_mount(
                #[trigger] before[i],
            ) by {
                assert(usable_mount(mounts[i]));
            }
        }
    }
}

/// A mount that is refused is named by its position.
pub proof fn law_refused_mount_is_named(mount: TaskVmMount, index: nat)
    ensures
        vm_mount_fault(mount, index) is None <==> usable_mount(mount),
        vm_mount_fault(mount, index) matches Some(message) ==> ("vm.mounts["@ + text::decimal(index)
            + "]."@).is_prefix_of(message),
{
    if let Some(message) = vm_mount_fault(mount, index) {
        let label = "vm.mounts["@ + text::decimal(index) + "]."@;
        reveal_strlit("]");
        reveal_strlit("].");
        reveal_strlit(".host must not be empty");
        reveal_strlit(".guest must not be empty");
        reveal_strlit(".host must not include '.' path components");
        reveal_strlit(".guest must be an absolute path");
        reveal_strlit(".guest must not include '.' or '..' path components");
        assert(label =~= mount_label(index).push('.'));
        assert(label =~= message.subrange(0, label.len() as int));
    }
}

proof fn lemma_entries_each(entries: Seq<Seq<char>>)
    ensures
        entries_fault(entries) is None <==> forall|i: int|
            0 <= i < entries.len() ==> required_kernel_config_entry_fault(
                #[trigger] entries[i],
            ) is None,
    decreases entries.len(),
{
    if entries.len() > 0 {
        let before = entries.drop_last();
        lemma_entries_each(before);
        assert(entries[entries.len() - 1] == entries.last());
        assert(forall|i: int| 0 <= i < before.len() ==> before[i] == #[trigger] entries[i]);
        if entries_fault(before) is None && required_kernel_config_entry_fault(
            entries.last(),
        ) is None {
            assert forall|i: int|
                0 <= i < entries.len() implies required_kernel_config_entry_fault(
                #[trigger] entries[i],
            ) is None by {
                if i < before.len() {
                    assert(required_kernel_config_entry_fault(before[i]) is None);
                }
            }
        }
        if forall|i: int|
            0 <= i < entries.len() ==> required_kernel_config_entry_fault(
                #[trigger] entries[i],
            ) is None {
            assert forall|i: int|
                0 <= i < before.len() implies required_kernel_config_entry_fault(
                #[trigger] before[i],
            ) is None by {
                assert(required_kernel_config_entry_fault(entries[i]) is None);
            }
        }
    }
}

/// What a virtual machine's configuration has to be: memory is not blank and there is a processor
/// where they are given, every mount can be used, a machine of the usual sort names no file of its
/// own, and a custom one names a kernel and a root file system, and a kernel configuration
/// wherever it requires entries of it.
pub proof fn law_accepted_machine(vm: TaskVmConfig)
    ensures
        vm_config_fault(vm) is None <==> {
            &&& vm.memory matches Some(memory) ==> !blank(memory@)
            &&& vm.cpus matches Some(cpus) ==> cpus > 0
            &&& forall|i: int| 0 <= i < vm.mounts@.len() ==> usable_mount(#[trigger] vm.mounts@[i])
            &&& match vm.boot {
                TaskVmBoot::Ubuntu => vm.kernel is None && vm.rootfs is None
                    && vm.kernel_config is None && vm.required_kernel_config is None,
                TaskVmBoot::Custom => {
                    &&& vm.kernel is Some && !blank(vm.kernel->0@) && !path::parts(
                        vm.kernel->0@,
                    ).contains(path::Part::Cur)
                    &&& vm.rootfs is Some && !blank(vm.rootfs->0@) && !path::parts(
                        vm.rootfs->0@,
                    ).contains(path::Part::Cur)
                    &&& vm.kernel_config is Some ==> !blank(vm.kernel_config->0@) && !path::parts(
                        vm.kernel_config->0@,
                    ).contains(path::Part::Cur)
                    &&& vm.required_kernel_config is Some ==> {
                        &&& vm.kernel_config is Some
                        &&& vm.required_kernel_config->0@.len() > 0
                        &&& forall|i: int|
                            0 <= i < vm.required_kernel_config->0@.len()
                                ==> required_kernel_config_entry_fault(
                                (#[trigger] vm.required_kernel_config->0@[i])@,
                            ) is None
                    }
                },
            }
        },
{
    lemma_mounts_are_usable(vm.mounts@);
    if let Some(entries) = vm.required_kernel_config {
        let all = text::views(entries@);
        lemma_entries_each(all);
        assert(forall|i: int| 0 <= i < entries@.len() ==> all[i] == (#[trigger] entries@[i])@);
        if forall|i: int|
            0 <= i < entries@.len() ==> required_kernel_config_entry_fault(
                (#[trigger] entries@[i])@,
            ) is None {
            assert forall|i: int| 0 <= i < all.len() implies required_kernel_config_entry_fault(
                #[trigger] all[i],
            ) is None by {
                assert(required_kernel_config_entry_fault(entries@[i]@) is None);
            }
        }
        if forall|i: int|
            0 <= i < all.len() ==> required_kernel_config_entry_fault(#[trigger] all[i]) is None {
            assert forall|i: int|
                0 <= i < entries@.len() implies required_kernel_config_entry_fault(
                (#[trigger] entries@[i])@,
            ) is None by {
                assert(required_kernel_config_entry_fault(all[i]) is None);
            }
        }
    }
}

/// A symbol with a value behind it is an entry exactly if the symbol is an upper-case name behind
/// `CONFIG_` and the value is one of `y`, `m` and `n`.
pub proof fn law_form_of_an_entry(symbol: Seq<char>, value: Seq<char>)
    requires
        !symbol.contains('='),
        symbol.len() > 0 && !text::whitespace(symbol[0]),
        value.len() > 0 && !text::whitespace(value.last()),
    ensures
        required_kernel_config_entry_fault(symbol + seq!['='] + value) is None <==> {
            &&& ("CONFIG_"@).is_prefix_of(symbol) && symbol.len() > 7
            &&& forall|i: int|
                0 <= i < symbol.len() ==> {
                    ||| 'A' <= #[trigger] symbol[i] <= 'Z'
                    ||| '0' <= symbol[i] <= '9'
                    ||| symbol[i] == '_'
                }
            &&& value == seq!['y'] || value == seq!['m'] || value == seq!['n']
        },
{
    let whole = symbol + seq!['='] + value;
    assert(whole[0] == symbol[0] && whole.last() == value.last());
    text::lemma_trimmed_is(whole);
    let n = symbol.len() as int;
    assert(whole[n] == '=');
    assert forall|j: int| 0 <= j < n implies whole[j] != '=' by {
        assert(symbol.contains(symbol[j]));
    }
    text::lemma_first_index_is(whole, '=', n);
    assert(whole.take(n) =~= symbol);
    assert(whole.skip(n + 1) =~= value);
    reveal_strlit("CONFIG_");
    reveal_strlit("y");
    reveal_strlit("m");
    reveal_strlit("n");
    assert("y"@ =~= seq!['y'] && "m"@ =~= seq!['m'] && "n"@ =~= seq!['n']);
    if symbol_chars(symbol) {
        assert forall|i: int| 0 <= i < symbol.len() implies {
            ||| 'A' <= #[trigger] symbol[i] <= 'Z'
            ||| '0' <= symbol[i] <= '9'
            ||| symbol[i] == '_'
        } by {
            assert(symbol_char(symbol[i]));
        }
    }
}

/// A command is accepted exactly if it is a file; the message for one that is not names it and the
/// place where it was looked for, below the input directory.
pub proof fn law_refused_command_is_named(input_dir: Seq<char>, command: Seq<char>, kind: PathKind)
    ensures
        command_fault(input_dir, command, kind) is None <==> kind is File,
        command_fault(input_dir, command, kind) matches Some(message) ==> {
            &&& ("Command '"@ + command + "'"@).is_prefix_of(message)
            &&& path::joined(input_dir, command).is_suffix_of(message)
            &&& kind is Missing ==> text::occurs_in("not found in input"@, message)
            &&& !(kind is Missing) ==> text::occurs_in("is not a file in input"@, message)
        },
{
    if let Some(message) = command_fault(input_dir, command, kind) {
        let at = path::joined(input_dir, command);
        let head = "Command '"@ + command + "'"@;
        reveal_strlit("'");
        reveal_strlit("' not found in input: ");
        reveal_strlit("' is not a file in input: ");
        reveal_strlit("not found in input");
        reveal_strlit("is not a file in input");
        assert(head =~= message.subrange(0, head.len() as int));
        assert(at =~= message.subrange(message.len() - at.len(), message.len() as int));
        let i = head.len() + 1 as int;
        if kind is Missing {
            assert(message.subrange(i, i + 18) =~= "not found in input"@);
            assert(text::occurs_at("not found in input"@, message, i));
        } else {
            assert(message.subrange(i, i + 22) =~= "is not a file in input"@);
            assert(text::occurs_at("is not a file in input"@, message, i));
        }
    }
}

/// The message for an artifact that is refused names the artifact and the file that declares it,
/// and ends with the reason.
pub proof fn law_refused_artifact_is_named(json_path: Seq<char>, artifact: Seq<char>)
    ensures
        artifact_fault(json_path, artifact) is None <==> artifact_path_fault(artifact) is None,
        artifact_fault(json_path, artifact) matches Some(message) ==> {
            &&& ("Invalid artifact '"@ + artifact + "' in "@ + json_path + ": "@).is_prefix_of(
                message,
            )
            &&& (artifact_path_fault(artifact)->0).is_suffix_of(message)
        },
{
    if let Some(message) = artifact_fault(json_path, artifact) {
        let head = "Invalid artifact '"@ + artifact + "' in "@ + json_path + ": "@;
        let reason = artifact_path_fault(artifact)->0;
        assert(head =~= message.subrange(0, head.len() as int));
        assert(reason =~= message.subrange(message.len() - reason.len(), message.len() as int));
    }
}

/// A relative path is accepted exactly if it is not blank, not absolute and free of `.`; as an
/// artifact it must be free of `..` too.
pub proof fn law_accepted_relative_path(value: Seq<char>)
    ensures
        relative_task_path_fault(value) is None <==> {
            &&& text::trimmed(value).len() > 0
            &&& value.len() > 0 && value[0] != '/'
            &&& !path::parts(value).contains(path::Part::Cur)
        },
        artifact_path_fault(value) is None <==> relative_task_path_fault(value) is None
            && !path::parts(value).contains(path::Part::Up),
{
    if value.len() == 0 {
        assert(text::trimmed(value).len() == 0);
    }
}

/// A task is accepted exactly if its file says so, its input is a directory, each of its commands
/// is a file there, and what it declares can be used.
pub proof fn law_task_is_accepted_exactly_if_usable(
    task_dir: Seq<char>,
    definition: TaskDefinition,
    input: PathKind,
    commands: Seq<PathKind>,
)
    ensures
        task_fault(task_dir, TaskFile::Parsed { definition }, input, commands) is None <==> {
            &&& input is Directory
            &&& forall|i: int|
                0 <= i < definition.commands@.len() ==> (#[trigger] kind_at(commands, i)) is File
            &&& definition.next_task_dir matches Some(dir) ==> relative_task_path_fault(dir@) is None
            &&& definition.artifacts matches Some(list) ==> forall|i: int|
                0 <= i < list@.len() ==> artifact_path_fault((#[trigger] list@[i])@) is None
            &&& definition.vm matches Some(vm) ==> vm_config_fault(vm) is None
        },
{
    let names = text::views(definition.commands@);
    lemma_commands_fault_none(input_path(task_dir), names, commands);
    if let Some(list) = definition.artifacts {
        let all = text::views(list@);
        lemma_artifacts_fault_none(definition_path(task_dir), all);
        assert(forall|i: int| 0 <= i < list@.len() ==> all[i] == (#[trigger] list@[i])@);
        if forall|i: int| 0 <= i < list@.len() ==> artifact_path_fault((#[trigger] list@[i])@) is None {
            assert forall|i: int| 0 <= i < all.len() implies artifact_path_fault(
                #[trigger] all[i],
            ) is None by {
                assert(artifact_path_fault(list@[i]@) is None);
            }
        }
        if forall|i: int| 0 <= i < all.len() ==> artifact_path_fault(#[trigger] all[i]) is None {
            assert forall|i: int| 0 <= i < list@.len() implies artifact_path_fault(
                (#[trigger] list@[i])@,
            ) is None by {
                assert(artifact_path_fault(all[i]) is None);
            }
        }
    }
}

proof fn lemma_commands_fault_none(
    input_dir: Seq<char>,
    commands: Seq<Seq<char>>,
    kinds: Seq<PathKind>,
)
    ensures
        commands_fault(input_dir, commands, kinds) is None <==> forall|i: int|
            0 <= i < commands.len() ==> (#[trigger] kind_at(kinds, i)) is File,
    decreases commands.len(),
{
    if commands.len() > 0 {
        lemma_commands_fault_none(input_dir, commands.drop_last(), kinds);
    }
}

proof fn lemma_artifacts_fault_none(json_path: Seq<char>, artifacts: Seq<Seq<char>>)
    ensures
        artifacts_fault(json_path, artifacts) is None <==> forall|i: int|
            0 <= i < artifacts.len() ==> artifact_path_fault(#[trigger] artifacts[i]) is None,
    decreases artifacts.len(),
{
    if artifacts.len() > 0 {
        let before = artifacts.drop_last();
        lemma_artifacts_fault_none(json_path, before);
        assert(artifacts[artifacts.len() - 1] == artifacts.last());
        assert(forall|i: int| 0 <= i < before.len() ==> before[i] == #[trigger] artifacts[i]);
        if artifacts_fault(json_path, before) is None && artifact_path_fault(
            artifacts.last(),
        ) is None {
            assert forall|i: int| 0 <= i < artifacts.len() implies artifact_path_fault(
                #[trigger] artifacts[i],
            ) is None by {
                if i < before.len() {
                    assert(artifact_path_fault(before[i]) is None);
                }
            }
        }
        if forall|i: int|
            0 <= i < artifacts.len() ==> artifact_path_fault(#[trigger] artifacts[i]) is None {
            assert forall|i: int| 0 <= i < before.len() implies artifact_path_fault(
                #[trigger] before[i],
            ) is None by {
                assert(artifact_path_fault(artifacts[i]) is None);
            }
        }
    }
}

/// The message for a machine that is refused starts with the field that is at fault.
pub proof fn law_refused_field_is_named(vm: TaskVmConfig)
    ensures
        vm.memory is Some && blank(vm.memory->0@) ==> ("vm.memory must not be empty"@).is_prefix_of(
            vm_config_fault(vm)->0,
        ),
        vm.boot is Custom && vm.kernel is None ==> boot_fault(vm) == Some(
            "vm.kernel is required when vm.boot='custom'"@,
        ),
        vm.boot is Custom && vm.kernel is Some && vm.rootfs is None ==> boot_fault(vm) == Some(
            "vm.rootfs is required when vm.boot='custom'"@,
        ),
        vm.boot is Ubuntu && boot_fault(vm) is Some ==> ("vm.boot='ubuntu' does not allow "@).is_prefix_of(
            boot_fault(vm)->0,
        ),
        vm.required_kernel_config is Some && vm.required_kernel_config->0@.len() == 0
            ==> required_config_fault(vm.required_kernel_config, vm.kernel_config) == Some(
            "vm.required_kernel_config must not be empty when provided"@,
        ),
        vm.required_kernel_config is Some && vm.required_kernel_config->0@.len() > 0
            && vm.kernel_config is None ==> required_config_fault(
            vm.required_kernel_config,
            vm.kernel_config,
        ) == Some("vm.kernel_config is required when vm.required_kernel_config is set"@),
{
    reveal_strlit("vm.memory must not be empty");
    reveal_strlit("vm.memory must not be empty when provided");
    let memory = "vm.memory must not be empty when provided"@;
    assert("vm.memory must not be empty"@ =~= memory.subrange(0, 27));
    reveal_strlit("vm.boot='ubuntu' does not allow ");
    reveal_strlit(
        "vm.boot='ubuntu' does not allow vm.kernel/vm.rootfs/vm.kernel_config/vm.required_kernel_config (use vm.boot='custom')",
    );
    let boot =
        "vm.boot='ubuntu' does not allow vm.kernel/vm.rootfs/vm.kernel_config/vm.required_kernel_config (use vm.boot='custom')"@;
    assert("vm.boot='ubuntu' does not allow "@ =~= boot.subrange(0, 32));
}

/// The message for an entry that is refused shows the entry and ends with the reason.
pub proof fn law_refused_entry_is_shown(entry: Seq<char>)
    ensures
        entry_fault(entry) is None <==> required_kernel_config_entry_fault(entry) is None,
        entry_fault(entry) matches Some(message) ==> {
            &&& ("vm.required_kernel_config entry '"@ + entry + "' invalid: "@).is_prefix_of(message)
            &&& (required_kernel_config_entry_fault(entry)->0).is_suffix_of(message)
        },
{
    if let Some(reason) = required_kernel_config_entry_fault(entry) {
        text::lemma_ends(
            "vm.required_kernel_config entry '"@ + entry,
            "' invalid: "@,
            reason,
        );
    }
}

/// What keeps a task from being loaded is said with the file or the directory at fault.
pub proof fn law_refused_task_is_explained(
    task_dir: Seq<char>,
    definition: TaskDefinition,
    input: PathKind,
    commands: Seq<PathKind>,
    reason: String,
)
    ensures
        task_fault(task_dir, TaskFile::Unreadable { reason }, input, commands) == Some(
            "Cannot read "@ + path::joined(task_dir, "task.json"@) + ": "@ + reason@,
        ),
        task_fault(task_dir, TaskFile::Malformed { reason }, input, commands) == Some(
            "Invalid JSON in "@ + path::joined(task_dir, "task.json"@) + ": "@ + reason@,
        ),
        input is Missing ==> task_fault(
            task_dir,
            TaskFile::Parsed { definition },
            input,
            commands,
        ) == Some("Input directory not found: "@ + path::joined(task_dir, "input"@)),
        input is File ==> task_fault(
            task_dir,
            TaskFile::Parsed { definition },
            input,
            commands,
        ) == Some("Input path is not a directory: "@ + path::joined(task_dir, "input"@)),
        definition.next_task_dir matches Some(dir) ==> (relative_task_path_fault(dir@) is Some
            ==> declaration_fault(path::joined(task_dir, "task.json"@), definition) == Some(
            "Invalid next_task_dir '"@ + dir@ + "' in "@ + path::joined(task_dir, "task.json"@)
                + ": "@ + relative_task_path_fault(dir@)->0,
        )),
{
}

} // verus!
