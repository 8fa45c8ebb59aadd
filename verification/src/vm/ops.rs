//! Working with machines that exist: reaching them, copying, listing and removing.

use vstd::prelude::*;

use crate::path::PathKind;
use crate::text;
use crate::vm::port;
use crate::vm::record;
use crate::vm::record::{VmRecord, VmRuntimeStatus, VmStatus};
use crate::vm::ssh::client;
use crate::vm::ssh::client::SshClient;

verus! {

/// The files that `name` may stand for in the directories of a search path.
pub open spec fn candidates(dirs: Seq<Seq<char>>, name: Seq<char>) -> Seq<Seq<char>> {
    dirs.map_values(|dir: Seq<char>| crate::path::joined(dir, name))
}

/// Lists the files that `name` may stand for, given the search path.
pub fn executable_candidates(path_var: &str, name: &str) -> (r: Vec<String>)
    ensures
        text::views(r@) == candidates(text::split_at_all(path_var@, ':'), name@),
{
    let dirs = text::split(path_var, ':');
    let ghost all = text::views(dirs@);
    let mut out: Vec<String> = Vec::new();
    let mut i: usize = 0;
    assert(text::views(out@) =~= candidates(all.take(0), name@));
    while i < dirs.len()
        invariant
            i <= dirs.len(),
            all == text::views(dirs@),
            text::views(out@) == candidates(all.take(i as int), name@),
        decreases dirs.len() - i,
    {
        let ghost before = text::views(out@);
        let candidate = crate::path::join(dirs[i].as_str(), name);
        out.push(candidate);
        proof {
            assert(text::views(out@) =~= before.push(candidate@));
            assert(candidates(all.take(i + 1), name@) =~= before.push(candidate@));
        }
        i = i + 1;
    }
    assert(all.take(i as int) =~= all);
    out
}

/// The first candidate that is a file. `kinds` says what each candidate leads to.
pub fn find_executable(candidates: &[String], kinds: &[PathKind]) -> (r: Option<String>)
    requires
        kinds@.len() == candidates@.len(),
    ensures
        match r {
            Some(found) => exists|i: int|
                0 <= i < kinds@.len() && found == candidates@[i] && (#[trigger] kinds@[i]) is File
                    && forall|j: int| 0 <= j < i ==> !((#[trigger] kinds@[j]) is File),
            None => forall|j: int| 0 <= j < kinds@.len() ==> !((#[trigger] kinds@[j]) is File),
        },
{
    let mut i: usize = 0;
    while i < kinds.len()
        invariant
            i <= kinds@.len(),
            kinds@.len() == candidates@.len(),
            forall|j: int| 0 <= j < i ==> !((#[trigger] kinds@[j]) is File),
        decreases kinds@.len() - i,
    {
        if kinds[i].is_file() {
            assert(kinds@[i as int] is File);
            return Some(candidates[i].clone());
        }
        i = i + 1;
    }
    None
}

/// Why a machine cannot be reached.
pub open spec fn unreachable_fault(
    id: Seq<char>,
    record: VmRecord,
    pid_alive: bool,
    key_exists: bool,
) -> Option<Seq<char>> {
    match record.status_now(pid_alive) {
        VmRuntimeStatus::Stopped => Some("VM '"@ + id + "' is stopped"@),
        VmRuntimeStatus::Stale => Some("VM '"@ + id + "' is not running"@),
        VmRuntimeStatus::Running => if key_exists {
            None
        } else {
            Some("SSH key not found at: "@ + record.private_key_path@)
        },
    }
}

/// Checks that a machine can be reached: it runs, and its key is there.
pub fn require_running_vm(id: &str, record: &VmRecord, pid_alive: bool, key_exists: bool) -> (r:
    Result<(), String>)
    ensures
        r is Ok <==> record.status_now(pid_alive) is Running && key_exists,
        match r {
            Ok(_) => unreachable_fault(id@, *record, pid_alive, key_exists) is None,
            Err(message) => unreachable_fault(id@, *record, pid_alive, key_exists) == Some(
                message@,
            ),
        },
{
    match record.runtime_status(pid_alive) {
        VmRuntimeStatus::Stopped => Err(text::cat3("VM '", id, "' is stopped")),
        VmRuntimeStatus::Stale => Err(text::cat3("VM '", id, "' is not running")),
        VmRuntimeStatus::Running => if key_exists {
            Ok(())
        } else {
            Err(text::cat2("SSH key not found at: ", record.private_key_path.as_str()))
        },
    }
}

/// The arguments of an `ssh` that runs a command on a machine, if the machine can be reached.
pub fn ssh_stream_with_config(
    id: &str,
    record: &VmRecord,
    pid_alive: bool,
    key_exists: bool,
    command: &str,
) -> (r: Result<Vec<String>, String>)
    ensures
        match r {
            Ok(args) => {
                &&& unreachable_fault(id@, *record, pid_alive, key_exists) is None
                &&& text::views(args@) == client::login_args(
                    "127.0.0.1"@,
                    record.ssh_port as nat,
                    record.username@,
                    record.private_key_path@,
                ) + seq!["--"@, command@]
            },
            Err(message) => unreachable_fault(id@, *record, pid_alive, key_exists) == Some(
                message@,
            ),
        },
{
    match require_running_vm(id, record, pid_alive, key_exists) {
        Ok(_) => Ok(
            SshClient::new().execute_command_stream_raw(
                "127.0.0.1",
                record.ssh_port,
                record.username.as_str(),
                record.private_key_path.as_str(),
                command,
            ),
        ),
        Err(message) => Err(message),
    }
}

/// The arguments of an interactive `ssh` to a machine, if the machine can be reached.
pub fn run_interactive_ssh(id: &str, record: &VmRecord, pid_alive: bool, key_exists: bool) -> (r:
    Result<Vec<String>, String>)
    ensures
        match r {
            Ok(args) => {
                &&& unreachable_fault(id@, *record, pid_alive, key_exists) is None
                &&& text::views(args@) == client::login_args(
                    "127.0.0.1"@,
                    record.ssh_port as nat,
                    record.username@,
                    record.private_key_path@,
                )
            },
            Err(message) => unreachable_fault(id@, *record, pid_alive, key_exists) == Some(
                message@,
            ),
        },
{
    match require_running_vm(id, record, pid_alive, key_exists) {
        Ok(_) => Ok(
            SshClient::new().login_command(
                "127.0.0.1",
                record.ssh_port,
                record.username.as_str(),
                record.private_key_path.as_str(),
            ),
        ),
        Err(message) => Err(message),
    }
}

/// The way of a copy.
#[derive(Debug, Clone, Copy, PartialEq, Eq, Structural)]
pub enum ScpDirection {
    LocalToVm,
    VmToLocal,
}

/// A path on a machine, as `scp` names it.
pub open spec fn remote_path(username: Seq<char>, path: Seq<char>) -> Seq<char> {
    username + "@127.0.0.1:"@ + path
}

/// The arguments of an `scp`. The old protocol is used: it takes file names as they are.
pub open spec fn scp_args(
    record: VmRecord,
    src: Seq<char>,
    dest: Seq<char>,
    recursive: bool,
    direction: ScpDirection,
) -> Seq<Seq<char>> {
    (if recursive {
        seq!["-O"@, "-r"@]
    } else {
        seq!["-O"@]
    }) + seq!["-i"@, record.private_key_path@] + seq![
        "-P"@,
        text::decimal(record.ssh_port as nat),
    ] + seq!["-o"@, "StrictHostKeyChecking=no"@] + seq!["-o"@, "UserKnownHostsFile=/dev/null"@] + (
    match direction {
        ScpDirection::LocalToVm => seq![src, remote_path(record.username@, dest)],
        ScpDirection::VmToLocal => seq![remote_path(record.username@, src), dest],
    })
}

/// The arguments of an `scp` from or to a machine, if the machine can be reached.
pub fn scp_transfer_inner(
    id: &str,
    record: &VmRecord,
    pid_alive: bool,
    key_exists: bool,
    src: &str,
    dest: &str,
    recursive: bool,
    direction: ScpDirection,
) -> (r: Result<Vec<String>, String>)
    ensures
        match r {
            Ok(args) => {
                &&& unreachable_fault(id@, *record, pid_alive, key_exists) is None
                &&& text::views(args@) == scp_args(*record, src@, dest@, recursive, direction)
            },
            Err(message) => unreachable_fault(id@, *record, pid_alive, key_exists) == Some(
                message@,
            ),
        },
{
    if let Err(message) = require_running_vm(id, record, pid_alive, key_exists) {
        return Err(message);
    }
    let mut args: Vec<String> = Vec::new();
    text::push_word(&mut args, "-O");
    if recursive {
        text::push_word(&mut args, "-r");
        assert(text::views(args@) =~= seq!["-O"@, "-r"@]);
    } else {
        assert(text::views(args@) =~= seq!["-O"@]);
    }
    text::push_pair(&mut args, "-i", record.private_key_path.as_str());
    let port = text::number(record.ssh_port as u64);
    text::push_pair(&mut args, "-P", port.as_str());
    text::push_pair(&mut args, "-o", "StrictHostKeyChecking=no");
    text::push_pair(&mut args, "-o", "UserKnownHostsFile=/dev/null");
    match direction {
        ScpDirection::LocalToVm => {
            let remote = text::cat3(record.username.as_str(), "@127.0.0.1:", dest);
            text::push_pair(&mut args, src, remote.as_str());
        },
        ScpDirection::VmToLocal => {
            let remote = text::cat3(record.username.as_str(), "@127.0.0.1:", src);
            text::push_pair(&mut args, remote.as_str(), dest);
        },
    }
    Ok(args)
}

/// The arguments of an `scp` to a machine, if the machine can be reached.
pub fn cp_to_with_config(
    id: &str,
    record: &VmRecord,
    pid_alive: bool,
    key_exists: bool,
    local: &str,
    remote: &str,
    recursive: bool,
) -> (r: Result<Vec<String>, String>)
    ensures
        match r {
            Ok(args) => {
                &&& unreachable_fault(id@, *record, pid_alive, key_exists) is None
                &&& text::views(args@) == scp_args(
                    *record,
                    local@,
                    remote@,
                    recursive,
                    ScpDirection::LocalToVm,
                )
            },
            Err(message) => unreachable_fault(id@, *record, pid_alive, key_exists) == Some(
                message@,
            ),
        },
{
    scp_transfer_inner(
        id,
        record,
        pid_alive,
        key_exists,
        local,
        remote,
        recursive,
        ScpDirection::LocalToVm,
    )
}

/// The arguments of an `scp` from a machine, if the machine can be reached.
pub fn cp_from_with_config(
    id: &str,
    record: &VmRecord,
    pid_alive: bool,
    key_exists: bool,
    remote: &str,
    local: &str,
    recursive: bool,
) -> (r: Result<Vec<String>, String>)
    ensures
        match r {
            Ok(args) => {
                &&& unreachable_fault(id@, *record, pid_alive, key_exists) is None
                &&& text::views(args@) == scp_args(
                    *record,
                    remote@,
                    local@,
                    recursive,
                    ScpDirection::VmToLocal,
                )
            },
            Err(message) => unreachable_fault(id@, *record, pid_alive, key_exists) == Some(
                message@,
            ),
        },
{
    scp_transfer_inner(
        id,
        record,
        pid_alive,
        key_exists,
        remote,
        local,
        recursive,
        ScpDirection::VmToLocal,
    )
}

/// One side of a copy.
#[derive(Debug, PartialEq, Eq)]
pub enum CpEndpoint {
    Local { path: String },
    Remote { id: String, path: String },
}

/// The machine that a side of a copy may name: what stands before its first colon.
pub open spec fn named_vm(spec: Seq<char>) -> Option<Seq<char>> {
    match text::split_once_at(spec, ':') {
        Some((id, _)) => if id.len() > 0 {
            Some(id)
        } else {
            None
        },
        None => None,
    }
}

/// The machine that a side of a copy may name, for its record to be looked up.
pub fn cp_endpoint_id(spec: &str) -> (r: Option<String>)
    ensures
        text::opt_view(r) == named_vm(spec@),
{
    match text::split_once(spec, ':') {
        Some((id, _)) => if id.as_str().is_empty() {
            None
        } else {
            Some(id)
        },
        None => None,
    }
}

/// Reads one side of a copy. `is_vm` says whether there is a machine of the name before the first
/// colon; without one the whole text is a path of the host.
pub fn parse_cp_endpoint(spec: &str, is_vm: bool) -> (r: CpEndpoint)
    ensures
        is_endpoint(r, spec@, is_vm),
        if is_vm && named_vm(spec@) is Some {
            r matches CpEndpoint::Remote { id, path } && text::split_once_at(spec@, ':') == Some(
                (id@, path@),
            )
        } else {
            r matches CpEndpoint::Local { path } && path@ == spec@
        },
{
    if is_vm {
        if let Some((id, path)) = text::split_once(spec, ':') {
            if !id.as_str().is_empty() {
                return CpEndpoint::Remote { id, path };
            }
        }
    }
    CpEndpoint::Local { path: spec.to_owned() }
}

/// A copy between the host and a machine.
#[derive(Debug, PartialEq, Eq)]
pub struct Transfer {
    pub id: String,
    pub src: String,
    pub dest: String,
    pub direction: ScpDirection,
}

/// Decides on a copy: exactly one of its sides has to be on a machine.
pub fn cp_transfer(source: CpEndpoint, destination: CpEndpoint) -> (r: Result<Transfer, String>)
    ensures
        is_transfer(r, source, destination),
        match (source, destination) {
            (CpEndpoint::Local { path: local }, CpEndpoint::Remote { id, path }) => r == Ok::<
                Transfer,
                String,
            >(Transfer { id, src: local, dest: path, direction: ScpDirection::LocalToVm }),
            (CpEndpoint::Remote { id, path }, CpEndpoint::Local { path: local }) => r == Ok::<
                Transfer,
                String,
            >(Transfer { id, src: path, dest: local, direction: ScpDirection::VmToLocal }),
            (CpEndpoint::Remote { id: src_id, .. }, CpEndpoint::Remote { id: dest_id, .. }) =>
                r matches Err(message) && message@
                == "cp requires one local path and one VM path (got remote paths for '"@ + src_id@
                + "' and '"@ + dest_id@ + "')"@,
            (CpEndpoint::Local { .. }, CpEndpoint::Local { .. }) => r matches Err(message)
                && message@ == "cp requires one VM path in the form <vm-id>:<path>"@,
        },
{
    match (source, destination) {
        (CpEndpoint::Local { path: local }, CpEndpoint::Remote { id, path }) => Ok(
            Transfer { id, src: local, dest: path, direction: ScpDirection::LocalToVm },
        ),
        (CpEndpoint::Remote { id, path }, CpEndpoint::Local { path: local }) => Ok(
            Transfer { id, src: path, dest: local, direction: ScpDirection::VmToLocal },
        ),
        (CpEndpoint::Remote { id: src_id, .. }, CpEndpoint::Remote { id: dest_id, .. }) => Err(
            text::cat5(
                "cp requires one local path and one VM path (got remote paths for '",
                src_id.as_str(),
                "' and '",
                dest_id.as_str(),
                "')",
            ),
        ),
        (CpEndpoint::Local { .. }, CpEndpoint::Local { .. }) => Err(
            "cp requires one VM path in the form <vm-id>:<path>".to_owned(),
        ),
    }
}

/// The records of all machines but those with the given id.
pub open spec fn others(records: Seq<(String, VmRecord)>, id: Seq<char>) -> Seq<(String, VmRecord)>
    decreases records.len(),
{
    if records.len() == 0 {
        seq![]
    } else if records.last().0@ == id {
        others(records.drop_last(), id)
    } else {
        others(records.drop_last(), id).push(records.last())
    }
}

/// The last record with the given id.
pub open spec fn record_of(records: Seq<(String, VmRecord)>, id: Seq<char>) -> Option<VmRecord>
    decreases records.len(),
{
    if records.len() == 0 {
        None
    } else if records.last().0@ == id {
        Some(records.last().1)
    } else {
        record_of(records.drop_last(), id)
    }
}

/// Finds the record of a machine that is to be removed, with the key files that have to stay
/// because another machine uses them.
pub fn rm_with_config(records: Vec<(String, VmRecord)>, id: &str) -> (r: Result<
    (VmRecord, Vec<String>),
    String,
>)
    ensures
        match r {
            Ok((found, keep)) => {
                &&& record_of(records@, id@) == Some(found)
                &&& text::views(keep@) == record::key_paths(others(records@, id@))
            },
            Err(message) => record_of(records@, id@) is None && message@
                == "Failed to find VM record '"@ + id@ + "'"@,
        },
{
    let ghost all = records@;
    let mut rest = records;
    let mut keep: Vec<(String, VmRecord)> = Vec::new();
    let mut target: Option<VmRecord> = None;
    let total: usize = rest.len();
    let mut i: usize = 0;
    while i < total
        invariant
            i <= total,
            total == all.len(),
            rest@ == all.skip(i as int),
            keep@ == others(all.take(i as int), id@),
            target == record_of(all.take(i as int), id@),
        decreases total - i,
    {
        let (existing_id, found) = rest.remove(0);
        proof {
            assert(all.take(i + 1).drop_last() =~= all.take(i as int));
            assert(all.take(i + 1).last() == (existing_id, found));
            assert(rest@ =~= all.skip(i + 1));
        }
        if text::same(existing_id.as_str(), id) {
            target = Some(found);
        } else {
            keep.push((existing_id, found));
        }
        i = i + 1;
    }
    assert(all.take(i as int) =~= all);
    match target {
        Some(found) => Ok((found, record::keep_key_paths(&keep))),
        None => Err(text::cat3("Failed to find VM record '", id, "'")),
    }
}

/// One line per machine that could not be removed.
pub open spec fn failure_lines(failures: Seq<(String, String)>) -> Seq<Seq<char>> {
    failures.map_values(|f: (String, String)| f.0@ + ": "@ + f.1@)
}

/// The message for machines that could not be removed, each with its error.
pub open spec fn clear_failure(failures: Seq<(String, String)>) -> Seq<char> {
    "Failed to clear all VMs:\n"@ + text::joined(failure_lines(failures), "\n"@)
}

/// Judges the removal of all machines: it fails if the removal of any failed.
pub fn clear_vms(failures: &Vec<(String, String)>) -> (r: Result<(), String>)
    ensures
        match r {
            Ok(_) => failures@.len() == 0,
            Err(message) => failures@.len() > 0 && message@ == clear_failure(failures@),
        },
{
    if failures.len() == 0 {
        return Ok(());
    }
    let mut lines: Vec<String> = Vec::new();
    let mut i: usize = 0;
    assert(text::views(lines@) =~= failure_lines(failures@.take(0)));
    while i < failures.len()
        invariant
            i <= failures.len(),
            text::views(lines@) == failure_lines(failures@.take(i as int)),
        decreases failures.len() - i,
    {
        let ghost before = text::views(lines@);
        let line = text::cat3(failures[i].0.as_str(), ": ", failures[i].1.as_str());
        lines.push(line);
        proof {
            assert(text::views(lines@) =~= before.push(line@));
            assert(failure_lines(failures@.take(i + 1)) =~= before.push(line@));
        }
        i = i + 1;
    }
    assert(failures@.take(i as int) =~= failures@);
    let list = text::join(&lines, "\n");
    Err(text::cat2("Failed to clear all VMs:\n", list.as_str()))
}

/// What the removal of all machines asks for next.
#[derive(Debug)]
pub enum ClearStep {
    /// Nothing: there is no machine.
    Nothing,
    /// Remove the machine with this id, which stands at this position.
    RemoveVm { index: usize, id: String },
    /// Remove these directories, each where it is there.
    RemoveDirs { instances: String, keys: String, port_locks: String },
    Fail { message: String },
}

/// The removal of all machines.
#[derive(Debug)]
pub struct Clearing {
    pub instances_dir: String,
    pub keys_dir: String,
    pub ids: Vec<String>,
    /// How many removals were tried.
    pub tried: usize,
    /// The machines that could not be removed, each with its error.
    pub failures: Vec<(String, String)>,
}

impl Clearing {
    pub open spec fn wf(self) -> bool {
        self.tried <= self.ids@.len() && self.failures@.len() <= self.tried
    }

    /// Whether a step is the next one. Every machine is tried, whatever came of those before it.
    /// The directories go only where each machine was removed.
    pub open spec fn goes_on(self, step: ClearStep) -> bool {
        if self.tried < self.ids@.len() {
            step matches ClearStep::RemoveVm { index, id } && index == self.tried && id@
                == self.ids@[index as int]@
        } else if self.failures@.len() > 0 {
            step matches ClearStep::Fail { message } && message@ == clear_failure(self.failures@)
        } else {
            step matches ClearStep::RemoveDirs { instances, keys, port_locks } && instances@
                == self.instances_dir@ && keys@ == self.keys_dir@ && port_locks@
                == port::port_locks_dir(self.instances_dir@)
        }
    }

    fn next(&self) -> (r: ClearStep)
        requires
            self.wf(),
        ensures
            self.goes_on(r),
    {
        if self.tried < self.ids.len() {
            return ClearStep::RemoveVm {
                index: self.tried,
                id: self.ids[self.tried].clone(),
            };
        }
        match clear_vms(&self.failures) {
            Err(message) => ClearStep::Fail { message },
            Ok(_) => ClearStep::RemoveDirs {
                instances: self.instances_dir.clone(),
                keys: self.keys_dir.clone(),
                port_locks: port::ssh_port_locks_dir(self.instances_dir.as_str()),
            },
        }
    }

    /// Starts the removal of the machines with the given ids.
    pub fn begin(instances_dir: &str, keys_dir: &str, ids: Vec<String>) -> (r: (
        Clearing,
        ClearStep,
    ))
        ensures
            r.0.wf(),
            r.0.instances_dir@ == instances_dir@,
            r.0.keys_dir@ == keys_dir@,
            r.0.ids == ids,
            r.0.tried == 0,
            r.0.failures@.len() == 0,
            if ids@.len() == 0 {
                r.1 is Nothing
            } else {
                r.0.goes_on(r.1)
            },
    {
        let none = ids.len() == 0;
        let clearing = Clearing {
            instances_dir: instances_dir.to_owned(),
            keys_dir: keys_dir.to_owned(),
            ids,
            tried: 0,
            failures: Vec::new(),
        };
        let step = if none {
            ClearStep::Nothing
        } else {
            clearing.next()
        };
        (clearing, step)
    }

    /// Goes on once a machine was to be removed.
    pub fn removed(&mut self, outcome: Result<(), String>) -> (r: ClearStep)
        requires
            old(self).wf(),
            old(self).tried < old(self).ids@.len(),
        ensures
            final(self).wf(),
            *final(self) == (Clearing {
                tried: final(self).tried,
                failures: final(self).failures,
                ..*old(self)
            }),
            final(self).tried == old(self).tried + 1,
            match outcome {
                Ok(_) => final(self).failures == old(self).failures,
                Err(reason) => {
                    &&& final(self).failures@.len() == old(self).failures@.len() + 1
                    &&& final(self).failures@.drop_last() == old(self).failures@
                    &&& final(self).failures@.last().0@ == old(self).ids@[old(self).tried as int]@
                    &&& final(self).failures@.last().1 == reason
                },
            },
            final(self).goes_on(r),
    {
        let total: usize = self.ids.len();
        assert(self.tried < total);
        if let Err(reason) = outcome {
            self.failures.push((self.ids[self.tried].clone(), reason));
            assert(self.failures@.drop_last() =~= old(self).failures@);
        }
        self.tried = self.tried + 1;
        self.next()
    }
}

/// A row of the machine list.
pub open spec fn row(
    id: Seq<char>,
    hostname: Seq<char>,
    user: Seq<char>,
    port: Seq<char>,
    pid: Seq<char>,
    status: Seq<char>,
    created: Seq<char>,
) -> Seq<char> {
    text::padded(id, 36) + " "@ + text::padded(hostname, 14) + " "@ + text::padded(user, 10) + " "@
        + text::padded(port, 5) + " "@ + text::padded(pid, 8) + " "@ + text::padded(status, 10)
        + " "@ + text::padded(created, 20) + "\n"@
}

fn format_row(
    id: &str,
    hostname: &str,
    user: &str,
    port: &str,
    pid: &str,
    status: &str,
    created: &str,
) -> (r: String)
    ensures
        r@ == row(id@, hostname@, user@, port@, pid@, status@, created@),
{
    let a = text::pad(id, 36);
    let b = text::pad(hostname, 14);
    let c = text::pad(user, 10);
    let d = text::pad(port, 5);
    let e = text::pad(pid, 8);
    let f = text::pad(status, 10);
    let g = text::pad(created, 20);
    let mut out = text::cat7(
        a.as_str(),
        " ",
        b.as_str(),
        " ",
        c.as_str(),
        " ",
        d.as_str(),
    );
    out.append(" ");
    out.append(e.as_str());
    out.append(" ");
    out.append(f.as_str());
    out.append(" ");
    out.append(g.as_str());
    out.append("\n");
    out
}

/// The row of a machine. One that is gone although it is recorded as running has none.
pub open spec fn record_row(id: Seq<char>, record: VmRecord, pid_alive: bool) -> Seq<char> {
    if record.status_now(pid_alive) is Stale && record.status is Running {
        seq![]
    } else {
        row(
            id,
            record.hostname@,
            record.username@,
            text::decimal(record.ssh_port as nat),
            match record.pid {
                Some(pid) => text::decimal(pid as nat),
                None => "-"@,
            },
            record::status_label(record.status_now(pid_alive)),
            text::decimal(record.created_at as nat),
        )
    }
}

/// Whether the process of the machine at position `i` is alive, as far as anyone looked.
pub open spec fn alive_at(alive: Seq<bool>, i: int) -> bool {
    0 <= i < alive.len() && alive[i]
}

/// The rows of machines, in their order.
pub open spec fn record_rows(records: Seq<(String, VmRecord)>, alive: Seq<bool>) -> Seq<char>
    decreases records.len(),
{
    if records.len() == 0 {
        seq![]
    } else {
        record_rows(records.drop_last(), alive) + record_row(
            records.last().0@,
            records.last().1,
            alive_at(alive, records.len() - 1),
        )
    }
}

/// The head of the machine list.
pub open spec fn list_head() -> Seq<char> {
    row("ID"@, "Hostname"@, "User"@, "Port"@, "PID"@, "Status"@, "Created"@) + text::repeated(
        '-',
        111,
    ) + "\n"@
}

/// The machine list.
pub open spec fn machine_list(records: Seq<(String, VmRecord)>, alive: Seq<bool>) -> Seq<char> {
    if records.len() == 0 {
        "No VMs found\n"@
    } else {
        list_head() + record_rows(records, alive)
    }
}

fn append_record(out: &mut String, id: &str, record: &VmRecord, pid_alive: bool)
    ensures
        final(out)@ == old(out)@ + record_row(id@, *record, pid_alive),
{
    if record.runtime_status(pid_alive) == VmRuntimeStatus::Stale && record.status
        == VmStatus::Running {
        assert(out@ =~= old(out)@ + record_row(id@, *record, pid_alive));
        return;
    }
    let pid = match record.pid {
        Some(pid) => text::number(pid as u64),
        None => "-".to_owned(),
    };
    let port = text::number(record.ssh_port as u64);
    let created = text::number(record.created_at);
    let line = format_row(
        id,
        record.hostname.as_str(),
        record.username.as_str(),
        port.as_str(),
        pid.as_str(),
        record.runtime_status_label(pid_alive),
        created.as_str(),
    );
    out.append(line.as_str());
}

/// Renders the machine list. `alive` says of each machine whether its recorded process is alive.
pub fn list_vms_inner(records: &Vec<(String, VmRecord)>, alive: &[bool]) -> (r: String)
    ensures
        r@ == machine_list(records@, alive@),
{
    if records.len() == 0 {
        return "No VMs found\n".to_owned();
    }
    let mut out = format_row("ID", "Hostname", "User", "Port", "PID", "Status", "Created");
    text::push_repeated(&mut out, '-', 111);
    out.append("\n");
    let ghost head = out@;
    let mut i: usize = 0;
    assert(out@ =~= head + record_rows(records@.take(0), alive@));
    while i < records.len()
        invariant
            i <= records.len(),
            out@ == head + record_rows(records@.take(i as int), alive@),
        decreases records.len() - i,
    {
        let pid_alive = i < alive.len() && alive[i];
        let ghost before = out@;
        append_record(&mut out, records[i].0.as_str(), &records[i].1, pid_alive);
        proof {
            assert(records@.take(i + 1).drop_last() =~= records@.take(i as int));
            let added = record_row(records@[i as int].0@, records@[i as int].1, pid_alive);
            assert(head + (record_rows(records@.take(i as int), alive@) + added) =~= before + added);
        }
        i = i + 1;
    }
    assert(records@.take(i as int) =~= records@);
    out
}

/// A copy goes to the machine that it is meant for: to the port that a login to the machine goes
/// to, with the same key, and to the same account on the same host. What is read and what is
/// written are the two paths, in the order of the direction.
pub proof fn law_copy_goes_to_its_machine(
    record: VmRecord,
    src: Seq<char>,
    dest: Seq<char>,
    recursive: bool,
    direction: ScpDirection,
)
    ensures
        ({
            let args = scp_args(record, src, dest, recursive, direction);
            let login = client::login_args(
                "127.0.0.1"@,
                record.ssh_port as nat,
                record.username@,
                record.private_key_path@,
            );
            let port = text::decimal(record.ssh_port as nat);
            let n = args.len() as int;
            let remote = |path: Seq<char>| login.last() + ":"@ + path;
            &&& text::gives(args, "-P"@, port) && text::gives(login, "-p"@, port)
            &&& text::parsed_unsigned(port, u16::MAX as nat) == Some(record.ssh_port as nat)
            &&& text::gives(args, "-i"@, record.private_key_path@)
            &&& text::gives(login, "-i"@, record.private_key_path@)
            &&& text::gives(args, "-o"@, "StrictHostKeyChecking=no"@)
            &&& text::gives(args, "-o"@, "UserKnownHostsFile=/dev/null"@)
            &&& args[0] == "-O"@
            &&& n == (if recursive {
                12int
            } else {
                11int
            })
            &&& recursive ==> args[1] == "-r"@
            &&& direction is LocalToVm ==> args[n - 2] == src && args[n - 1] == remote(dest)
            &&& direction is VmToLocal ==> args[n - 2] == remote(src) && args[n - 1] == dest
        }),
{
    reveal_strlit("@127.0.0.1:");
    reveal_strlit("@");
    reveal_strlit("127.0.0.1");
    reveal_strlit(":");
    let args = scp_args(record, src, dest, recursive, direction);
    let k: int = if recursive {
        2
    } else {
        1
    };
    text::lemma_gives(args, k);
    text::lemma_gives(args, k + 2);
    text::lemma_gives(args, k + 4);
    text::lemma_gives(args, k + 6);
    client::law_login_goes_where_it_is_sent(
        "127.0.0.1"@,
        record.ssh_port as nat,
        record.username@,
        record.private_key_path@,
    );
    text::law_number_is_read_back(record.ssh_port as nat, u16::MAX as nat);
    let login = client::login_args(
        "127.0.0.1"@,
        record.ssh_port as nat,
        record.username@,
        record.private_key_path@,
    );
    assert(remote_path(record.username@, src) =~= login.last() + ":"@ + src);
    assert(remote_path(record.username@, dest) =~= login.last() + ":"@ + dest);
}

/// Copies to machines on different ports, or with different keys, differ.
pub proof fn law_copies_to_different_machines_differ(
    a: VmRecord,
    b: VmRecord,
    src: Seq<char>,
    dest: Seq<char>,
    recursive: bool,
    direction: ScpDirection,
)
    requires
        scp_args(a, src, dest, recursive, direction) == scp_args(b, src, dest, recursive, direction),
    ensures
        a.ssh_port == b.ssh_port,
        a.private_key_path@ == b.private_key_path@,
{
    let x = scp_args(a, src, dest, recursive, direction);
    let y = scp_args(b, src, dest, recursive, direction);
    let k: int = if recursive {
        2
    } else {
        1
    };
    assert(x[k + 1] == a.private_key_path@ && y[k + 1] == b.private_key_path@);
    assert(x[k + 3] == text::decimal(a.ssh_port as nat) && y[k + 3] == text::decimal(
        b.ssh_port as nat,
    ));
    text::lemma_decimal_distinct(a.ssh_port as nat, b.ssh_port as nat);
}

/// Whether `r` is what a side of a copy is read as.
pub open spec fn is_endpoint(r: CpEndpoint, spec: Seq<char>, is_vm: bool) -> bool {
    if is_vm && named_vm(spec) is Some {
        r matches CpEndpoint::Remote { id, path } && text::split_once_at(spec, ':') == Some(
            (id@, path@),
        )
    } else {
        r matches CpEndpoint::Local { path } && path@ == spec
    }
}

/// Whether `r` is what is decided on a copy.
pub open spec fn is_transfer(
    r: Result<Transfer, String>,
    source: CpEndpoint,
    destination: CpEndpoint,
) -> bool {
    match (source, destination) {
        (CpEndpoint::Local { path: local }, CpEndpoint::Remote { id, path }) => r == Ok::<
            Transfer,
            String,
        >(Transfer { id, src: local, dest: path, direction: ScpDirection::LocalToVm }),
        (CpEndpoint::Remote { id, path }, CpEndpoint::Local { path: local }) => r == Ok::<
            Transfer,
            String,
        >(Transfer { id, src: path, dest: local, direction: ScpDirection::VmToLocal }),
        _ => r is Err,
    }
}

/// `<id>:<path>` is a path on the machine of that id where there is such a machine, whatever the
/// path holds, and else a path of the host.
pub proof fn law_endpoint_names_its_machine(
    r: CpEndpoint,
    id: Seq<char>,
    path: Seq<char>,
    is_vm: bool,
)
    requires
        id.len() > 0,
        !id.contains(':'),
        is_endpoint(r, id + seq![':'] + path, is_vm),
    ensures
        named_vm(id + seq![':'] + path) == Some(id),
        is_vm ==> r is Remote && r->id@ == id && r->Remote_path@ == path,
        !is_vm ==> r is Local && r->Local_path@ == id + seq![':'] + path,
{
    let whole = id + seq![':'] + path;
    let n = id.len() as int;
    assert(whole[n] == ':');
    assert forall|j: int| 0 <= j < n implies whole[j] != ':' by {
        assert(id.contains(id[j]));
    }
    text::lemma_first_index_is(whole, ':', n);
    assert(whole.take(n) =~= id);
    assert(whole.skip(n + 1) =~= path);
}

/// A text without a colon is a path of the host.
pub proof fn law_plain_path_is_of_the_host(r: CpEndpoint, spec: Seq<char>, is_vm: bool)
    requires
        !spec.contains(':'),
        is_endpoint(r, spec, is_vm),
    ensures
        r is Local && r->Local_path@ == spec,
{
    text::lemma_first_index(spec, ':');
}

/// A copy reads its source and writes its destination, on the machine that one of them names;
/// exactly one of them has to.
pub proof fn law_copy_goes_from_source_to_destination(
    r: Result<Transfer, String>,
    source: CpEndpoint,
    destination: CpEndpoint,
)
    requires
        is_transfer(r, source, destination),
    ensures
        r is Ok <==> (source is Remote) != (destination is Remote),
        r matches Ok(transfer) ==> {
            &&& transfer.direction is LocalToVm <==> destination is Remote
            &&& transfer.direction is VmToLocal <==> source is Remote
            &&& transfer.src@ == (match source {
                CpEndpoint::Local { path } => path@,
                CpEndpoint::Remote { path, .. } => path@,
            })
            &&& transfer.dest@ == (match destination {
                CpEndpoint::Local { path } => path@,
                CpEndpoint::Remote { path, .. } => path@,
            })
            &&& transfer.id@ == (if source is Remote {
                source->id@
            } else {
                destination->id@
            })
        },
{
}

/// A machine can be reached exactly if it runs and its key is there. The message for one that
/// cannot be reached names the machine or the key.
pub proof fn law_reachable_machine(
    id: Seq<char>,
    record: VmRecord,
    pid_alive: bool,
    key_exists: bool,
)
    ensures
        unreachable_fault(id, record, pid_alive, key_exists) is None <==> record.status_now(
            pid_alive,
        ) is Running && key_exists,
        unreachable_fault(id, record, pid_alive, key_exists) matches Some(message) ==> {
            &&& !(record.status_now(pid_alive) is Running) ==> ("VM '"@ + id + "' is "@).is_prefix_of(
                message,
            )
            &&& record.status_now(pid_alive) is Stopped ==> ("stopped"@).is_suffix_of(message)
            &&& record.status_now(pid_alive) is Stale ==> ("not running"@).is_suffix_of(message)
            &&& record.status_now(pid_alive) is Running ==> record.private_key_path@.is_suffix_of(
                message,
            )
        },
{
    if let Some(message) = unreachable_fault(id, record, pid_alive, key_exists) {
        reveal_strlit("VM '");
        reveal_strlit("' is ");
        reveal_strlit("' is stopped");
        reveal_strlit("' is not running");
        reveal_strlit("stopped");
        reveal_strlit("not running");
        let n = message.len() as int;
        let head = "VM '"@ + id + "' is "@;
        let key = record.private_key_path@;
        match record.status_now(pid_alive) {
            VmRuntimeStatus::Stopped => {
                assert(head =~= message.subrange(0, head.len() as int));
                assert("stopped"@ =~= message.subrange(n - 7, n));
            },
            VmRuntimeStatus::Stale => {
                assert(head =~= message.subrange(0, head.len() as int));
                assert("not running"@ =~= message.subrange(n - 11, n));
            },
            VmRuntimeStatus::Running => {
                assert(key =~= message.subrange(n - key.len(), n));
            },
        }
    }
}

/// The machine that is removed is the one of the id, and what is left are exactly the others, in
/// their order.
pub proof fn law_only_the_named_machine_is_removed(
    records: Seq<(String, VmRecord)>,
    id: Seq<char>,
)
    ensures
        record_of(records, id) is Some <==> exists|i: int|
            0 <= i < records.len() && (#[trigger] records[i]).0@ == id,
        record_of(records, id) matches Some(record) ==> exists|i: int|
            0 <= i < records.len() && (#[trigger] records[i]).0@ == id && records[i].1 == record,
        forall|k: int|
            0 <= k < others(records, id).len() ==> (#[trigger] others(records, id)[k]).0@ != id,
        forall|i: int|
            0 <= i < records.len() && (#[trigger] records[i]).0@ != id ==> others(
                records,
                id,
            ).contains(records[i]),
        others(records, id).len() <= records.len(),
    decreases records.len(),
{
    if records.len() > 0 {
        let before = records.drop_last();
        law_only_the_named_machine_is_removed(before, id);
        let last = records.last();
        assert(records[records.len() - 1] == last);
        if last.0@ != id {
            if record_of(before, id) is Some {
                let record = record_of(before, id)->0;
                let i = choose|i: int|
                    0 <= i < before.len() && (#[trigger] before[i]).0@ == id && before[i].1
                        == record;
                assert(records[i] == before[i]);
            }
            if exists|i: int| 0 <= i < records.len() && (#[trigger] records[i]).0@ == id {
                let i = choose|i: int| 0 <= i < records.len() && (#[trigger] records[i]).0@ == id;
                assert(before[i] == records[i]);
            }
        }
        let now = others(records, id);
        let then_left = others(before, id);
        assert forall|i: int|
            0 <= i < records.len() && (#[trigger] records[i]).0@ != id implies now.contains(
            records[i],
        ) by {
            if i < before.len() {
                assert(before[i] == records[i]);
                assert(then_left.contains(before[i]));
                let k = choose|k: int| 0 <= k < then_left.len() && then_left[k] == before[i];
                assert(now[k] == records[i]);
            } else {
                assert(now[now.len() - 1] == last);
            }
        }
    }
}

/// All machines are removed one after the other, whatever comes of each. The directories that they
/// share go only if each of them was removed.
pub proof fn law_shared_directories_go_last(clearing: Clearing, step: ClearStep)
    requires
        clearing.wf(),
        clearing.goes_on(step),
    ensures
        step is RemoveVm <==> clearing.tried < clearing.ids@.len(),
        step is RemoveVm ==> step->index == clearing.tried && step->id@
            == clearing.ids@[step->index as int]@,
        step is RemoveDirs <==> clearing.tried == clearing.ids@.len() && clearing.failures@.len()
            == 0,
        step is RemoveDirs ==> {
            &&& step->instances@ == clearing.instances_dir@
            &&& step->keys@ == clearing.keys_dir@
            &&& clearing.instances_dir@.is_prefix_of(step->port_locks@)
            &&& (".ssh-port-locks"@).is_suffix_of(step->port_locks@)
        },
        step is Fail ==> clearing.failures@.len() > 0 && ("Failed to clear all VMs:\n"@).is_prefix_of(
            step->message@,
        ),
{
    reveal_strlit(".ssh-port-locks");
    crate::path::lemma_joined_ends(clearing.instances_dir@, ".ssh-port-locks"@);
    if step is Fail {
        let message = step->message@;
        let head = "Failed to clear all VMs:\n"@;
        assert(head =~= message.subrange(0, head.len() as int));
    }
}

/// The columns of the machine list stand below each other: each value that fits starts where its
/// column starts.
pub proof fn law_columns_of_the_list(
    id: Seq<char>,
    hostname: Seq<char>,
    user: Seq<char>,
    port: Seq<char>,
    pid: Seq<char>,
    status: Seq<char>,
    created: Seq<char>,
)
    requires
        id.len() <= 36 && hostname.len() <= 14 && user.len() <= 10 && port.len() <= 5,
        pid.len() <= 8 && status.len() <= 10 && created.len() <= 20,
    ensures
        ({
            let line = row(id, hostname, user, port, pid, status, created);
            &&& line.len() == 110
            &&& line.subrange(0, id.len() as int) == id
            &&& line.subrange(37, (37 + hostname.len()) as int) == hostname
            &&& line.subrange(52, (52 + user.len()) as int) == user
            &&& line.subrange(63, (63 + port.len()) as int) == port
            &&& line.subrange(69, (69 + pid.len()) as int) == pid
            &&& line.subrange(78, (78 + status.len()) as int) == status
            &&& line.subrange(89, (89 + created.len()) as int) == created
            &&& line.last() == '\n'
        }),
{
    reveal_strlit(" ");
    reveal_strlit("\n");
    let line = row(id, hostname, user, port, pid, status, created);
    assert(line.subrange(0, id.len() as int) =~= id);
    assert(line.subrange(37, (37 + hostname.len()) as int) =~= hostname);
    assert(line.subrange(52, (52 + user.len()) as int) =~= user);
    assert(line.subrange(63, (63 + port.len()) as int) =~= port);
    assert(line.subrange(69, (69 + pid.len()) as int) =~= pid);
    assert(line.subrange(78, (78 + status.len()) as int) =~= status);
    assert(line.subrange(89, (89 + created.len()) as int) =~= created);
}

/// Every machine has its row in the list, with its name, its account, its port, its process and
/// its status, except one that is gone although it is recorded as running.
pub proof fn law_every_machine_is_listed(
    records: Seq<(String, VmRecord)>,
    alive: Seq<bool>,
    i: int,
)
    requires
        0 <= i < records.len(),
        alive.len() == records.len(),
    ensures
        ({
            let record = records[i].1;
            let shown = record_row(records[i].0@, record, alive[i]);
            &&& text::occurs_in(shown, machine_list(records, alive))
            &&& shown.len() == 0 <==> record.status is Running && record.pid is Some && !alive[i]
            &&& shown.len() > 0 ==> shown == row(
                records[i].0@,
                record.hostname@,
                record.username@,
                text::decimal(record.ssh_port as nat),
                if record.pid is Some {
                    text::decimal(record.pid->0 as nat)
                } else {
                    "-"@
                },
                record::status_label(record.status_now(alive[i])),
                text::decimal(record.created_at as nat),
            )
        }),
{
    let shown = record_row(records[i].0@, records[i].1, alive[i]);
    lemma_row_is_among(records, alive, i);
    let rows = record_rows(records, alive);
    text::lemma_occurs_within(list_head(), shown, rows, seq![]);
    assert(list_head() + rows + seq![] =~= machine_list(records, alive));
    reveal_strlit("\n");
}

proof fn lemma_row_is_among(records: Seq<(String, VmRecord)>, alive: Seq<bool>, i: int)
    requires
        0 <= i < records.len(),
        records.len() <= alive.len(),
    ensures
        text::occurs_in(
            record_row(records[i].0@, records[i].1, alive[i]),
            record_rows(records, alive),
        ),
    decreases records.len(),
{
    let shown = record_row(records[i].0@, records[i].1, alive[i]);
    let before = record_rows(records.drop_last(), alive);
    let last = record_row(
        records.last().0@,
        records.last().1,
        alive_at(alive, records.len() - 1),
    );
    if i == records.len() - 1 {
        text::lemma_occurs_between(before, last, seq![]);
        assert(before + last + seq![] =~= record_rows(records, alive));
    } else {
        lemma_row_is_among(records.drop_last(), alive, i);
        text::lemma_occurs_within(seq![], shown, before, last);
        assert(seq![] + before + last =~= record_rows(records, alive));
    }
}

/// A command is looked for under its own name in each directory of the search path, in their
/// order.
pub proof fn law_command_is_looked_for_in_each_directory(
    dirs: Seq<Seq<char>>,
    name: Seq<char>,
    i: int,
)
    requires
        0 <= i < dirs.len(),
        !crate::path::absolute(name),
    ensures
        candidates(dirs, name).len() == dirs.len(),
        dirs[i].is_prefix_of(candidates(dirs, name)[i]),
        name.is_suffix_of(candidates(dirs, name)[i]),
{
    crate::path::lemma_joined_ends(dirs[i], name);
}

} // verus!
