//! The records that the tool keeps of its virtual machines.

use vstd::prelude::*;

use crate::path;
use crate::text;
use crate::vm::process;

verus! {

#[derive(Debug, Clone, Copy, PartialEq, Eq, Structural)]
pub enum VmStatus {
    Running,
    Stopped,
}

/// What is written down about a virtual machine.
#[derive(Debug, PartialEq, Eq)]
pub struct VmRecord {
    pub id: String,
    pub hostname: String,
    pub username: String,
    pub ssh_port: u16,
    pub private_key_path: String,
    pub disk_path: String,
    pub seed_iso_path: String,
    pub pid: Option<u32>,
    pub sidecar_pids: Vec<u32>,
    pub status: VmStatus,
    pub created_at: u64,
    pub host_profile: String,
}

/// Whether two records say the same.
pub open spec fn same_record(a: VmRecord, b: VmRecord) -> bool {
    &&& a.id == b.id
    &&& a.hostname == b.hostname
    &&& a.username == b.username
    &&& a.ssh_port == b.ssh_port
    &&& a.private_key_path == b.private_key_path
    &&& a.disk_path == b.disk_path
    &&& a.seed_iso_path == b.seed_iso_path
    &&& a.pid == b.pid
    &&& a.sidecar_pids@ == b.sidecar_pids@
    &&& a.status == b.status
    &&& a.created_at == b.created_at
    &&& a.host_profile == b.host_profile
}

impl Clone for VmRecord {
    fn clone(&self) -> (r: Self)
        ensures
            same_record(r, *self),
    {
        let sidecar_pids = self.sidecar_pids.clone();
        assert(sidecar_pids@ =~= self.sidecar_pids@);
        VmRecord {
            id: self.id.clone(),
            hostname: self.hostname.clone(),
            username: self.username.clone(),
            ssh_port: self.ssh_port,
            private_key_path: self.private_key_path.clone(),
            disk_path: self.disk_path.clone(),
            seed_iso_path: self.seed_iso_path.clone(),
            pid: self.pid,
            sidecar_pids,
            status: self.status,
            created_at: self.created_at,
            host_profile: self.host_profile.clone(),
        }
    }
}

/// What a machine is found to be doing.
#[derive(Debug, Clone, Copy, PartialEq, Eq, Structural)]
pub enum VmRuntimeStatus {
    Running,
    Stopped,
    Stale,
}

impl VmRecord {
    /// What the machine is doing, given whether the recorded process is alive.
    pub open spec fn status_now(self, pid_alive: bool) -> VmRuntimeStatus {
        if self.status is Stopped || self.pid is None {
            VmRuntimeStatus::Stopped
        } else if pid_alive {
            VmRuntimeStatus::Running
        } else {
            VmRuntimeStatus::Stale
        }
    }

    pub fn runtime_status(&self, pid_alive: bool) -> (r: VmRuntimeStatus)
        ensures
            r == self.status_now(pid_alive),
    {
        if self.status == VmStatus::Stopped {
            return VmRuntimeStatus::Stopped;
        }
        match self.pid {
            Some(_) => if pid_alive {
                VmRuntimeStatus::Running
            } else {
                VmRuntimeStatus::Stale
            },
            None => VmRuntimeStatus::Stopped,
        }
    }

    pub fn runtime_status_label(&self, pid_alive: bool) -> (r: &'static str)
        ensures
            r@ == status_label(self.status_now(pid_alive)),
    {
        match self.runtime_status(pid_alive) {
            VmRuntimeStatus::Running => "running",
            VmRuntimeStatus::Stopped => "stopped",
            VmRuntimeStatus::Stale => "stale",
        }
    }
}

/// How a machine's status is shown.
pub open spec fn status_label(status: VmRuntimeStatus) -> Seq<char> {
    match status {
        VmRuntimeStatus::Running => "running"@,
        VmRuntimeStatus::Stopped => "stopped"@,
        VmRuntimeStatus::Stale => "stale"@,
    }
}

/// Whether an id is `vm` followed by digits.
pub open spec fn sequential(id: Seq<char>) -> bool {
    "vm"@.is_prefix_of(id) && text::all_digits(id.skip(2))
}

pub fn is_sequential_vm_id(id: &str) -> (r: bool)
    ensures
        r == sequential(id@),
{
    proof {
        reveal_strlit("vm");
    }
    match text::strip_prefix(id, "vm") {
        Some(suffix) => text::is_all_digits(suffix.as_str()),
        None => false,
    }
}

/// The number in a sequential id, where it fits.
pub open spec fn vm_index(id: Seq<char>) -> Option<nat> {
    if sequential(id) && text::digits_value(id.skip(2)) <= u32::MAX {
        Some(text::digits_value(id.skip(2)))
    } else {
        None
    }
}

pub fn vm_index_from_id(id: &str) -> (r: Option<u32>)
    ensures
        match r {
            Some(n) => vm_index(id@) == Some(n as nat),
            None => vm_index(id@) is None,
        },
{
    proof {
        reveal_strlit("vm");
    }
    if !is_sequential_vm_id(id) {
        return None;
    }
    match text::strip_prefix(id, "vm") {
        Some(suffix) => {
            assert(suffix@ == id@.skip(2));
            assert(text::ascii_digit(suffix@[0]));
            match text::parse_unsigned(suffix.as_str(), u32::MAX as u64) {
                Some(n) => Some(n as u32),
                None => None,
            }
        },
        None => None,
    }
}

/// The id with the given number.
pub open spec fn vm_id(index: nat) -> Seq<char> {
    "vm"@ + text::decimal(index)
}

/// The number in an id is the number that the id was made from.
pub proof fn law_id_keeps_index(index: nat)
    requires
        index <= u32::MAX,
    ensures
        vm_index(vm_id(index)) == Some(index),
{
    reveal_strlit("vm");
    text::lemma_decimal(index);
    assert(vm_id(index).skip(2) =~= text::decimal(index));
    assert("vm"@ =~= vm_id(index).subrange(0, 2));
}

/// The greatest number among the sequential ids of a list.
pub open spec fn max_index(names: Seq<Seq<char>>) -> Option<nat>
    decreases names.len(),
{
    if names.len() == 0 {
        None
    } else {
        let before = max_index(names.drop_last());
        match vm_index(names.last()) {
            None => before,
            Some(n) => if before is None || n > before->0 {
                Some(n)
            } else {
                before
            },
        }
    }
}

/// The number that the next machine gets.
pub open spec fn next_index(names: Seq<Seq<char>>) -> nat {
    match max_index(names) {
        None => 0,
        Some(n) => n + 1,
    }
}

/// Finds the greatest number among the sequential ids of a list.
pub fn max_vm_index(names: &[String]) -> (r: Option<u32>)
    ensures
        match r {
            Some(n) => max_index(text::views(names@)) == Some(n as nat),
            None => max_index(text::views(names@)) is None,
        },
{
    let ghost all = text::views(names@);
    let mut best: Option<u32> = None;
    let mut i: usize = 0;
    while i < names.len()
        invariant
            i <= names@.len(),
            all == text::views(names@),
            match best {
                Some(n) => max_index(all.take(i as int)) == Some(n as nat),
                None => max_index(all.take(i as int)) is None,
            },
        decreases names@.len() - i,
    {
        proof {
            assert(all.take(i + 1).drop_last() =~= all.take(i as int));
            assert(all.take(i + 1).last() == names@[i as int]@);
        }
        if let Some(index) = vm_index_from_id(names[i].as_str()) {
            best = match best {
                None => Some(index),
                Some(max) => if index > max {
                    Some(index)
                } else {
                    Some(max)
                },
            };
        }
        i = i + 1;
    }
    assert(all.take(i as int) =~= all);
    best
}

/// The id for a new machine. `names` are the names of the existing instance directories.
pub fn next_vm_id(names: &[String]) -> (r: String)
    requires
        max_index(text::views(names@)) != Some(u32::MAX as nat),
    ensures
        r@ == vm_id(next_index(text::views(names@))),
{
    let index: u32 = match max_vm_index(names) {
        None => 0,
        Some(max) => max + 1,
    };
    let n = text::number(index as u64);
    text::cat2("vm", n.as_str())
}

proof fn lemma_max_index_bounds(names: Seq<Seq<char>>, i: int)
    requires
        0 <= i < names.len(),
        vm_index(names[i]) is Some,
    ensures
        max_index(names) is Some,
        vm_index(names[i])->0 <= max_index(names)->0,
    decreases names.len(),
{
    if i < names.len() - 1 {
        lemma_max_index_bounds(names.drop_last(), i);
    }
}

/// The id of a new machine is none of the existing names, and its number is greater than every
/// number in use.
pub proof fn law_next_id_is_fresh(names: Seq<Seq<char>>)
    requires
        next_index(names) <= u32::MAX,
    ensures
        !names.contains(vm_id(next_index(names))),
        forall|i: int|
            0 <= i < names.len() && vm_index(#[trigger] names[i]) is Some ==> vm_index(names[i])->0
                < next_index(names),
{
    law_id_keeps_index(next_index(names));
    assert forall|i: int| 0 <= i < names.len() && vm_index(#[trigger] names[i]) is Some implies vm_index(
        names[i],
    )->0 < next_index(names) by {
        lemma_max_index_bounds(names, i);
    }
    if names.contains(vm_id(next_index(names))) {
        let i = choose|i: int| 0 <= i < names.len() && names[i] == vm_id(next_index(names));
        assert(vm_index(names[i]) is Some);
    }
}

/// The key files that the machines of a list use, one per machine.
pub open spec fn key_paths(records: Seq<(String, VmRecord)>) -> Seq<Seq<char>> {
    records.map_values(|r: (String, VmRecord)| r.1.private_key_path@)
}

/// The key files that have to stay because a machine of the list uses them.
pub fn keep_key_paths(records: &Vec<(String, VmRecord)>) -> (r: Vec<String>)
    ensures
        text::views(r@) == key_paths(records@),
{
    let mut out: Vec<String> = Vec::new();
    let mut i: usize = 0;
    assert(text::views(out@) =~= key_paths(records@.take(0)));
    while i < records.len()
        invariant
            i <= records.len(),
            text::views(out@) == key_paths(records@.take(i as int)),
        decreases records.len() - i,
    {
        let ghost before = text::views(out@);
        let key = records[i].1.private_key_path.clone();
        out.push(key);
        proof {
            assert(text::views(out@) =~= before.push(key@));
            assert(key_paths(records@.take(i + 1)) =~= key_paths(records@.take(i as int)).push(
                key@,
            ));
        }
        i = i + 1;
    }
    assert(records@.take(i as int) =~= records@);
    out
}

/// Where the files of a machine stand.
pub fn vm_dir(instances_dir: &str, id: &str) -> (r: String)
    ensures
        r@ == path::joined(instances_dir@, id@),
{
    path::join(instances_dir, id)
}

/// Where the record of a machine stands.
pub fn vm_record_path(instances_dir: &str, id: &str) -> (r: String)
    ensures
        r@ == record_file(instances_dir@, id@),
        r@ == path::joined(path::joined(instances_dir@, id@), "vm.json"@),
{
    let dir = vm_dir(instances_dir, id);
    path::join(dir.as_str(), "vm.json")
}

/// Where QEMU writes the number of its process.
pub fn pid_file_path(instances_dir: &str, id: &str) -> (r: String)
    ensures
        r@ == pid_file(instances_dir@, id@),
        r@ == path::joined(path::joined(instances_dir@, id@), "qemu.pid"@),
{
    let dir = vm_dir(instances_dir, id);
    path::join(dir.as_str(), "qemu.pid")
}

/// The process number that the text of a file holds.
pub open spec fn pid_in(contents: Seq<char>) -> Option<nat> {
    text::parsed_unsigned(text::trimmed(contents), u32::MAX as nat)
}

pub fn read_pid_file(contents: &str) -> (r: Option<u32>)
    ensures
        match r {
            Some(pid) => pid_in(contents@) == Some(pid as nat),
            None => pid_in(contents@) is None,
        },
{
    let t = text::trim(contents);
    match text::parse_unsigned(t.as_str(), u32::MAX as u64) {
        Some(n) => Some(n as u32),
        None => None,
    }
}

/// `records` with `added` put behind the last one that is not younger.
pub open spec fn inserted_by_age(
    records: Seq<(String, VmRecord)>,
    added: (String, VmRecord),
) -> Seq<(String, VmRecord)>
    decreases records.len(),
{
    if records.len() == 0 || records.last().1.created_at <= added.1.created_at {
        records.push(added)
    } else {
        inserted_by_age(records.drop_last(), added).push(records.last())
    }
}

/// The records from the oldest to the youngest; those of one age keep their order.
pub open spec fn by_age(records: Seq<(String, VmRecord)>) -> Seq<(String, VmRecord)>
    decreases records.len(),
{
    if records.len() == 0 {
        records
    } else {
        inserted_by_age(by_age(records.drop_last()), records.last())
    }
}

proof fn lemma_inserted_at(
    records: Seq<(String, VmRecord)>,
    added: (String, VmRecord),
    k: int,
)
    requires
        0 <= k <= records.len(),
        k > 0 ==> records[k - 1].1.created_at <= added.1.created_at,
        forall|j: int| k <= j < records.len() ==> (#[trigger] records[j]).1.created_at > added.1.created_at,
    ensures
        inserted_by_age(records, added) == records.insert(k, added),
    decreases records.len(),
{
    if k < records.len() {
        lemma_inserted_at(records.drop_last(), added, k);
        assert(records.drop_last().insert(k, added).push(records.last()) =~= records.insert(
            k,
            added,
        ));
    } else {
        assert(records.insert(k, added) =~= records.push(added));
    }
}

/// Orders records from the oldest machine to the youngest.
pub fn list_vm_records(found: Vec<(String, VmRecord)>) -> (r: Vec<(String, VmRecord)>)
    ensures
        r@ == by_age(found@),
{
    let ghost all = found@;
    let mut rest = found;
    let mut out: Vec<(String, VmRecord)> = Vec::new();
    let mut done: usize = 0;
    let total: usize = rest.len();
    while done < total
        invariant
            done <= total,
            total == all.len(),
            rest@ == all.skip(done as int),
            out@ == by_age(all.take(done as int)),
        decreases total - done,
    {
        let added = rest.remove(0);
        let mut k: usize = out.len();
        while k > 0 && out[k - 1].1.created_at > added.1.created_at
            invariant
                k <= out@.len(),
                forall|j: int|
                    k <= j < out@.len() ==> (#[trigger] out@[j]).1.created_at > added.1.created_at,
            decreases k,
        {
            k = k - 1;
        }
        proof {
            lemma_inserted_at(out@, added, k as int);
            assert(all.take(done + 1).drop_last() =~= all.take(done as int));
            assert(all.take(done + 1).last() == added);
            assert(rest@ =~= all.skip(done + 1));
        }
        out.insert(k, added);
        done = done + 1;
    }
    assert(all.take(done as int) =~= all);
    out
}

proof fn lemma_inserted_by_age(records: Seq<(String, VmRecord)>, added: (String, VmRecord))
    requires
        sorted_by_age(records),
    ensures
        sorted_by_age(inserted_by_age(records, added)),
        inserted_by_age(records, added).to_multiset() == records.to_multiset().insert(added),
        inserted_by_age(records, added).len() > 0,
        inserted_by_age(records, added).last() == added || (records.len() > 0 && inserted_by_age(
            records,
            added,
        ).last() == records.last()),
    decreases records.len(),
{
    broadcast use vstd::seq_lib::group_to_multiset_ensures;

    if records.len() == 0 || records.last().1.created_at <= added.1.created_at {
    } else {
        let init = records.drop_last();
        lemma_inserted_by_age(init, added);
        let inner = inserted_by_age(init, added);
        assert(records =~= init.push(records.last()));
        assert(sorted_by_age(inner.push(records.last()))) by {
            if inner.last() != added {
                assert(inner.last() == init.last());
            }
            assert(inner.last().1.created_at <= records.last().1.created_at);
        }
        assert(inner.push(records.last()).to_multiset() =~= inner.to_multiset().insert(
            records.last(),
        ));
    }
}

/// Whether no record is followed by an older one.
pub open spec fn sorted_by_age(records: Seq<(String, VmRecord)>) -> bool {
    forall|i: int, j: int|
        0 <= i <= j < records.len() ==> (#[trigger] records[i]).1.created_at <= (
        #[trigger] records[j]).1.created_at
}

/// Ordering records by age loses none, adds none, and leaves none before an older one.
pub proof fn law_records_are_ordered(records: Seq<(String, VmRecord)>)
    ensures
        sorted_by_age(by_age(records)),
        by_age(records).to_multiset() == records.to_multiset(),
    decreases records.len(),
{
    broadcast use vstd::seq_lib::group_to_multiset_ensures;

    if records.len() > 0 {
        law_records_are_ordered(records.drop_last());
        lemma_inserted_by_age(by_age(records.drop_last()), records.last());
        assert(records =~= records.drop_last().push(records.last()));
    }
}

/// The QEMU process that a line of the process list shows, with its command line.
pub open spec fn process_line(line: Seq<char>) -> Option<(nat, Seq<char>)> {
    let line = text::trimmed(line);
    match text::split_once_at(line, ' ') {
        None => None,
        Some((pid, _)) => {
            let args = text::trim_start(line.skip(pid.len() as int));
            match text::parsed_unsigned(text::trimmed(pid), u32::MAX as nat) {
                Some(n) if text::occurs_in("qemu-system-"@, args) => Some((n, args)),
                _ => None,
            }
        },
    }
}

/// The QEMU processes that the lines of a process list show.
pub open spec fn process_lines(lines: Seq<Seq<char>>) -> Seq<(nat, Seq<char>)>
    decreases lines.len(),
{
    if lines.len() == 0 {
        seq![]
    } else {
        let before = process_lines(lines.drop_last());
        match process_line(lines.last()) {
            Some(p) => before.push(p),
            None => before,
        }
    }
}

/// What a list of processes stands for.
pub open spec fn processes_view(processes: Seq<(u32, String)>) -> Seq<(nat, Seq<char>)> {
    processes.map_values(|p: (u32, String)| (p.0 as nat, p.1@))
}

fn parse_process_line(line: &str) -> (r: Option<(u32, String)>)
    ensures
        match r {
            Some(p) => process_line(line@) == Some((p.0 as nat, p.1@)),
            None => process_line(line@) is None,
        },
{
    let line = text::trim(line);
    let (pid_text, _) = match text::split_once(line.as_str(), ' ') {
        Some(parts) => parts,
        None => return None,
    };
    proof {
        text::lemma_first_index(line@, ' ');
    }
    let v = text::to_chars(line.as_str());
    let n: usize = pid_text.as_str().unicode_len();
    let rest = text::from_chars(&v, n, v.len());
    assert(rest@ =~= line@.skip(n as int));
    let args = text::trim_left(rest.as_str());
    match read_pid_file(pid_text.as_str()) {
        Some(pid) => if text::contains(args.as_str(), "qemu-system-") {
            Some((pid, args))
        } else {
            None
        },
        None => None,
    }
}

/// Picks the QEMU processes out of a process list with one process per line: its number, then
/// its command line.
pub fn scan_qemu_processes(stdout: &str) -> (r: Vec<(u32, String)>)
    ensures
        processes_view(r@) == process_lines(text::lines_of(stdout@)),
{
    let lines = text::lines(stdout);
    let ghost all = text::views(lines@);
    let mut out: Vec<(u32, String)> = Vec::new();
    let mut i: usize = 0;
    assert(processes_view(out@) =~= seq![]);
    while i < lines.len()
        invariant
            i <= lines.len(),
            all == text::views(lines@),
            processes_view(out@) == process_lines(all.take(i as int)),
        decreases lines.len() - i,
    {
        let ghost before = processes_view(out@);
        proof {
            assert(all.take(i + 1).drop_last() =~= all.take(i as int));
            assert(all.take(i + 1).last() == lines@[i as int]@);
        }
        if let Some(process) = parse_process_line(lines[i].as_str()) {
            out.push(process);
            assert(processes_view(out@) =~= before.push((process.0 as nat, process.1@)));
        }
        i = i + 1;
    }
    assert(all.take(i as int) =~= all);
    out
}

/// How well a command line fits a machine: its name counts most, then its disk, then its seed.
pub open spec fn fit(id: Seq<char>, record: VmRecord, args: Seq<char>) -> int {
    (if text::occurs_in("-name "@ + id, args) {
        5int
    } else {
        0
    }) + (if record.disk_path@.len() > 0 && text::occurs_in(record.disk_path@, args) {
        4int
    } else {
        0
    }) + (if record.seed_iso_path@.len() > 0 && text::occurs_in(record.seed_iso_path@, args) {
        3int
    } else {
        0
    })
}

/// The first process with the best positive fit, with that fit.
pub open spec fn best_fit(
    id: Seq<char>,
    record: VmRecord,
    processes: Seq<(nat, Seq<char>)>,
) -> Option<(nat, int)>
    decreases processes.len(),
{
    if processes.len() == 0 {
        None
    } else {
        let before = best_fit(id, record, processes.drop_last());
        let score = fit(id, record, processes.last().1);
        if score == 0 || (before is Some && score <= (before->0).1) {
            before
        } else {
            Some((processes.last().0, score))
        }
    }
}

/// The process chosen for a machine fits it at least as well as any other process, and a process
/// that fits at all is never passed over for none.
pub proof fn law_best_fit(
    id: Seq<char>,
    record: VmRecord,
    processes: Seq<(nat, Seq<char>)>,
    i: int,
)
    requires
        0 <= i < processes.len(),
        fit(id, record, processes[i].1) > 0,
    ensures
        best_fit(id, record, processes) matches Some((_, score)) && score >= fit(
            id,
            record,
            processes[i].1,
        ),
    decreases processes.len(),
{
    if i < processes.len() - 1 {
        law_best_fit(id, record, processes.drop_last(), i);
    }
}

fn fit_score(id: &str, record: &VmRecord, args: &str) -> (r: u8)
    ensures
        r == fit(id@, *record, args@),
        r <= 12,
{
    let mut score: u8 = 0;
    let name_token = text::cat2("-name ", id);
    if text::contains(args, name_token.as_str()) {
        score = score + 5;
    }
    if !record.disk_path.as_str().is_empty() && text::contains(args, record.disk_path.as_str()) {
        score = score + 4;
    }
    if !record.seed_iso_path.as_str().is_empty() && text::contains(
        args,
        record.seed_iso_path.as_str(),
    ) {
        score = score + 3;
    }
    score
}

/// What the host says about the processes that may belong to a machine.
#[derive(Debug)]
pub struct QemuSightings {
    /// Whether the recorded process is a QEMU.
    pub recorded_is_qemu: bool,
    /// The number in the machine's pid file, if there is one.
    pub pid_file: Option<u32>,
    /// Whether that process is a QEMU.
    pub pid_file_is_qemu: bool,
    /// The QEMU processes of the host with their command lines.
    pub processes: Vec<(u32, String)>,
}

/// The process that runs a machine: the recorded one if it is a QEMU, else the one of the pid
/// file if that is a QEMU, else the one that fits the record best.
pub open spec fn qemu_pid(id: Seq<char>, record: VmRecord, seen: QemuSightings) -> Option<nat> {
    if record.pid is Some && seen.recorded_is_qemu {
        Some(record.pid->0 as nat)
    } else if seen.pid_file is Some && seen.pid_file_is_qemu {
        Some(seen.pid_file->0 as nat)
    } else {
        match best_fit(id, record, processes_view(seen.processes@)) {
            Some((pid, _)) => Some(pid),
            None => None,
        }
    }
}

pub fn resolve_qemu_pid(id: &str, record: &VmRecord, seen: &QemuSightings) -> (r: Option<u32>)
    ensures
        match r {
            Some(pid) => qemu_pid(id@, *record, *seen) == Some(pid as nat),
            None => qemu_pid(id@, *record, *seen) is None,
        },
{
    if let Some(pid) = record.pid {
        if seen.recorded_is_qemu {
            return Some(pid);
        }
    }
    if let Some(pid) = seen.pid_file {
        if seen.pid_file_is_qemu {
            return Some(pid);
        }
    }
    let ghost all = processes_view(seen.processes@);
    let mut best: Option<(u32, u8)> = None;
    let mut i: usize = 0;
    while i < seen.processes.len()
        invariant
            i <= seen.processes.len(),
            all == processes_view(seen.processes@),
            match best {
                Some((pid, score)) => best_fit(id@, *record, all.take(i as int)) == Some(
                    (pid as nat, score as int),
                ),
                None => best_fit(id@, *record, all.take(i as int)) is None,
            },
        decreases seen.processes.len() - i,
    {
        proof {
            assert(all.take(i + 1).drop_last() =~= all.take(i as int));
            assert(all.take(i + 1).last() == (
                seen.processes@[i as int].0 as nat,
                seen.processes@[i as int].1@,
            ));
        }
        let score: u8 = fit_score(id, record, seen.processes[i].1.as_str());
        if score != 0 {
            best = match best {
                Some((pid, current)) => if score <= current {
                    Some((pid, current))
                } else {
                    Some((seen.processes[i].0, score))
                },
                None => Some((seen.processes[i].0, score)),
            };
        }
        i = i + 1;
    }
    assert(all.take(i as int) =~= all);
    match best {
        Some((pid, _)) => Some(pid),
        None => None,
    }
}

/// What to do next while waiting for a QEMU process to end.
#[derive(Debug, Clone, Copy, PartialEq, Eq, Structural)]
pub enum StopStep {
    /// The process has ended.
    Gone,
    /// Kill the process for good, then look again after a pause.
    ForceKill,
    /// Look again after a pause.
    Pause,
    /// Give up.
    TimedOut,
}

/// Decides on the next step of stopping a process, from the time since the first signal, the
/// time allowed, whether the process is alive, and whether it was already killed for good.
/// Half of the time is left to a process for ending by itself.
pub fn stop_qemu_and_wait(elapsed_nanos: u128, timeout_nanos: u128, alive: bool, killed: bool) -> (r:
    StopStep)
    ensures
        r == stop_step(elapsed_nanos as nat, timeout_nanos as nat, alive, killed),
        r == (if elapsed_nanos >= timeout_nanos {
            StopStep::TimedOut
        } else if !alive {
            StopStep::Gone
        } else if !killed && elapsed_nanos >= timeout_nanos / 2 {
            StopStep::ForceKill
        } else {
            StopStep::Pause
        }),
{
    if elapsed_nanos >= timeout_nanos {
        StopStep::TimedOut
    } else if !alive {
        StopStep::Gone
    } else if !killed && elapsed_nanos >= timeout_nanos / 2 {
        StopStep::ForceKill
    } else {
        StopStep::Pause
    }
}

/// The message for a QEMU process that did not end in time.
pub fn stop_timeout_message(pid: u32) -> (r: String)
    ensures
        r@ == "Timed out while waiting for qemu process "@ + text::decimal(pid as nat)
            + " to stop"@,
{
    let n = text::number(pid as u64);
    text::cat3("Timed out while waiting for qemu process ", n.as_str(), " to stop")
}

/// Whether stopping a process failed for any other reason than that the process is gone.
pub open spec fn stop_failed(stopped: Option<Result<(), String>>) -> bool {
    stopped matches Some(Err(message)) && !process::absent(message@)
}

/// Marks a machine as stopped, once its process was stopped or none was found. `stopped` is what
/// came of stopping the process that runs the machine, where there is one.
///
/// A process that is already gone counts as stopped. On any other failure the record stays as
/// it is.
pub fn stop_record_if_running(record: &mut VmRecord, stopped: Option<Result<(), String>>) -> (r:
    Result<(), String>)
    ensures
        match r {
            Ok(_) => {
                &&& !stop_failed(stopped)
                &&& *final(record) == (VmRecord {
                    pid: None,
                    status: VmStatus::Stopped,
                    ..*old(record)
                })
            },
            Err(message) => {
                &&& stop_failed(stopped)
                &&& stopped == Some(Err::<(), String>(message))
                &&& *final(record) == *old(record)
            },
        },
{
    if let Some(Err(message)) = stopped {
        if !process::is_process_absent_error(message.as_str()) {
            return Err(message);
        }
    }
    record.pid = None;
    record.status = VmStatus::Stopped;
    Ok(())
}

/// What is left to delete once a machine is stopped.
#[derive(Debug)]
pub struct InstanceLeftovers {
    /// The machine's own directory.
    pub dir: String,
    /// The key files that no other machine uses.
    pub key_files: Vec<String>,
}

/// The key files that are deleted with a machine whose private key is `key`.
pub open spec fn leftover_keys(key: Seq<char>, keep: Seq<Seq<char>>) -> Seq<Seq<char>> {
    if keep.contains(key) {
        seq![]
    } else {
        seq![key, key + ".pub"@]
    }
}

/// Lists what is deleted with a machine: its directory, and its key pair unless the private key
/// is one of `keep_key_paths`.
pub fn remove_vm_instance(
    instances_dir: &str,
    id: &str,
    record: &VmRecord,
    keep_key_paths: &[String],
) -> (r: InstanceLeftovers)
    ensures
        r.dir@ == path::joined(instances_dir@, id@),
        text::views(r.key_files@) == leftover_keys(
            record.private_key_path@,
            text::views(keep_key_paths@),
        ),
{
    let mut key_files: Vec<String> = Vec::new();
    if !text::list_contains(keep_key_paths, record.private_key_path.as_str()) {
        key_files.push(record.private_key_path.clone());
        key_files.push(text::cat2(record.private_key_path.as_str(), ".pub"));
        assert(text::views(key_files@) =~= seq![
            record.private_key_path@,
            record.private_key_path@ + ".pub"@,
        ]);
    } else {
        assert(text::views(key_files@) =~= seq![]);
    }
    InstanceLeftovers { dir: vm_dir(instances_dir, id), key_files }
}

/// While another machine uses a key, no file of it is deleted with a machine; once none does, the
/// whole key pair is.
pub proof fn law_key_stays_while_shared(others: Seq<(String, VmRecord)>, record: VmRecord)
    ensures
        (exists|i: int|
            0 <= i < others.len() && (#[trigger] others[i]).1.private_key_path@
                == record.private_key_path@) ==> leftover_keys(
            record.private_key_path@,
            key_paths(others),
        ).len() == 0,
        (forall|i: int|
            0 <= i < others.len() ==> (#[trigger] others[i]).1.private_key_path@
                != record.private_key_path@) ==> leftover_keys(
            record.private_key_path@,
            key_paths(others),
        ) == seq![record.private_key_path@, record.private_key_path@ + ".pub"@],
{
    let key = record.private_key_path@;
    let keep = key_paths(others);
    if exists|i: int| 0 <= i < others.len() && (#[trigger] others[i]).1.private_key_path@ == key {
        let i = choose|i: int|
            0 <= i < others.len() && (#[trigger] others[i]).1.private_key_path@ == key;
        assert(keep[i] == key);
    }
    if keep.contains(key) {
        let i = choose|i: int| 0 <= i < keep.len() && keep[i] == key;
        assert(others[i].1.private_key_path@ == key);
    }
}

/// A machine runs exactly if its record says so, names a process, and that process is alive; a
/// record that says so of a process that is gone is stale.
pub proof fn law_status_of_a_machine(record: VmRecord, pid_alive: bool)
    ensures
        record.status_now(pid_alive) is Running <==> !(record.status is Stopped) && record.pid is Some
            && pid_alive,
        record.status_now(pid_alive) is Stale <==> !(record.status is Stopped) && record.pid is Some
            && !pid_alive,
        status_label(VmRuntimeStatus::Running) == "running"@,
        status_label(VmRuntimeStatus::Stopped) == "stopped"@,
        status_label(VmRuntimeStatus::Stale) == "stale"@,
{
}

/// The number of a process is read back out of the file that it was written to, with or without a
/// newline behind it.
pub proof fn law_process_number_is_read_back(pid: nat)
    requires
        pid <= u32::MAX,
    ensures
        pid_in(text::decimal(pid)) == Some(pid),
        pid_in(text::decimal(pid).push('\n')) == Some(pid),
{
    let digits = text::decimal(pid);
    let line = digits.push('\n');
    text::lemma_decimal(pid);
    text::law_number_is_read_back(pid, u32::MAX as nat);
    assert(text::ascii_digit(digits[0]) && text::ascii_digit(digits[digits.len() - 1]));
    text::lemma_trimmed_is(digits);
    assert(line[0] == digits[0]);
    assert(text::trim_start(line) == line);
    assert(line.last() == '\n' && line.drop_last() =~= digits);
    assert(text::trim_end(line) == text::trim_end(digits));
}

/// A command line that names the machine fits it better than one that only shows its disk, and
/// that better than one that only shows its seed; but two marks outdo any one.
pub proof fn law_marks_of_a_machine(
    id: Seq<char>,
    record: VmRecord,
    named: Seq<char>,
    on_disk: Seq<char>,
    on_seed: Seq<char>,
)
    requires
        record.disk_path@.len() > 0,
        record.seed_iso_path@.len() > 0,
        text::occurs_in("-name "@ + id, named),
        !text::occurs_in(record.disk_path@, named) && !text::occurs_in(
            record.seed_iso_path@,
            named,
        ),
        text::occurs_in(record.disk_path@, on_disk),
        !text::occurs_in("-name "@ + id, on_disk) && !text::occurs_in(
            record.seed_iso_path@,
            on_disk,
        ),
        text::occurs_in(record.seed_iso_path@, on_seed),
        !text::occurs_in("-name "@ + id, on_seed) && !text::occurs_in(record.disk_path@, on_seed),
    ensures
        fit(id, record, named) > fit(id, record, on_disk) > fit(id, record, on_seed) > 0,
        fit(id, record, on_disk) + fit(id, record, on_seed) > fit(id, record, named),
        fit(id, record, named) == 5 && fit(id, record, on_disk) == 4 && fit(id, record, on_seed)
            == 3,
{
}

/// The process that is chosen for a machine is one of those that are seen, fits the machine, and
/// is the first of those that fit it as well.
pub proof fn law_first_of_the_best_is_chosen(
    id: Seq<char>,
    record: VmRecord,
    processes: Seq<(nat, Seq<char>)>,
)
    requires
        best_fit(id, record, processes) is Some,
    ensures
        exists|i: int|
            {
                &&& 0 <= i < processes.len()
                &&& best_fit(id, record, processes) == Some(
                    ((#[trigger] processes[i]).0, fit(id, record, processes[i].1)),
                )
                &&& fit(id, record, processes[i].1) > 0
                &&& forall|j: int|
                    0 <= j < i ==> fit(id, record, (#[trigger] processes[j]).1) < fit(
                        id,
                        record,
                        processes[i].1,
                    )
            },
    decreases processes.len(),
{
    let before = processes.drop_last();
    let n = processes.len() - 1;
    let score = fit(id, record, processes.last().1);
    let earlier = best_fit(id, record, before);
    if score == 0 || (earlier is Some && score <= (earlier->0).1) {
        law_first_of_the_best_is_chosen(id, record, before);
        let i = choose|i: int|
            {
                &&& 0 <= i < before.len()
                &&& best_fit(id, record, before) == Some(
                    ((#[trigger] before[i]).0, fit(id, record, before[i].1)),
                )
                &&& fit(id, record, before[i].1) > 0
                &&& forall|j: int|
                    0 <= j < i ==> fit(id, record, (#[trigger] before[j]).1) < fit(
                        id,
                        record,
                        before[i].1,
                    )
            };
        assert(processes[i] == before[i]);
        assert forall|j: int| 0 <= j < i implies fit(id, record, (#[trigger] processes[j]).1) < fit(
            id,
            record,
            processes[i].1,
        ) by {
            assert(processes[j] == before[j]);
        }
    } else {
        assert(processes[n] == processes.last());
        assert forall|j: int| 0 <= j < n implies fit(id, record, (#[trigger] processes[j]).1) < fit(
            id,
            record,
            processes[n].1,
        ) by {
            assert(processes[j] == before[j]);
            if fit(id, record, before[j].1) > 0 {
                law_best_fit(id, record, before, j);
            }
        }
    }
}

/// A process that the record or the pid file names is taken before any that only looks right, as
/// long as it is a QEMU; a process that is none is never taken.
pub proof fn law_named_process_comes_first(id: Seq<char>, record: VmRecord, seen: QemuSightings)
    ensures
        record.pid is Some && seen.recorded_is_qemu ==> qemu_pid(id, record, seen) == Some(
            record.pid->0 as nat,
        ),
        !(record.pid is Some && seen.recorded_is_qemu) && seen.pid_file is Some
            && seen.pid_file_is_qemu ==> qemu_pid(id, record, seen) == Some(
            seen.pid_file->0 as nat,
        ),
        !(record.pid is Some && seen.recorded_is_qemu) && !(seen.pid_file is Some
            && seen.pid_file_is_qemu) ==> (qemu_pid(id, record, seen) is Some <==> exists|i: int|
            0 <= i < seen.processes@.len() && fit(id, record, (#[trigger] seen.processes@[i]).1@)
                > 0),
{
    let processes = processes_view(seen.processes@);
    if best_fit(id, record, processes) is Some {
        law_first_of_the_best_is_chosen(id, record, processes);
        let i = choose|i: int|
            0 <= i < processes.len() && fit(id, record, (#[trigger] processes[i]).1) > 0;
        assert(fit(id, record, seen.processes@[i].1@) > 0);
    }
    if exists|i: int|
        0 <= i < seen.processes@.len() && fit(id, record, (#[trigger] seen.processes@[i]).1@) > 0 {
        let i = choose|i: int|
            0 <= i < seen.processes@.len() && fit(id, record, (#[trigger] seen.processes@[i]).1@)
                > 0;
        assert(processes[i].1 == seen.processes@[i].1@);
        law_best_fit(id, record, processes, i);
    }
}

/// A line of the process list gives the process and its command line exactly if the command line
/// is that of a QEMU.
pub proof fn law_process_line_is_read_back(pid: nat, args: Seq<char>)
    requires
        pid <= u32::MAX,
        args.len() > 0,
        !text::whitespace(args[0]),
        !text::whitespace(args.last()),
    ensures
        text::occurs_in("qemu-system-"@, args) ==> process_line(
            text::decimal(pid) + seq![' '] + args,
        ) == Some((pid, args)),
        !text::occurs_in("qemu-system-"@, args) ==> process_line(
            text::decimal(pid) + seq![' '] + args,
        ) is None,
{
    let digits = text::decimal(pid);
    let line = digits + seq![' '] + args;
    text::lemma_decimal(pid);
    assert(text::ascii_digit(digits[0]) && text::ascii_digit(digits[digits.len() - 1]));
    assert(line[0] == digits[0] && line.last() == args.last());
    text::lemma_trimmed_is(line);
    let n = digits.len() as int;
    assert(line[n] == ' ');
    assert forall|j: int| 0 <= j < n implies line[j] != ' ' by {
        assert(text::ascii_digit(digits[j]));
    }
    text::lemma_first_index_is(line, ' ', n);
    assert(line.take(n) =~= digits);
    text::lemma_trimmed_is(digits);
    text::law_number_is_read_back(pid, u32::MAX as nat);
    let rest = line.skip(n);
    assert(rest[0] == ' ' && rest.drop_first() =~= args);
    text::lemma_trimmed_is(args);
    assert(text::trim_start(rest) == text::trim_start(args));
}

/// The file that holds the record of a machine.
pub open spec fn record_file(instances_dir: Seq<char>, id: Seq<char>) -> Seq<char> {
    path::joined(path::joined(instances_dir, id), "vm.json"@)
}

/// The file that holds the number of a machine's process.
pub open spec fn pid_file(instances_dir: Seq<char>, id: Seq<char>) -> Seq<char> {
    path::joined(path::joined(instances_dir, id), "qemu.pid"@)
}

/// The files of a machine lie in the directory of the machine.
pub proof fn law_files_of_a_machine(instances_dir: Seq<char>, id: Seq<char>)
    ensures
        path::joined(instances_dir, id).is_prefix_of(record_file(instances_dir, id)),
        ("vm.json"@).is_suffix_of(record_file(instances_dir, id)),
        path::joined(instances_dir, id).is_prefix_of(pid_file(instances_dir, id)),
        ("qemu.pid"@).is_suffix_of(pid_file(instances_dir, id)),
{
    reveal_strlit("vm.json");
    reveal_strlit("qemu.pid");
    path::lemma_joined_ends(path::joined(instances_dir, id), "vm.json"@);
    path::lemma_joined_ends(path::joined(instances_dir, id), "qemu.pid"@);
}

/// The next step of stopping a process.
pub open spec fn stop_step(elapsed: nat, timeout: nat, alive: bool, killed: bool) -> StopStep {
    if elapsed >= timeout {
        StopStep::TimedOut
    } else if !alive {
        StopStep::Gone
    } else if !killed && elapsed >= timeout / 2 {
        StopStep::ForceKill
    } else {
        StopStep::Pause
    }
}

/// A process gets half of the time for ending by itself; then it is killed, once, and given up on
/// when all of the time is over.
pub proof fn law_process_gets_its_time(elapsed: nat, timeout: nat, alive: bool, killed: bool)
    ensures
        stop_step(elapsed, timeout, alive, killed) == StopStep::TimedOut <==> elapsed >= timeout,
        stop_step(elapsed, timeout, alive, killed) == StopStep::Gone <==> elapsed < timeout
            && !alive,
        stop_step(elapsed, timeout, alive, killed) == StopStep::ForceKill ==> alive && !killed && 2
            * elapsed + 1 >= timeout,
        elapsed < timeout && alive && !killed && 2 * elapsed >= timeout ==> stop_step(
            elapsed,
            timeout,
            alive,
            killed,
        ) == StopStep::ForceKill,
        elapsed < timeout && alive && killed ==> stop_step(elapsed, timeout, alive, killed)
            == StopStep::Pause,
{
}

/// The QEMU processes of a list are those of its lines, in their order.
pub proof fn law_processes_are_those_of_the_lines(lines: Seq<Seq<char>>, i: int)
    requires
        0 <= i < lines.len(),
    ensures
        process_line(lines[i]) is Some ==> process_lines(lines).contains(process_line(lines[i])->0),
        process_lines(lines).len() <= lines.len(),
        (forall|k: int| 0 <= k < lines.len() ==> process_line(#[trigger] lines[k]) is None)
            ==> process_lines(lines).len() == 0,
    decreases lines.len(),
{
    let before = lines.drop_last();
    let all = process_lines(lines);
    if before.len() > 0 {
        law_processes_are_those_of_the_lines(
            before,
            if i < before.len() {
                i
            } else {
                0
            },
        );
    } else {
        assert(process_lines(before).len() == 0);
    }
    if i < before.len() {
        assert(before[i] == lines[i]);
        if process_line(lines[i]) is Some {
            let p = process_line(lines[i])->0;
            let k = choose|k: int| 0 <= k < process_lines(before).len() && process_lines(before)[k] == p;
            assert(all[k] == p);
        }
    } else if process_line(lines[i]) is Some {
        assert(all[all.len() - 1] == process_line(lines[i])->0);
    }
    if forall|k: int| 0 <= k < lines.len() ==> process_line(#[trigger] lines[k]) is None {
        assert forall|k: int| 0 <= k < before.len() implies process_line(
            #[trigger] before[k],
        ) is None by {
            assert(process_line(lines[k]) is None);
        }
        assert(process_line(lines[lines.len() - 1]) is None);
    }
}

} // verus!
