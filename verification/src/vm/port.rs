//! Capacity, SSH ports, and the lock files that keep two processes from taking the same ones.

use vstd::prelude::*;

use crate::path;
use crate::text;
use crate::vm::record;

verus! {

/// How many machines there may be at a time.
pub const MAX_VMS: usize = 10;

/// The SSH port of the first machine. Each further one uses the next port.
pub const SSH_PORT_BASE: u16 = 2220;

pub open spec fn locks_dir(instances_dir: Seq<char>) -> Seq<char> {
    path::joined(instances_dir, ".vm-locks"@)
}

/// The directory of the lock that guards the creation of machines.
pub fn vm_locks_dir(instances_dir: &str) -> (r: String)
    ensures
        r@ == locks_dir(instances_dir@),
{
    path::join(instances_dir, ".vm-locks")
}

/// The file whose existence means that a machine is being created.
pub open spec fn creation_lock(instances_dir: Seq<char>) -> Seq<char> {
    path::joined(locks_dir(instances_dir), "creation.lock"@)
}

pub fn vm_creation_lock_path(instances_dir: &str) -> (r: String)
    ensures
        r@ == creation_lock(instances_dir@),
{
    let dir = vm_locks_dir(instances_dir);
    path::join(dir.as_str(), "creation.lock")
}

pub open spec fn port_locks_dir(instances_dir: Seq<char>) -> Seq<char> {
    path::joined(instances_dir, ".ssh-port-locks"@)
}

/// The directory of the locks that reserve SSH ports.
pub fn ssh_port_locks_dir(instances_dir: &str) -> (r: String)
    ensures
        r@ == port_locks_dir(instances_dir@),
{
    path::join(instances_dir, ".ssh-port-locks")
}

/// The name of the lock file for a port.
pub open spec fn port_lock_name(port: nat) -> Seq<char> {
    text::decimal(port) + ".lock"@
}

/// The file whose existence means that a port is reserved.
pub open spec fn port_lock(instances_dir: Seq<char>, port: nat) -> Seq<char> {
    path::joined(port_locks_dir(instances_dir), port_lock_name(port))
}

pub fn ssh_port_lock_path(instances_dir: &str, port: u16) -> (r: String)
    ensures
        r@ == port_lock(instances_dir@, port as nat),
{
    let dir = ssh_port_locks_dir(instances_dir);
    let n = text::number(port as u64);
    let name = text::cat2(n.as_str(), ".lock");
    path::join(dir.as_str(), name.as_str())
}

/// The lock on machine creation lies in the directory that is made for it, and that directory
/// does not count as a machine.
pub proof fn law_creation_lock_lies_in_its_directory(instances_dir: Seq<char>)
    ensures
        path::parent_of(creation_lock(instances_dir)) == Some(locks_dir(instances_dir)),
        record::vm_index(".vm-locks"@) is None,
{
    reveal_strlit(".vm-locks");
    reveal_strlit("creation.lock");
    reveal_strlit("vm");
    assert("vm"@[0] == 'v' && ".vm-locks"@[0] == '.');
    path::lemma_parent_of_joined(instances_dir, ".vm-locks"@, "creation.lock"@);
}

proof fn lemma_port_lock_name(port: nat)
    ensures
        path::plain(port_lock_name(port)),
{
    reveal_strlit(".lock");
    text::lemma_decimal(port);
    let name = port_lock_name(port);
    let digits = text::decimal(port);
    assert forall|i: int| 0 <= i < name.len() implies name[i] != '/' by {
        if i < digits.len() {
            assert(name[i] == digits[i]);
        } else {
            assert(name[i] == ".lock"@[i - digits.len()]);
        }
    }
    assert(name.len() > 1);
}

/// The locks on ports lie in the directory that is made for them, that directory does not count as
/// a machine, and two ports never share a lock.
pub proof fn law_port_locks_are_distinct(instances_dir: Seq<char>, a: nat, b: nat)
    ensures
        path::parent_of(port_lock(instances_dir, a)) == Some(port_locks_dir(instances_dir)),
        record::vm_index(".ssh-port-locks"@) is None,
        port_lock(instances_dir, a) == port_lock(instances_dir, b) ==> a == b,
{
    reveal_strlit(".ssh-port-locks");
    reveal_strlit(".lock");
    reveal_strlit("vm");
    assert("vm"@[0] == 'v' && ".ssh-port-locks"@[0] == '.');
    lemma_port_lock_name(a);
    lemma_port_lock_name(b);
    path::lemma_parent_of_joined(instances_dir, ".ssh-port-locks"@, port_lock_name(a));
    if port_lock(instances_dir, a) == port_lock(instances_dir, b) {
        let m = port_lock_name(a);
        let n = port_lock_name(b);
        assert(m.contains(m[0]) && n.contains(n[0]));
        let whole = port_lock(instances_dir, a);
        assert(m =~= whole.skip(whole.len() - m.len()));
        assert(n =~= whole.skip(whole.len() - n.len()));
        assert(m.len() == n.len());
        assert(text::decimal(a) =~= m.take(m.len() - 5));
        assert(text::decimal(b) =~= n.take(n.len() - 5));
        text::lemma_decimal_distinct(a, b);
    }
}

/// The SSH port of the machine with the given number, where there can be such a machine.
pub open spec fn ssh_port(index: nat) -> Option<nat> {
    if index < MAX_VMS {
        Some(SSH_PORT_BASE as nat + index)
    } else {
        None
    }
}

pub fn ssh_port_for_vm_index(index: u32) -> (r: Option<u16>)
    ensures
        match r {
            Some(port) => ssh_port(index as nat) == Some(port as nat),
            None => ssh_port(index as nat) is None,
        },
{
    if (index as usize) < MAX_VMS {
        Some(SSH_PORT_BASE + index as u16)
    } else {
        None
    }
}

/// Machines with different numbers use different SSH ports.
pub proof fn law_ports_are_distinct(a: nat, b: nat)
    requires
        ssh_port(a) is Some,
        ssh_port(a) == ssh_port(b),
    ensures
        a == b,
{
}

/// The message for a full host.
pub open spec fn capacity_message() -> Seq<char> {
    "Maximum VM limit (10) reached. Current VMs use ports 2220-2229. Remove an existing VM with 'vm rm <id>' before creating a new one."@
}

/// The number for a new machine, if there is room for one. `names` are the names of the existing
/// instance directories.
pub fn validate_vm_capacity(names: &[String]) -> (r: Result<u32, String>)
    requires
        record::max_index(text::views(names@)) != Some(u32::MAX as nat),
    ensures
        match r {
            Ok(index) => index == record::next_index(text::views(names@)) && index < MAX_VMS,
            Err(message) => record::next_index(text::views(names@)) >= MAX_VMS && message@
                == capacity_message(),
        },
{
    let index: u32 = match record::max_vm_index(names) {
        None => 0,
        Some(max) => max + 1,
    };
    if (index as usize) >= MAX_VMS {
        return Err(
            "Maximum VM limit (10) reached. Current VMs use ports 2220-2229. Remove an existing VM with 'vm rm <id>' before creating a new one.".to_owned(),
        );
    }
    Ok(index)
}

/// A machine that there is room for gets a name that no other has, and a port from 2220 to 2229
/// that no machine with another number uses.
pub proof fn law_room_means_name_and_port(names: Seq<Seq<char>>)
    requires
        record::next_index(names) < MAX_VMS,
    ensures
        !names.contains(record::vm_id(record::next_index(names))),
        ssh_port(record::next_index(names)) matches Some(port) && 2220 <= port <= 2229,
        forall|i: int|
            0 <= i < names.len() && record::vm_index(#[trigger] names[i]) is Some ==> ssh_port(
                record::vm_index(names[i])->0,
            ) != ssh_port(record::next_index(names)),
{
    record::law_next_id_is_fresh(names);
}

/// What reading a lock file gave.
#[derive(Debug)]
pub enum LockFile {
    /// There is no such file.
    NotFound,
    /// The file is there and could not be read.
    Unreadable,
    Contents { text: String },
}

/// The process that a lock file names as its owner.
pub open spec fn lock_owner(file: LockFile) -> Option<nat> {
    match file {
        LockFile::Contents { text } => record::pid_in(text@),
        _ => None,
    }
}

/// Reads the owner of a lock out of its file.
pub fn lock_owner_pid(file: &LockFile) -> (r: Option<u32>)
    ensures
        match r {
            Some(pid) => lock_owner(*file) == Some(pid as nat),
            None => lock_owner(*file) is None,
        },
{
    match file {
        LockFile::Contents { text } => record::read_pid_file(text.as_str()),
        _ => None,
    }
}

/// Whether a lock can be taken over: its file is gone, names no process, or names one that is not
/// alive. A file that cannot be read is left alone.
pub open spec fn stale(file: LockFile, owner_alive: bool) -> bool {
    match file {
        LockFile::NotFound => true,
        LockFile::Unreadable => false,
        LockFile::Contents { text } => record::pid_in(text@) is None || !owner_alive,
    }
}

/// Decides whether a lock can be taken over. `owner_alive` is about the process that
/// `lock_owner_pid` gives.
pub fn is_stale_pid_lock(file: &LockFile, owner_alive: bool) -> (r: bool)
    ensures
        r == stale(*file, owner_alive),
{
    match file {
        LockFile::NotFound => true,
        LockFile::Unreadable => false,
        LockFile::Contents { text } => match record::read_pid_file(text.as_str()) {
            Some(_) => !owner_alive,
            None => true,
        },
    }
}

/// What came of trying to create a lock file.
#[derive(Debug)]
pub enum LockAttempt {
    Created,
    /// Another process has the lock.
    Exists,
    Failed { reason: String },
}

/// The lock on machine creation, which goes with its file.
#[derive(Debug)]
pub struct VmCreationLock {
    pub lock_path: String,
}

impl VmCreationLock {
    /// Releases the lock: gives the file that is to be deleted.
    pub fn release(self) -> (r: String)
        ensures
            r == self.lock_path,
    {
        self.lock_path
    }
}

/// What a process writes into the file of a lock that it has taken: its own number.
pub fn lock_contents(pid: u32) -> (r: String)
    ensures
        r@ == text::decimal(pid as nat),
{
    text::number(pid as u64)
}

/// What to do about the lock on machine creation next.
#[derive(Debug)]
pub enum LockStep {
    /// The lock is held: write the own process number into its file.
    Held { lock: VmCreationLock },
    /// Delete the stale file, then try again at once.
    RemoveStale,
    /// Pause, then try again.
    Wait,
    Fail { message: String },
}

/// Whether the lock on machine creation is held.
pub open spec fn holds_lock(step: LockStep, instances_dir: Seq<char>) -> bool {
    step matches LockStep::Held { lock } && lock.lock_path@ == creation_lock(instances_dir)
}

/// What a process does next about the lock on machine creation.
pub open spec fn next_lock_step(
    step: LockStep,
    instances_dir: Seq<char>,
    attempt: LockAttempt,
    stale: bool,
    elapsed_nanos: nat,
    timeout_nanos: nat,
    timeout_text: Seq<char>,
) -> bool {
    match attempt {
        LockAttempt::Created => holds_lock(step, instances_dir),
        LockAttempt::Failed { .. } => step matches LockStep::Fail { message } && message@
            == "Failed to acquire VM creation lock"@,
        LockAttempt::Exists => if stale {
            step is RemoveStale
        } else if elapsed_nanos >= timeout_nanos {
            step matches LockStep::Fail { message } && message@
                == "Timed out waiting for VM creation lock after "@ + timeout_text
                + ". Another VM creation may be in progress."@
        } else {
            step is Wait
        },
    }
}

/// Whether an attempt to create a lock file, which never opens one that is there, can end so.
pub open spec fn may_come_of(attempt: LockAttempt, file: LockFile) -> bool {
    match attempt {
        LockAttempt::Created => file is NotFound,
        LockAttempt::Exists => !(file is NotFound),
        LockAttempt::Failed { .. } => true,
    }
}

/// While a live process has the lock on machine creation, no other process gets it or deletes its
/// file: the other waits, and gives up once its time is over.
pub proof fn law_one_creation_at_a_time(
    file: LockFile,
    step: LockStep,
    instances_dir: Seq<char>,
    attempt: LockAttempt,
    elapsed_nanos: nat,
    timeout_nanos: nat,
    timeout_text: Seq<char>,
)
    requires
        lock_owner(file) is Some,
        may_come_of(attempt, file),
        next_lock_step(
            step,
            instances_dir,
            attempt,
            stale(file, true),
            elapsed_nanos,
            timeout_nanos,
            timeout_text,
        ),
    ensures
        !(step is Held),
        !(step is RemoveStale),
        step is Wait ==> elapsed_nanos < timeout_nanos,
        attempt is Exists ==> (step is Wait <==> elapsed_nanos < timeout_nanos),
{
}

/// Whether the file of a lock is as the process with the given number leaves it when it takes the
/// lock.
pub open spec fn held_by(file: LockFile, pid: nat) -> bool {
    file matches LockFile::Contents { text } && text@ == text::decimal(pid)
}

/// The file of a lock that is held names the process that holds it.
pub proof fn law_held_lock_names_its_owner(file: LockFile, pid: nat)
    requires
        held_by(file, pid),
        pid <= u32::MAX,
    ensures
        lock_owner(file) == Some(pid),
        !stale(file, true),
{
    let digits = text::decimal(pid);
    text::lemma_decimal(pid);
    assert(text::ascii_digit(digits[0]) && text::ascii_digit(digits[digits.len() - 1]));
    assert(text::trim_start(digits) == digits);
    assert(text::trim_end(digits) == digits);
}

/// Something that happens to the lock on machine creation.
pub enum LockEvent {
    /// A process tries to take the lock, and does what comes next.
    Tried {
        pid: nat,
        attempt: LockAttempt,
        /// Whether the process that the file names is alive.
        owner_alive: bool,
        elapsed_nanos: nat,
        timeout_nanos: nat,
        timeout_text: Seq<char>,
        step: LockStep,
    },
    /// The process that holds the lock releases it.
    Released { pid: nat },
}

/// Whether an event can happen while the file is as given, and leaves it as `after`.
pub open spec fn lock_goes_on(
    instances_dir: Seq<char>,
    file: LockFile,
    event: LockEvent,
    after: LockFile,
) -> bool {
    match event {
        LockEvent::Tried {
            pid,
            attempt,
            owner_alive,
            elapsed_nanos,
            timeout_nanos,
            timeout_text,
            step,
        } => {
            &&& may_come_of(attempt, file)
            &&& next_lock_step(
                step,
                instances_dir,
                attempt,
                stale(file, owner_alive),
                elapsed_nanos,
                timeout_nanos,
                timeout_text,
            )
            &&& match step {
                LockStep::Held { .. } => held_by(after, pid),
                LockStep::RemoveStale => after is NotFound,
                _ => after == file,
            }
        },
        LockEvent::Released { pid } => held_by(file, pid) && after is NotFound,
    }
}

/// Whether an event leaves a lock to the live process that holds it: the process is seen to be
/// alive, and does not release the lock.
pub open spec fn leaves_to(event: LockEvent, pid: nat) -> bool {
    match event {
        LockEvent::Tried { owner_alive, .. } => owner_alive,
        LockEvent::Released { pid: other } => other != pid,
    }
}

/// A lock that a live process has taken stays its own until that process releases it: all the
/// while the file names the process, and no other process is given the lock.
pub proof fn law_lock_is_held_until_released(
    instances_dir: Seq<char>,
    files: Seq<LockFile>,
    events: Seq<LockEvent>,
    pid: nat,
)
    requires
        pid <= u32::MAX,
        files.len() == events.len() + 1,
        held_by(files[0], pid),
        forall|i: int|
            0 <= i < events.len() ==> lock_goes_on(
                instances_dir,
                files[i],
                #[trigger] events[i],
                files[i + 1],
            ) && leaves_to(events[i], pid),
    ensures
        forall|i: int| 0 <= i < files.len() ==> held_by(#[trigger] files[i], pid),
        forall|i: int|
            0 <= i < events.len() ==> ((#[trigger] events[i]) matches LockEvent::Tried { step, .. }
                && !(step is Held) && !(step is RemoveStale)),
    decreases events.len(),
{
    if events.len() > 0 {
        let last = events.len() - 1;
        let (f, e) = (files.drop_last(), events.drop_last());
        assert forall|i: int| 0 <= i < e.len() implies lock_goes_on(
            instances_dir,
            f[i],
            #[trigger] e[i],
            f[i + 1],
        ) && leaves_to(e[i], pid) by {
            assert(lock_goes_on(instances_dir, files[i], events[i], files[i + 1]));
        }
        law_lock_is_held_until_released(instances_dir, f, e, pid);
        assert(held_by(f[last], pid));
        law_held_lock_names_its_owner(files[last], pid);
        assert(lock_goes_on(instances_dir, files[last], events[last], files[last + 1]));
        if let LockEvent::Released { pid: other } = events[last] {
            law_held_lock_names_its_owner(files[last], pid);
            text::lemma_decimal_distinct(other, pid);
        }
        assert forall|i: int| 0 <= i < files.len() implies held_by(#[trigger] files[i], pid) by {
            if i < files.len() - 1 {
                assert(held_by(f[i], pid));
            }
        }
        assert forall|i: int| 0 <= i < events.len() implies ((
        #[trigger] events[i]) matches LockEvent::Tried { step, .. } && !(step is Held)
            && !(step is RemoveStale)) by {
            if i < last {
                assert(e[i] == events[i]);
            }
        }
    }
}

/// A lock that was released is free: its file is gone, and the next process that tries and can
/// create the file has the lock.
pub proof fn law_released_lock_is_free(
    instances_dir: Seq<char>,
    file: LockFile,
    release: LockEvent,
    free: LockFile,
    next: LockEvent,
    after: LockFile,
)
    requires
        release is Released,
        lock_goes_on(instances_dir, file, release, free),
        next matches LockEvent::Tried { attempt, .. } && !(attempt is Failed),
        lock_goes_on(instances_dir, free, next, after),
    ensures
        free is NotFound,
        next matches LockEvent::Tried { pid, step, .. } && holds_lock(step, instances_dir)
            && held_by(after, pid),
{
}

/// A lock whose file names no process, or one that is not alive, holds nobody up: its file is
/// deleted whatever time has passed, and the process that then creates it has the lock.
pub proof fn law_abandoned_lock_is_taken_over(
    file: LockFile,
    owner_alive: bool,
    step: LockStep,
    instances_dir: Seq<char>,
    attempt: LockAttempt,
    elapsed_nanos: nat,
    timeout_nanos: nat,
    timeout_text: Seq<char>,
)
    requires
        file is NotFound || file is Contents,
        lock_owner(file) is None || !owner_alive,
        may_come_of(attempt, file),
        !(attempt is Failed),
        next_lock_step(
            step,
            instances_dir,
            attempt,
            stale(file, owner_alive),
            elapsed_nanos,
            timeout_nanos,
            timeout_text,
        ),
    ensures
        file is Contents ==> step is RemoveStale,
        file is NotFound ==> holds_lock(step, instances_dir),
{
}

/// Decides on the next step of taking the lock on machine creation. `stale` says whether an
/// existing lock can be taken over, `elapsed_nanos` is the time since the first attempt, and
/// `timeout_text` is how messages show the time allowed.
pub fn acquire_vm_creation_lock_with_timeout(
    instances_dir: &str,
    attempt: &LockAttempt,
    stale: bool,
    elapsed_nanos: u128,
    timeout_nanos: u128,
    timeout_text: &str,
) -> (r: LockStep)
    ensures
        next_lock_step(
            r,
            instances_dir@,
            *attempt,
            stale,
            elapsed_nanos as nat,
            timeout_nanos as nat,
            timeout_text@,
        ),
{
    match attempt {
        LockAttempt::Created => LockStep::Held {
            lock: VmCreationLock { lock_path: vm_creation_lock_path(instances_dir) },
        },
        LockAttempt::Failed { .. } => LockStep::Fail {
            message: "Failed to acquire VM creation lock".to_owned(),
        },
        LockAttempt::Exists => if stale {
            LockStep::RemoveStale
        } else if elapsed_nanos >= timeout_nanos {
            LockStep::Fail {
                message: text::cat3(
                    "Timed out waiting for VM creation lock after ",
                    timeout_text,
                    ". Another VM creation may be in progress.",
                ),
            }
        } else {
            LockStep::Wait
        },
    }
}

/// The time that a process waits for the lock on machine creation, in nanoseconds.
pub const DEFAULT_LOCK_TIMEOUT_NANOS: u128 = 10_000_000_000;

/// Decides on the next step of taking the lock on machine creation within the usual ten seconds.
pub fn acquire_vm_creation_lock(
    instances_dir: &str,
    attempt: &LockAttempt,
    stale: bool,
    elapsed_nanos: u128,
) -> (r: LockStep)
    ensures
        next_lock_step(
            r,
            instances_dir@,
            *attempt,
            stale,
            elapsed_nanos as nat,
            10_000_000_000,
            "10s"@,
        ),
{
    acquire_vm_creation_lock_with_timeout(
        instances_dir,
        attempt,
        stale,
        elapsed_nanos,
        DEFAULT_LOCK_TIMEOUT_NANOS,
        "10s",
    )
}

/// The message for a stale lock that could not be deleted.
pub fn stale_lock_message(reason: &str) -> (r: String)
    ensures
        r@ == "Failed to remove stale VM creation lock: "@ + reason@,
{
    text::cat2("Failed to remove stale VM creation lock: ", reason)
}

/// What came of binding to a port at one address.
#[derive(Debug, Clone, Copy, PartialEq, Eq, Structural)]
pub enum BindOutcome {
    Bound,
    InUse,
    /// The host does not support the address, or does not have it.
    NoSuchAddress,
    Failed,
}

/// Whether a bind at one address speaks against the port. A host may lack IPv6.
pub open spec fn bind_ok(outcome: BindOutcome, ipv6: bool) -> bool {
    outcome is Bound || (ipv6 && outcome is NoSuchAddress)
}

fn is_bind_ok(outcome: BindOutcome, ipv6: bool) -> (r: bool)
    ensures
        r == bind_ok(outcome, ipv6),
{
    match outcome {
        BindOutcome::Bound => true,
        BindOutcome::NoSuchAddress => ipv6,
        _ => false,
    }
}

/// Whether a port is free, from what binding to it gave at any IPv4 address, at the IPv4 loopback
/// address, at any IPv6 address, and at the IPv6 loopback address.
pub fn is_port_free(any4: BindOutcome, local4: BindOutcome, any6: BindOutcome, local6: BindOutcome) -> (r:
    bool)
    ensures
        r == (bind_ok(any4, false) && bind_ok(local4, false) && bind_ok(any6, true) && bind_ok(
            local6,
            true,
        )),
{
    is_bind_ok(any4, false) && is_bind_ok(local4, false) && is_bind_ok(any6, true) && is_bind_ok(
        local6,
        true,
    )
}

/// A port that this process has reserved.
#[derive(Debug)]
pub struct SshPortReservation {
    pub port: u16,
    pub lock_path: String,
}

impl SshPortReservation {
    pub fn port(&self) -> (r: u16)
        ensures
            r == self.port,
    {
        self.port
    }
}

/// Whether a reservation is for `port` of the given instances directory.
pub open spec fn reserves(
    reservation: SshPortReservation,
    instances_dir: Seq<char>,
    port: nat,
) -> bool {
    reservation.port == port && reservation.lock_path@ == port_lock(instances_dir, port)
}

/// The message for a lock file that could not be created.
pub open spec fn reserve_failure(instances_dir: Seq<char>, port: nat) -> Seq<char> {
    "Failed to reserve SSH port "@ + text::decimal(port) + " with lock "@ + port_lock(
        instances_dir,
        port,
    )
}

fn reserve_failure_message(instances_dir: &str, port: u16) -> (r: String)
    ensures
        r@ == reserve_failure(instances_dir@, port as nat),
{
    let n = text::number(port as u64);
    let lock = ssh_port_lock_path(instances_dir, port);
    text::cat4("Failed to reserve SSH port ", n.as_str(), " with lock ", lock.as_str())
}

/// Reserves one certain port, from what came of creating its lock file.
pub fn reserve_specific_ssh_port(instances_dir: &str, port: u16, attempt: &LockAttempt) -> (r:
    Result<SshPortReservation, String>)
    ensures
        is_reservation(r, instances_dir@, port, *attempt),
        match *attempt {
            LockAttempt::Created => r matches Ok(reservation) && reserves(
                reservation,
                instances_dir@,
                port as nat,
            ),
            LockAttempt::Exists => r matches Err(message) && message@ == "SSH port "@
                + text::decimal(port as nat)
                + " is already reserved by another VM. Use 'vm ps' to see running VMs or 'vm rm <id>' to remove a VM."@,
            LockAttempt::Failed { .. } => r matches Err(message) && message@ == reserve_failure(
                instances_dir@,
                port as nat,
            ),
        },
{
    match attempt {
        LockAttempt::Created => Ok(
            SshPortReservation { port, lock_path: ssh_port_lock_path(instances_dir, port) },
        ),
        LockAttempt::Exists => {
            let n = text::number(port as u64);
            Err(
                text::cat3(
                    "SSH port ",
                    n.as_str(),
                    " is already reserved by another VM. Use 'vm ps' to see running VMs or 'vm rm <id>' to remove a VM.",
                ),
            )
        },
        LockAttempt::Failed { .. } => Err(reserve_failure_message(instances_dir, port)),
    }
}

/// What to do next while looking for a free port.
#[derive(Debug)]
pub enum PortStep {
    /// The port is reserved: write the own process number into its lock file.
    Reserved { reservation: SshPortReservation },
    /// Delete the lock file just created, and try the given port.
    ReleaseAndTry { port: u16 },
    /// Try the given port.
    Try { port: u16 },
    /// Give up. Where `release` is set, delete the lock file just created.
    Fail { message: String, release: bool },
}

/// The message for a search that ran out of ports.
pub open spec fn no_ports(preferred: nat) -> Seq<char> {
    "No available SSH ports found starting from "@ + text::decimal(preferred) + "."@
}

fn no_ports_message(preferred: u16) -> (r: String)
    ensures
        r@ == no_ports(preferred as nat),
{
    let n = text::number(preferred as u64);
    text::cat3("No available SSH ports found starting from ", n.as_str(), ".")
}

/// Decides on the next step of the search for a free port that began at `preferred` and has come
/// to `port`. `free` says whether the port is free, and counts only where the lock file was
/// created.
pub fn reserve_ssh_port(
    instances_dir: &str,
    preferred: u16,
    port: u16,
    attempt: &LockAttempt,
    free: bool,
) -> (r: PortStep)
    ensures
        match *attempt {
            LockAttempt::Created => if free {
                r matches PortStep::Reserved { reservation } && reserves(
                    reservation,
                    instances_dir@,
                    port as nat,
                )
            } else if port < u16::MAX {
                r == (PortStep::ReleaseAndTry { port: (port + 1) as u16 })
            } else {
                r matches PortStep::Fail { message, release } && release && message@ == no_ports(
                    preferred as nat,
                )
            },
            LockAttempt::Exists => if port < u16::MAX {
                r == (PortStep::Try { port: (port + 1) as u16 })
            } else {
                r matches PortStep::Fail { message, release } && !release && message@ == no_ports(
                    preferred as nat,
                )
            },
            LockAttempt::Failed { .. } => r matches PortStep::Fail { message, release } && !release
                && message@ == reserve_failure(instances_dir@, port as nat),
        },
{
    match attempt {
        LockAttempt::Created => {
            if free {
                return PortStep::Reserved {
                    reservation: SshPortReservation {
                        port,
                        lock_path: ssh_port_lock_path(instances_dir, port),
                    },
                };
            }
            match port.checked_add(1) {
                Some(next) => PortStep::ReleaseAndTry { port: next },
                None => PortStep::Fail { message: no_ports_message(preferred), release: true },
            }
        },
        LockAttempt::Exists => match port.checked_add(1) {
            Some(next) => PortStep::Try { port: next },
            None => PortStep::Fail { message: no_ports_message(preferred), release: false },
        },
        LockAttempt::Failed { .. } => PortStep::Fail {
            message: reserve_failure_message(instances_dir, port),
            release: false,
        },
    }
}

/// The message for a full host tells how many machines there may be and which ports they use.
pub proof fn law_capacity_is_told()
    ensures
        text::occurs_in(
            "limit ("@ + text::decimal(MAX_VMS as nat) + ")"@,
            capacity_message(),
        ),
        text::occurs_in(
            "ports "@ + text::decimal(SSH_PORT_BASE as nat) + "-"@ + text::decimal(
                (SSH_PORT_BASE + MAX_VMS - 1) as nat,
            ),
            capacity_message(),
        ),
{
    reveal_strlit(
        "Maximum VM limit (10) reached. Current VMs use ports 2220-2229. Remove an existing VM with 'vm rm <id>' before creating a new one.",
    );
    reveal_strlit("limit (");
    reveal_strlit(")");
    reveal_strlit("ports ");
    reveal_strlit("-");
    reveal_with_fuel(text::decimal, 5);
    let message = capacity_message();
    let limit = "limit ("@ + text::decimal(10) + ")"@;
    assert(text::decimal(10) =~= seq!['1', '0']);
    assert(message.subrange(11, 21) =~= limit);
    assert(text::occurs_at(limit, message, 11));
    assert(text::decimal(2220) =~= seq!['2', '2', '2', '0']);
    assert(text::decimal(2229) =~= seq!['2', '2', '2', '9']);
    let ports = "ports "@ + text::decimal(2220) + "-"@ + text::decimal(2229);
    assert(message.subrange(47, 62) =~= ports);
    assert(text::occurs_at(ports, message, 47));
}

/// Whether `r` is what comes of reserving one certain port.
pub open spec fn is_reservation(
    r: Result<SshPortReservation, String>,
    instances_dir: Seq<char>,
    port: u16,
    attempt: LockAttempt,
) -> bool {
    match attempt {
        LockAttempt::Created => r matches Ok(reservation) && reserves(
            reservation,
            instances_dir,
            port as nat,
        ),
        LockAttempt::Exists => r matches Err(message) && message@ == "SSH port "@ + text::decimal(
            port as nat,
        )
            + " is already reserved by another VM. Use 'vm ps' to see running VMs or 'vm rm <id>' to remove a VM."@,
        LockAttempt::Failed { .. } => r matches Err(message) && message@ == reserve_failure(
            instances_dir,
            port as nat,
        ),
    }
}

/// A port is reserved exactly if its lock file was made: under its own number, by a file with its
/// number in the directory of such files. The message for one that is not names the port.
pub proof fn law_reserved_port_has_its_lock(
    r: Result<SshPortReservation, String>,
    instances_dir: Seq<char>,
    port: u16,
    attempt: LockAttempt,
)
    requires
        is_reservation(r, instances_dir, port, attempt),
    ensures
        r is Ok <==> attempt is Created,
        r matches Ok(reservation) ==> {
            &&& reservation.port == port
            &&& path::parent_of(reservation.lock_path@) == Some(
                path::joined(instances_dir, ".ssh-port-locks"@),
            )
            &&& (text::decimal(port as nat) + ".lock"@).is_suffix_of(reservation.lock_path@)
        },
        r matches Err(message) ==> text::occurs_in(
            "SSH port "@ + text::decimal(port as nat) + " "@,
            message@,
        ),
        attempt is Exists ==> ("SSH port "@ + text::decimal(port as nat)
            + " is already reserved by another VM."@).is_prefix_of(r->Err_0@),
{
    law_port_locks_are_distinct(instances_dir, port as nat, port as nat);
    path::lemma_joined_ends(port_locks_dir(instances_dir), port_lock_name(port as nat));
    lemma_port_messages(instances_dir, port as nat);
}

proof fn lemma_port_messages(instances_dir: Seq<char>, port: nat)
    ensures
        ({
            let n = text::decimal(port);
            let taken = "SSH port "@ + n
                + " is already reserved by another VM. Use 'vm ps' to see running VMs or 'vm rm <id>' to remove a VM."@;
            &&& text::occurs_in("SSH port "@ + n + " "@, taken)
            &&& ("SSH port "@ + n + " is already reserved by another VM."@).is_prefix_of(taken)
            &&& text::occurs_in("SSH port "@ + n + " "@, reserve_failure(instances_dir, port))
        }),
{
    let n = text::decimal(port);
    let part = "SSH port "@ + n + " "@;
    let rest =
        "is already reserved by another VM. Use 'vm ps' to see running VMs or 'vm rm <id>' to remove a VM."@;
    let long =
        " is already reserved by another VM. Use 'vm ps' to see running VMs or 'vm rm <id>' to remove a VM."@;
    assert(long =~= " "@ + rest) by {
        reveal_strlit(" ");
        reveal_strlit(
            " is already reserved by another VM. Use 'vm ps' to see running VMs or 'vm rm <id>' to remove a VM.",
        );
        reveal_strlit(
            "is already reserved by another VM. Use 'vm ps' to see running VMs or 'vm rm <id>' to remove a VM.",
        );
    }
    let taken = "SSH port "@ + n + long;
    assert(taken =~= seq![] + part + rest);
    text::lemma_occurs_between(seq![], part, rest);
    let short = " is already reserved by another VM."@;
    assert(short =~= long.subrange(0, short.len() as int)) by {
        reveal_strlit(
            " is already reserved by another VM. Use 'vm ps' to see running VMs or 'vm rm <id>' to remove a VM.",
        );
        reveal_strlit(" is already reserved by another VM.");
    }
    let head = "SSH port "@ + n + short;
    assert(short.len() <= long.len()) by {
        reveal_strlit(
            " is already reserved by another VM. Use 'vm ps' to see running VMs or 'vm rm <id>' to remove a VM.",
        );
        reveal_strlit(" is already reserved by another VM.");
    }
    assert(head =~= taken.subrange(0, head.len() as int)) by {
        assert forall|i: int| 0 <= i < head.len() implies head[i] == #[trigger] taken.subrange(
            0,
            head.len() as int,
        )[i] by {
            let m = "SSH port "@.len() + n.len();
            if i >= m {
                assert(short[i - m] == long.subrange(0, short.len() as int)[i - m]);
            }
        }
    }
    let failure = reserve_failure(instances_dir, port);
    let lock = "with lock "@ + port_lock(instances_dir, port);
    assert("Failed to reserve SSH port "@ =~= "Failed to reserve "@ + "SSH port "@) by {
        reveal_strlit("Failed to reserve SSH port ");
        reveal_strlit("Failed to reserve ");
        reveal_strlit("SSH port ");
    }
    assert(" with lock "@ =~= " "@ + "with lock "@) by {
        reveal_strlit(" with lock ");
        reveal_strlit("with lock ");
        reveal_strlit(" ");
    }
    assert(failure =~= "Failed to reserve "@ + part + lock);
    text::lemma_occurs_between("Failed to reserve "@, part, lock);
}

/// A port is free exactly if it could be bound to at both IPv4 addresses, and at both IPv6
/// addresses as far as the host has them.
pub proof fn law_address_speaks_for_a_port(outcome: BindOutcome)
    ensures
        bind_ok(outcome, false) <==> outcome == BindOutcome::Bound,
        bind_ok(outcome, true) <==> outcome == BindOutcome::Bound || outcome
            == BindOutcome::NoSuchAddress,
{
}

/// A lock is taken over exactly if its file is gone, or can be read and names no process that is
/// alive. A file that cannot be read may belong to a live process, and is left alone.
pub proof fn law_unreadable_lock_is_left_alone(file: LockFile, owner_alive: bool)
    ensures
        file is Unreadable ==> !stale(file, owner_alive),
        file is NotFound ==> stale(file, owner_alive),
        file is Contents ==> (stale(file, owner_alive) <==> lock_owner(file) is None
            || !owner_alive),
{
}

} // verus!
