//! What a run asks of virtual machines, and a scripted stand-in for them.

use vstd::prelude::*;

use std::collections::VecDeque;

use crate::text;
use crate::vm::mount::MountSpec;
use crate::vm::record;
use crate::vm::record::{VmRecord, VmStatus};

verus! {

/// The machine that a run asks for.
#[derive(Debug, PartialEq, Eq)]
pub struct VmOptions {
    pub disk_size: Option<String>,
    pub kernel: Option<String>,
    pub rootfs: Option<String>,
    pub mounts: Vec<MountSpec>,
    pub show_progress: bool,
}

impl Default for VmOptions {
    fn default() -> (r: Self)
        ensures
            r.disk_size is None,
            r.kernel is None,
            r.rootfs is None,
            r.mounts@.len() == 0,
            !r.show_progress,
    {
        VmOptions {
            disk_size: None,
            kernel: None,
            rootfs: None,
            mounts: Vec::new(),
            show_progress: false,
        }
    }
}

/// Something asked of a machine.
pub enum VmCall {
    Run { options: VmOptions },
    Ssh { vm_id: Seq<char>, command: Seq<char> },
    CpTo { vm_id: Seq<char>, local: Seq<char>, remote: Seq<char>, recursive: bool },
    CpFrom { vm_id: Seq<char>, remote: Seq<char>, local: Seq<char>, recursive: bool },
    Rm { vm_id: Seq<char> },
    SshStream { record: VmRecord, command: Seq<char> },
}

/// What a machine answered.
pub enum VmReply {
    /// To being started.
    Started { record: Result<VmRecord, String> },
    /// To a command whose output was asked for.
    Output { text: Result<String, String> },
    /// To a copy, or to its removal.
    Done { outcome: Result<(), String> },
    /// To a command whose output is passed on line by line.
    Lines { lines: Vec<String>, outcome: Result<(), String> },
}

/// Everything that was asked of machines, in order.
pub type Calls = Seq<VmCall>;

/// Everything that machines answered, in order.
pub type Replies = Seq<VmReply>;

/// The operations on machines that a run needs. An operation that fails gives a message.
pub trait VmOps {
    /// What was asked so far.
    spec fn calls(&self) -> Calls;

    /// What was answered so far.
    spec fn replies(&self) -> Replies;

    /// Starts a machine.
    fn run(&mut self, options: VmOptions) -> (r: Result<VmRecord, String>)
        ensures
            final(self).calls() == old(self).calls().push(VmCall::Run { options }),
            final(self).replies() == old(self).replies().push(VmReply::Started { record: r }),
    ;

    /// Runs a command in a machine and gives its output.
    fn ssh(&mut self, vm_id: &str, command: &str) -> (r: Result<String, String>)
        ensures
            final(self).calls() == old(self).calls().push(
                VmCall::Ssh { vm_id: vm_id@, command: command@ },
            ),
            final(self).replies() == old(self).replies().push(VmReply::Output { text: r }),
    ;

    /// Copies from the host to a machine.
    fn cp_to(&mut self, vm_id: &str, local: &str, remote: &str, recursive: bool) -> (r: Result<
        (),
        String,
    >)
        ensures
            final(self).calls() == old(self).calls().push(
                VmCall::CpTo { vm_id: vm_id@, local: local@, remote: remote@, recursive },
            ),
            final(self).replies() == old(self).replies().push(VmReply::Done { outcome: r }),
    ;

    /// Copies from a machine to the host.
    fn cp_from(&mut self, vm_id: &str, remote: &str, local: &str, recursive: bool) -> (r: Result<
        (),
        String,
    >)
        ensures
            final(self).calls() == old(self).calls().push(
                VmCall::CpFrom { vm_id: vm_id@, remote: remote@, local: local@, recursive },
            ),
            final(self).replies() == old(self).replies().push(VmReply::Done { outcome: r }),
    ;

    /// Removes a machine.
    fn rm(&mut self, vm_id: &str) -> (r: Result<(), String>)
        ensures
            final(self).calls() == old(self).calls().push(VmCall::Rm { vm_id: vm_id@ }),
            final(self).replies() == old(self).replies().push(VmReply::Done { outcome: r }),
    ;

    /// Runs a command in a machine. Gives the lines of its output that the caller has not seen
    /// yet, and how the command ended.
    fn ssh_stream(&mut self, record: &VmRecord, command: &str) -> (r: (
        Vec<String>,
        Result<(), String>,
    ))
        ensures
            final(self).calls() == old(self).calls().push(
                VmCall::SshStream { record: *record, command: command@ },
            ),
            final(self).replies() == old(self).replies().push(
                VmReply::Lines { lines: r.0, outcome: r.1 },
            ),
    ;
}

/// Whether a record is the one that the stand-in gives for a machine of the given name.
pub open spec fn mock_record(r: VmRecord, id: Seq<char>) -> bool {
    &&& r.id@ == id
    &&& r.hostname@ == "vm"@
    &&& r.username@ == "ubuntu"@
    &&& r.ssh_port == 2222
    &&& r.private_key_path@ == "/tmp/test_key"@
    &&& r.disk_path@ == "/tmp/disk.qcow2"@
    &&& r.seed_iso_path@ == "/tmp/seed.iso"@
    &&& r.pid == Some(12345u32)
    &&& r.sidecar_pids@.len() == 0
    &&& r.status is Running
    &&& r.created_at == 0
    &&& r.host_profile@ == "test"@
}

/// The record that the stand-in gives for a machine of the given name.
pub fn mock_vm_record(id: &str) -> (r: VmRecord)
    ensures
        mock_record(r, id@),
{
    VmRecord {
        id: id.to_owned(),
        hostname: "vm".to_owned(),
        username: "ubuntu".to_owned(),
        ssh_port: 2222,
        private_key_path: "/tmp/test_key".to_owned(),
        disk_path: "/tmp/disk.qcow2".to_owned(),
        seed_iso_path: "/tmp/seed.iso".to_owned(),
        pid: Some(12345),
        sidecar_pids: Vec::new(),
        status: VmStatus::Running,
        created_at: 0,
        host_profile: "test".to_owned(),
    }
}

/// A stand-in for machines: it answers as it was told to, and remembers what it was asked.
pub struct MockVmOps {
    pub run_record: Option<VmRecord>,
    pub run_error: Option<String>,
    pub ssh_results: VecDeque<Result<String, String>>,
    pub cp_to_error: Option<String>,
    pub cp_from_error: Option<String>,
    pub rm_error: Option<String>,
    pub stream_outputs: VecDeque<Vec<String>>,
    pub run_calls: Vec<VmOptions>,
    pub ssh_commands: Vec<(String, String)>,
    pub cp_to_calls: Vec<(String, String, String, bool)>,
    pub cp_from_calls: Vec<(String, String, String, bool)>,
    pub rm_calls: Vec<String>,
    pub stream_commands: Vec<String>,
    pub asked: Ghost<Seq<VmCall>>,
    pub told: Ghost<Seq<VmReply>>,
}

impl MockVmOps {
    /// The answer to the next start of a machine.
    pub open spec fn next_record(&self) -> Option<VmRecord> {
        self.run_record
    }

    /// Why every start of a machine fails, if it does.
    pub open spec fn start_fault(&self) -> Option<Seq<char>> {
        text::opt_view(self.run_error)
    }

    /// The answers to the next commands, in order.
    pub open spec fn answers(&self) -> Seq<Result<String, String>> {
        self.ssh_results@
    }

    /// Why every copy to a machine fails, if it does.
    pub open spec fn copy_to_fault(&self) -> Option<Seq<char>> {
        text::opt_view(self.cp_to_error)
    }

    /// Why every copy from a machine fails, if it does.
    pub open spec fn copy_from_fault(&self) -> Option<Seq<char>> {
        text::opt_view(self.cp_from_error)
    }

    /// Why every removal of a machine fails, if it does.
    pub open spec fn removal_fault(&self) -> Option<Seq<char>> {
        text::opt_view(self.rm_error)
    }

    /// The output of the next streamed commands, in order.
    pub open spec fn streamed(&self) -> Seq<Vec<String>> {
        self.stream_outputs@
    }

    /// A stand-in whose machines are called `vm0`, and for which everything succeeds with no
    /// output.
    pub fn new() -> (r: MockVmOps)
        ensures
            r.next_record() matches Some(record) && mock_record(record, "vm0"@),
            r.start_fault() is None,
            r.answers().len() == 0,
            r.copy_to_fault() is None,
            r.copy_from_fault() is None,
            r.removal_fault() is None,
            r.streamed().len() == 0,
            r.run_calls@.len() == 0,
            r.ssh_commands@.len() == 0,
            r.cp_to_calls@.len() == 0,
            r.cp_from_calls@.len() == 0,
            r.rm_calls@.len() == 0,
            r.stream_commands@.len() == 0,
            r.calls().len() == 0,
            r.replies().len() == 0,
    {
        MockVmOps {
            run_record: Some(mock_vm_record("vm0")),
            run_error: None,
            ssh_results: VecDeque::new(),
            cp_to_error: None,
            cp_from_error: None,
            rm_error: None,
            stream_outputs: VecDeque::new(),
            run_calls: Vec::new(),
            ssh_commands: Vec::new(),
            cp_to_calls: Vec::new(),
            cp_from_calls: Vec::new(),
            rm_calls: Vec::new(),
            stream_commands: Vec::new(),
            asked: Ghost(Seq::empty()),
            told: Ghost(Seq::empty()),
        }
    }

    /// Lets starts succeed with a machine of the given name.
    pub fn with_run_ok(self, vm_id: &str) -> (r: MockVmOps)
        ensures
            r.next_record() matches Some(record) && mock_record(record, vm_id@),
            r == (MockVmOps { run_record: r.run_record, run_error: None, ..self }),
    {
        let mut mock = self;
        mock.run_record = Some(mock_vm_record(vm_id));
        mock.run_error = None;
        mock
    }

    /// Lets starts fail.
    pub fn with_run_err(self, msg: &str) -> (r: MockVmOps)
        ensures
            r.start_fault() == Some(msg@),
            r == (MockVmOps { run_error: r.run_error, ..self }),
    {
        let mut mock = self;
        mock.run_error = Some(msg.to_owned());
        mock
    }

    /// Adds the output of a command that succeeds.
    pub fn with_ssh_ok(self, output: &str) -> (r: MockVmOps)
        ensures
            r.answers().len() == self.answers().len() + 1,
            r.answers().drop_last() == self.answers(),
            r.answers().last() matches Ok(o) && o@ == output@,
            r == (MockVmOps { ssh_results: r.ssh_results, ..self }),
    {
        let mut mock = self;
        mock.ssh_results.push_back(Ok(output.to_owned()));
        assert(mock.ssh_results@.drop_last() =~= self.ssh_results@);
        mock
    }

    /// Adds a command that fails.
    pub fn with_ssh_err(self, msg: &str) -> (r: MockVmOps)
        ensures
            r.answers().len() == self.answers().len() + 1,
            r.answers().drop_last() == self.answers(),
            r.answers().last() matches Err(m) && m@ == msg@,
            r == (MockVmOps { ssh_results: r.ssh_results, ..self }),
    {
        let mut mock = self;
        mock.ssh_results.push_back(Err(msg.to_owned()));
        assert(mock.ssh_results@.drop_last() =~= self.ssh_results@);
        mock
    }

    /// Lets copies to a machine fail.
    pub fn with_cp_to_err(self, msg: &str) -> (r: MockVmOps)
        ensures
            r.copy_to_fault() == Some(msg@),
            r == (MockVmOps { cp_to_error: r.cp_to_error, ..self }),
    {
        let mut mock = self;
        mock.cp_to_error = Some(msg.to_owned());
        mock
    }

    /// Lets copies from a machine fail.
    pub fn with_cp_from_err(self, msg: &str) -> (r: MockVmOps)
        ensures
            r.copy_from_fault() == Some(msg@),
            r == (MockVmOps { cp_from_error: r.cp_from_error, ..self }),
    {
        let mut mock = self;
        mock.cp_from_error = Some(msg.to_owned());
        mock
    }

    /// Lets removals fail.
    pub fn with_rm_err(self, msg: &str) -> (r: MockVmOps)
        ensures
            r.removal_fault() == Some(msg@),
            r == (MockVmOps { rm_error: r.rm_error, ..self }),
    {
        let mut mock = self;
        mock.rm_error = Some(msg.to_owned());
        mock
    }

    /// Adds the output lines of a streamed command.
    pub fn with_stream_outputs(self, lines: Vec<String>) -> (r: MockVmOps)
        ensures
            r.streamed() == self.streamed().push(lines),
            r == (MockVmOps { stream_outputs: r.stream_outputs, ..self }),
    {
        let mut mock = self;
        mock.stream_outputs.push_back(lines);
        mock
    }

    /// The commands that were run, each with its machine.
    pub fn ssh_commands(&self) -> (r: &Vec<(String, String)>)
        ensures
            *r == self.ssh_commands,
    {
        &self.ssh_commands
    }

    /// The machines that were removed.
    pub fn rm_calls(&self) -> (r: &Vec<String>)
        ensures
            *r == self.rm_calls,
    {
        &self.rm_calls
    }

    /// The machines that were asked for.
    pub fn run_calls(&self) -> (r: &Vec<VmOptions>)
        ensures
            *r == self.run_calls,
    {
        &self.run_calls
    }

    /// Forgets what was asked.
    pub fn clear_calls(&mut self)
        ensures
            final(self).run_calls@.len() == 0,
            final(self).ssh_commands@.len() == 0,
            final(self).cp_to_calls@.len() == 0,
            final(self).cp_from_calls@.len() == 0,
            final(self).rm_calls@.len() == 0,
            final(self).stream_commands@.len() == 0,
            *final(self) == (MockVmOps {
                run_calls: final(self).run_calls,
                ssh_commands: final(self).ssh_commands,
                cp_to_calls: final(self).cp_to_calls,
                cp_from_calls: final(self).cp_from_calls,
                rm_calls: final(self).rm_calls,
                stream_commands: final(self).stream_commands,
                ..*old(self)
            }),
    {
        self.run_calls.clear();
        self.ssh_commands.clear();
        self.cp_to_calls.clear();
        self.cp_from_calls.clear();
        self.rm_calls.clear();
        self.stream_commands.clear();
    }
}

impl Default for MockVmOps {
    fn default() -> (r: MockVmOps)
        ensures
            r.next_record() matches Some(record) && mock_record(record, "vm0"@),
            r.start_fault() is None,
            r.answers().len() == 0,
            r.copy_to_fault() is None,
            r.copy_from_fault() is None,
            r.removal_fault() is None,
            r.streamed().len() == 0,
            r.run_calls@.len() == 0,
            r.ssh_commands@.len() == 0,
            r.cp_to_calls@.len() == 0,
            r.cp_from_calls@.len() == 0,
            r.rm_calls@.len() == 0,
            r.stream_commands@.len() == 0,
            r.calls().len() == 0,
            r.replies().len() == 0,
    {
        MockVmOps::new()
    }
}

impl VmOps for MockVmOps {
    open spec fn calls(&self) -> Calls {
        self.asked@
    }

    open spec fn replies(&self) -> Replies {
        self.told@
    }

    fn run(&mut self, options: VmOptions) -> (r: Result<VmRecord, String>)
        ensures
            *final(self) == (MockVmOps {
                run_calls: final(self).run_calls,
                asked: final(self).asked,
                told: final(self).told,
                ..*old(self)
            }),
            final(self).run_calls@ == old(self).run_calls@.push(options),
            match old(self).start_fault() {
                Some(message) => r matches Err(m) && m@ == message,
                None => match old(self).next_record() {
                    Some(record) => r matches Ok(found) && record::same_record(found, record),
                    None => r matches Err(m) && m@ == "no run record configured"@,
                },
            },
    {
        proof {
            self.asked@ = self.asked@.push(VmCall::Run { options });
        }
        self.run_calls.push(options);
        let reply = if let Some(err) = &self.run_error {
            Err(err.clone())
        } else {
            match &self.run_record {
                Some(record) => Ok(record.clone()),
                None => Err("no run record configured".to_owned()),
            }
        };
        proof {
            self.told@ = self.told@.push(VmReply::Started { record: reply });
        }
        reply
    }

    fn ssh(&mut self, vm_id: &str, command: &str) -> (r: Result<String, String>)
        ensures
            *final(self) == (MockVmOps {
                ssh_commands: final(self).ssh_commands,
                ssh_results: final(self).ssh_results,
                asked: final(self).asked,
                told: final(self).told,
                ..*old(self)
            }),
            final(self).ssh_commands@.len() == old(self).ssh_commands@.len() + 1,
            final(self).ssh_commands@.drop_last() == old(self).ssh_commands@,
            final(self).ssh_commands@.last().0@ == vm_id@,
            final(self).ssh_commands@.last().1@ == command@,
            old(self).answers().len() > 0 ==> r == old(self).answers()[0] && final(self).answers()
                == old(self).answers().drop_first(),
            old(self).answers().len() == 0 ==> (r matches Ok(output) && output@.len() == 0)
                && final(self).answers() == old(self).answers(),
    {
        proof {
            self.asked@ = self.asked@.push(VmCall::Ssh { vm_id: vm_id@, command: command@ });
        }
        self.ssh_commands.push((vm_id.to_owned(), command.to_owned()));
        assert(self.ssh_commands@.drop_last() =~= old(self).ssh_commands@);
        let reply = match self.ssh_results.pop_front() {
            Some(result) => {
                assert(self.ssh_results@ =~= old(self).ssh_results@.drop_first());
                result
            },
            None => Ok(String::new()),
        };
        proof {
            self.told@ = self.told@.push(VmReply::Output { text: reply });
        }
        reply
    }

    fn cp_to(&mut self, vm_id: &str, local: &str, remote: &str, recursive: bool) -> (r: Result<
        (),
        String,
    >)
        ensures
            *final(self) == (MockVmOps {
                cp_to_calls: final(self).cp_to_calls,
                asked: final(self).asked,
                told: final(self).told,
                ..*old(self)
            }),
            final(self).cp_to_calls@.len() == old(self).cp_to_calls@.len() + 1,
            final(self).cp_to_calls@.drop_last() == old(self).cp_to_calls@,
            final(self).cp_to_calls@.last().0@ == vm_id@,
            final(self).cp_to_calls@.last().1@ == local@,
            final(self).cp_to_calls@.last().2@ == remote@,
            final(self).cp_to_calls@.last().3 == recursive,
            match old(self).copy_to_fault() {
                Some(message) => r matches Err(m) && m@ == message,
                None => r is Ok,
            },
    {
        proof {
            self.asked@ = self.asked@.push(
                VmCall::CpTo { vm_id: vm_id@, local: local@, remote: remote@, recursive },
            );
        }
        self.cp_to_calls.push((vm_id.to_owned(), local.to_owned(), remote.to_owned(), recursive));
        assert(self.cp_to_calls@.drop_last() =~= old(self).cp_to_calls@);
        let reply = match &self.cp_to_error {
            Some(err) => Err(err.clone()),
            None => Ok(()),
        };
        proof {
            self.told@ = self.told@.push(VmReply::Done { outcome: reply });
        }
        reply
    }

    fn cp_from(&mut self, vm_id: &str, remote: &str, local: &str, recursive: bool) -> (r: Result<
        (),
        String,
    >)
        ensures
            *final(self) == (MockVmOps {
                cp_from_calls: final(self).cp_from_calls,
                asked: final(self).asked,
                told: final(self).told,
                ..*old(self)
            }),
            final(self).cp_from_calls@.len() == old(self).cp_from_calls@.len() + 1,
            final(self).cp_from_calls@.drop_last() == old(self).cp_from_calls@,
            final(self).cp_from_calls@.last().0@ == vm_id@,
            final(self).cp_from_calls@.last().1@ == remote@,
            final(self).cp_from_calls@.last().2@ == local@,
            final(self).cp_from_calls@.last().3 == recursive,
            match old(self).copy_from_fault() {
                Some(message) => r matches Err(m) && m@ == message,
                None => r is Ok,
            },
    {
        proof {
            self.asked@ = self.asked@.push(
                VmCall::CpFrom { vm_id: vm_id@, remote: remote@, local: local@, recursive },
            );
        }
        self.cp_from_calls.push((vm_id.to_owned(), remote.to_owned(), local.to_owned(), recursive));
        assert(self.cp_from_calls@.drop_last() =~= old(self).cp_from_calls@);
        let reply = match &self.cp_from_error {
            Some(err) => Err(err.clone()),
            None => Ok(()),
        };
        proof {
            self.told@ = self.told@.push(VmReply::Done { outcome: reply });
        }
        reply
    }

    fn rm(&mut self, vm_id: &str) -> (r: Result<(), String>)
        ensures
            *final(self) == (MockVmOps {
                rm_calls: final(self).rm_calls,
                asked: final(self).asked,
                told: final(self).told,
                ..*old(self)
            }),
            final(self).rm_calls@.len() == old(self).rm_calls@.len() + 1,
            final(self).rm_calls@.drop_last() == old(self).rm_calls@,
            final(self).rm_calls@.last()@ == vm_id@,
            match old(self).removal_fault() {
                Some(message) => r matches Err(m) && m@ == message,
                None => r is Ok,
            },
    {
        proof {
            self.asked@ = self.asked@.push(VmCall::Rm { vm_id: vm_id@ });
        }
        self.rm_calls.push(vm_id.to_owned());
        assert(self.rm_calls@.drop_last() =~= old(self).rm_calls@);
        let reply = match &self.rm_error {
            Some(err) => Err(err.clone()),
            None => Ok(()),
        };
        proof {
            self.told@ = self.told@.push(VmReply::Done { outcome: reply });
        }
        reply
    }

    fn ssh_stream(&mut self, record: &VmRecord, command: &str) -> (r: (
        Vec<String>,
        Result<(), String>,
    ))
        ensures
            *final(self) == (MockVmOps {
                stream_commands: final(self).stream_commands,
                stream_outputs: final(self).stream_outputs,
                asked: final(self).asked,
                told: final(self).told,
                ..*old(self)
            }),
            final(self).stream_commands@.len() == old(self).stream_commands@.len() + 1,
            final(self).stream_commands@.drop_last() == old(self).stream_commands@,
            final(self).stream_commands@.last()@ == command@,
            r.1 is Ok,
            old(self).streamed().len() > 0 ==> r.0 == old(self).streamed()[0]
                && final(self).streamed() == old(self).streamed().drop_first(),
            old(self).streamed().len() == 0 ==> r.0@.len() == 0
                && final(self).streamed() == old(self).streamed(),
    {
        proof {
            self.asked@ = self.asked@.push(
                VmCall::SshStream { record: *record, command: command@ },
            );
        }
        self.stream_commands.push(command.to_owned());
        assert(self.stream_commands@.drop_last() =~= old(self).stream_commands@);
        let lines: Vec<String> = match self.stream_outputs.pop_front() {
            Some(lines) => {
                assert(self.stream_outputs@ =~= old(self).stream_outputs@.drop_first());
                lines
            },
            None => Vec::new(),
        };
        proof {
            self.told@ = self.told@.push(VmReply::Lines { lines, outcome: Ok(()) });
        }
        (lines, Ok(()))
    }
}

} // verus!
