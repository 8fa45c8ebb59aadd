//! The run of every script of a directory, from the check of its paths to the removal of its machine.
//!
//! A run asks for one thing at a time and goes on with the answer. It never touches a machine or a
//! file itself.

use vstd::prelude::*;

use crate::batch::error::{combine_errors, Error};
use crate::batch::result::RunResult;
use crate::order;
use crate::path;
use crate::path::PathKind;
use crate::shell;
use crate::text;
use crate::vm::launch::RunOptions;
use crate::vm::record::VmRecord;

verus! {

/// Where the scripts are copied to inside the machine.
pub const VM_WORK_DIR: &'static str = "/tmp/batch/work";

/// Where the scripts leave their output inside the machine.
pub const VM_OUTPUT_DIR: &'static str = "/tmp/batch/out";

/// What the caller of a run decides.
#[derive(Debug)]
pub struct TaskRunOptions {
    pub disk_size: Option<String>,
    /// Whether the start of the machine is shown on the terminal.
    pub show_progress: bool,
}

impl Default for TaskRunOptions {
    fn default() -> (r: Self)
        ensures
            r.disk_size is None,
            r.show_progress,
    {
        TaskRunOptions { disk_size: None, show_progress: true }
    }
}

#[derive(Debug, Clone, Copy, PartialEq, Eq, Structural)]
pub enum RunPhase {
    ValidatingPaths,
    StartingVm,
    PreparingVm,
    RunningScripts,
    CollectingOutput,
    CleaningUp,
}

#[derive(Debug, PartialEq, Eq)]
pub enum RunProgress {
    Phase(RunPhase),
    /// A script was started; its number among all counts from 1.
    ScriptStarted { script: String, index: usize, total: usize },
    ScriptFinished { script: String, index: usize, total: usize },
    VmProgressLine { line: String },
    ScriptOutputLine { line: String },
}

/// What an event says.
pub enum Said {
    Phase { phase: RunPhase },
    Started { script: Seq<char>, index: nat, total: nat },
    Finished { script: Seq<char>, index: nat, total: nat },
    VmLine { line: Seq<char> },
    OutputLine { line: Seq<char> },
}

impl RunProgress {
    pub open spec fn said(self) -> Said {
        match self {
            RunProgress::Phase(phase) => Said::Phase { phase },
            RunProgress::ScriptStarted { script, index, total } => Said::Started {
                script: script@,
                index: index as nat,
                total: total as nat,
            },
            RunProgress::ScriptFinished { script, index, total } => Said::Finished {
                script: script@,
                index: index as nat,
                total: total as nat,
            },
            RunProgress::VmProgressLine { line } => Said::VmLine { line: line@ },
            RunProgress::ScriptOutputLine { line } => Said::OutputLine { line: line@ },
        }
    }
}

/// What a list of events says.
pub open spec fn all_said(events: Seq<RunProgress>) -> Seq<Said> {
    events.map_values(|e: RunProgress| e.said())
}

/// The line that tells of a step of the machine's start.
pub fn vm_progress_line(step: u8, total: u8, message: &str) -> (r: RunProgress)
    ensures
        r.said() == (Said::VmLine {
            line: "["@ + text::decimal(step as nat) + "/"@ + text::decimal(total as nat) + "] "@
                + message@,
        }),
{
    let a = text::number(step as u64);
    let b = text::number(total as u64);
    RunProgress::VmProgressLine {
        line: text::cat6("[", a.as_str(), "/", b.as_str(), "] ", message),
    }
}

/// Checks the directory of the scripts. `kind` says what its path leads to.
pub fn validate_input_directory(path: &str, kind: PathKind) -> (r: Result<(), Error>)
    ensures
        judges_input(r, path@, kind),
        match r {
            Ok(_) => kind is Directory,
            Err(Error::InputPathNotFound { path: p }) => kind is Missing && p@ == path@,
            Err(Error::InputPathNotDirectory { path: p }) => !(kind is Missing)
                && !(kind is Directory) && p@ == path@,
            Err(_) => false,
        },
{
    if !kind.is_found() {
        return Err(Error::InputPathNotFound { path: path.to_owned() });
    }
    if !kind.is_dir() {
        return Err(Error::InputPathNotDirectory { path: path.to_owned() });
    }
    Ok(())
}

/// Checks the directory for the output: whether it has to be created. `kind` says what its path
/// leads to.
pub fn validate_output_directory(kind: PathKind) -> (r: Result<bool, Error>)
    ensures
        judges_output(r, kind),
        match r {
            Ok(create) => (kind is Missing && create) || (kind is Directory && !create),
            Err(err) => !(kind is Missing) && !(kind is Directory) && (
            err matches Error::Io { message } && message@ == "output path must be a directory"@),
        },
{
    if !kind.is_found() {
        return Ok(true);
    }
    if !kind.is_dir() {
        return Err(Error::Io { message: "output path must be a directory".to_owned() });
    }
    Ok(false)
}

/// The names of the files among the entries of a directory.
pub open spec fn file_names(entries: Seq<(String, bool)>) -> Seq<String>
    decreases entries.len(),
{
    if entries.len() == 0 {
        seq![]
    } else if entries.last().1 {
        file_names(entries.drop_last()).push(entries.last().0)
    } else {
        file_names(entries.drop_last())
    }
}

/// Lists the scripts of a directory in their order: the names of its files, sorted. Each entry
/// comes with whether it is a file.
pub fn list_scripts(entries: Vec<(String, bool)>) -> (r: Vec<String>)
    ensures
        order::sorted(text::views(r@)),
        r@.to_multiset() == file_names(entries@).to_multiset(),
{
    let ghost all = entries@;
    let mut rest = entries;
    let mut names: Vec<String> = Vec::new();
    let total: usize = rest.len();
    let mut i: usize = 0;
    while i < total
        invariant
            i <= total,
            total == all.len(),
            rest@ == all.skip(i as int),
            names@ == file_names(all.take(i as int)),
        decreases total - i,
    {
        let (name, is_file) = rest.remove(0);
        proof {
            assert(all.take(i + 1).drop_last() =~= all.take(i as int));
            assert(all.take(i + 1).last() == (name, is_file));
            assert(rest@ =~= all.skip(i + 1));
        }
        if is_file {
            names.push(name);
        }
        i = i + 1;
    }
    assert(all.take(i as int) =~= all);
    order::sort(names)
}

/// The command that makes the directories of a run.
pub open spec fn mkdir_command() -> Seq<char> {
    "mkdir -p "@ + shell::quoted(VM_WORK_DIR@) + " "@ + shell::quoted(VM_OUTPUT_DIR@)
}

/// The command that makes sure of the output directory before it is collected.
pub open spec fn mkdir_output_command() -> Seq<char> {
    "mkdir -p "@ + shell::quoted(VM_OUTPUT_DIR@)
}

/// The directory that the scripts end up in inside the machine.
pub open spec fn scripts_dir(input_dir: Seq<char>) -> Seq<char> {
    VM_WORK_DIR@ + "/"@ + (match path::last_name(input_dir) {
        Some(name) => name,
        None => "scripts"@,
    })
}

/// The command that runs a script and logs its output.
pub open spec fn script_command(input_dir: Seq<char>, script: Seq<char>) -> Seq<char> {
    "cd "@ + shell::quoted(scripts_dir(input_dir)) + " && /bin/bash "@ + shell::quoted(script)
        + " 2>&1 | tee "@ + shell::quoted(VM_OUTPUT_DIR@ + "/"@ + script + ".log"@)
}

fn mkdir_text() -> (r: String)
    ensures
        r@ == mkdir_command(),
{
    let work = shell::shell_quote(VM_WORK_DIR);
    let out = shell::shell_quote(VM_OUTPUT_DIR);
    text::cat4("mkdir -p ", work.as_str(), " ", out.as_str())
}

fn mkdir_output_text() -> (r: String)
    ensures
        r@ == mkdir_output_command(),
{
    let out = shell::shell_quote(VM_OUTPUT_DIR);
    text::cat2("mkdir -p ", out.as_str())
}

fn script_text(input_dir: &str, script: &str) -> (r: String)
    ensures
        r@ == script_command(input_dir@, script@),
{
    let name = match path::file_name(input_dir) {
        Some(name) => name,
        None => "scripts".to_owned(),
    };
    let dir = text::cat3(VM_WORK_DIR, "/", name.as_str());
    let log = text::cat4(VM_OUTPUT_DIR, "/", script, ".log");
    let quoted_dir = shell::shell_quote(dir.as_str());
    let quoted = shell::shell_quote(script);
    let quoted_log = shell::shell_quote(log.as_str());
    text::cat6(
        "cd ",
        quoted_dir.as_str(),
        " && /bin/bash ",
        quoted.as_str(),
        " 2>&1 | tee ",
        quoted_log.as_str(),
    )
}

/// What a run waits for.
#[derive(Debug, Clone, Copy, PartialEq, Eq, Structural)]
pub enum RunStage {
    /// What the path of the scripts leads to.
    CheckingInput,
    /// What the path for the output leads to.
    CheckingOutput,
    /// Making the directory for the output on the host.
    CreatingOutput,
    /// The names of the scripts.
    Listing,
    Starting,
    MakingDirs,
    CopyingInput,
    RunningScript,
    /// Making sure of the output directory.
    MakingOutputDir,
    CopyingOutput,
    Removing,
    Finished,
}

impl RunStage {
    /// Whether no machine was started yet.
    pub open spec fn before_start(self) -> bool {
        self is CheckingInput || self is CheckingOutput || self is CreatingOutput || self is Listing
            || self is Starting
    }
}

/// What a run asks for next.
#[derive(Debug)]
pub enum RunAction {
    /// Tell what the path of the host leads to.
    LookAt { path: String },
    /// Create the directory on the host.
    MakeDir { path: String },
    /// List the entries of the directory on the host.
    List { dir: String },
    /// Start the machine.
    Run { options: RunOptions },
    /// Run a command in the machine.
    Ssh { command: String },
    CpTo { local: String, remote: String },
    CpFrom { remote: String, local: String },
    /// Run a command in the machine and pass its output on line by line.
    SshStream { command: String },
    /// Remove the machine.
    Rm { vm_id: String },
    /// Nothing: the run is over.
    Finish,
}

pub open spec fn asks_ssh(action: RunAction, command: Seq<char>) -> bool {
    action matches RunAction::Ssh { command: c } && c@ == command
}

pub open spec fn asks_stream(action: RunAction, command: Seq<char>) -> bool {
    action matches RunAction::SshStream { command: c } && c@ == command
}

pub open spec fn asks_rm(action: RunAction, vm_id: Seq<char>) -> bool {
    action matches RunAction::Rm { vm_id: id } && id@ == vm_id
}

/// A directory of scripts that runs.
pub struct ScriptRun {
    pub input_dir: String,
    pub options: TaskRunOptions,
    /// The names of the scripts, once they are listed.
    pub scripts: Vec<String>,
    pub stage: RunStage,
    /// The machine, once it has started.
    pub record: Option<VmRecord>,
    pub result: RunResult,
    /// What went wrong first.
    pub error: Option<Error>,
    /// What went wrong when the machine was removed.
    pub cleanup_error: Option<Error>,
    /// What was said since it was last taken.
    pub progress: Vec<RunProgress>,
    /// How many times the run has asked for the machine's removal.
    pub removals: Ghost<nat>,
}

impl ScriptRun {
    /// Whether every script was run.
    pub open spec fn all_run(self) -> bool {
        self.result.executed_scripts@.len() == self.scripts@.len()
    }

    /// The script that runs, or would run next.
    pub open spec fn script(self) -> Seq<char> {
        self.scripts@[self.result.executed_scripts@.len() as int]@
    }

    /// What holds at all times but for the stage.
    pub open spec fn base_wf(self) -> bool {
        &&& self.result.executed_scripts@.len() <= self.scripts@.len()
        &&& self.result.executed_scripts@ == self.scripts@.take(
            self.result.executed_scripts@.len() as int,
        )
        &&& self.record matches Some(record) ==> self.result.vm_id@ == record.id@
    }

    /// What holds at all times.
    pub open spec fn wf(self) -> bool {
        &&& self.base_wf()
        &&& match self.stage {
            RunStage::CheckingInput | RunStage::CheckingOutput | RunStage::CreatingOutput
            | RunStage::Listing => self.error is None && self.scripts@.len() == 0,
            RunStage::Starting => self.error is None && self.scripts@.len() > 0
                && self.result.executed_scripts@.len() == 0,
            RunStage::MakingDirs | RunStage::CopyingInput => self.error is None
                && self.result.executed_scripts@.len() == 0,
            RunStage::RunningScript => self.error is None && !self.all_run(),
            RunStage::MakingOutputDir | RunStage::CopyingOutput | RunStage::Removing =>
                self.error is None ==> self.all_run(),
            RunStage::Finished => self.error is None ==> self.all_run() && self.record is Some,
        }
        &&& self.record is None <== self.stage.before_start()
        &&& self.record is None ==> self.stage.before_start() || self.stage is Finished
        &&& self.cleanup_error is Some ==> self.stage is Finished && self.record is Some
        &&& self.removals@ == (if self.stage is Removing || (self.stage is Finished
            && self.record is Some) {
            1nat
        } else {
            0nat
        })
    }

    /// Whether two states are of the same run, on the same machine.
    pub open spec fn same_run(self, other: ScriptRun) -> bool {
        &&& self.input_dir == other.input_dir
        &&& self.options == other.options
        &&& self.scripts == other.scripts
        &&& self.record == other.record
        &&& self.result.vm_id == other.result.vm_id
        &&& self.result.output_dir == other.result.output_dir
    }

    /// Whether exactly `events` were said since `before`.
    pub open spec fn said_since(self, before: ScriptRun, events: Seq<Said>) -> bool {
        all_said(self.progress@) == all_said(before.progress@) + events
    }

    fn say(&mut self, event: RunProgress)
        ensures
            final(self).said_since(*old(self), seq![event.said()]),
            *final(self) == (ScriptRun { progress: final(self).progress, ..*old(self) }),
    {
        self.progress.push(event);
        assert(all_said(self.progress@) =~= all_said(old(self).progress@) + seq![event.said()]);
    }

    /// Whether a run has gone on from `before` to collecting its output, and has said so.
    pub open spec fn collects(self, before: ScriptRun, action: RunAction) -> bool {
        &&& self.stage is MakingOutputDir
        &&& self.result == before.result
        &&& asks_ssh(action, mkdir_output_command())
        &&& self.said_since(before, seq![Said::Phase { phase: RunPhase::CollectingOutput }])
    }

    /// Whether a run has gone on from `before` to removing its machine, and has said so.
    pub open spec fn cleans_up(self, before: ScriptRun, action: RunAction) -> bool {
        &&& self.stage is Removing
        &&& self.result == before.result
        &&& asks_rm(action, before.result.vm_id@)
        &&& self.said_since(before, seq![Said::Phase { phase: RunPhase::CleaningUp }])
    }
}

impl ScriptRun {
    /// Whether `action` is what the run waits for.
    pub open spec fn awaits(self, action: RunAction) -> bool {
        match self.stage {
            RunStage::CheckingInput => action matches RunAction::LookAt { path } && path@
                == self.input_dir@,
            RunStage::CheckingOutput => action matches RunAction::LookAt { path } && path@
                == self.result.output_dir@,
            RunStage::CreatingOutput => action matches RunAction::MakeDir { path } && path@
                == self.result.output_dir@,
            RunStage::Listing => action matches RunAction::List { dir } && dir@ == self.input_dir@,
            RunStage::Starting => action is Run,
            RunStage::MakingDirs | RunStage::MakingOutputDir => action is Ssh,
            RunStage::CopyingInput => action is CpTo,
            RunStage::RunningScript => action is SshStream,
            RunStage::CopyingOutput => action is CpFrom,
            RunStage::Removing => asks_rm(action, self.result.vm_id@),
            RunStage::Finished => action is Finish,
        }
    }

    /// Whether `action` is what the run asks of its machine at its stage, to the letter.
    pub open spec fn wants(self, action: RunAction) -> bool {
        match self.stage {
            RunStage::MakingDirs => asks_ssh(action, mkdir_command()),
            RunStage::CopyingInput => action matches RunAction::CpTo { local, remote } && local@
                == self.input_dir@ && remote@ == VM_WORK_DIR@,
            RunStage::RunningScript => asks_stream(
                action,
                script_command(self.input_dir@, self.script()),
            ),
            RunStage::MakingOutputDir => asks_ssh(action, mkdir_output_command()),
            RunStage::CopyingOutput => action matches RunAction::CpFrom { remote, local } && remote@
                == VM_OUTPUT_DIR@ + "/*"@ && local@ == self.result.output_dir@,
            _ => self.awaits(action),
        }
    }

    /// Whether the run has counted what it asks for: each removal of the machine, and nothing else.
    pub open spec fn counts(self, before: ScriptRun, action: RunAction) -> bool {
        self.removals@ == before.removals@ + (if action is Rm {
            1nat
        } else {
            0nat
        })
    }

    /// Whether a run has ended with an error before any machine was started.
    pub open spec fn refused(self, before: ScriptRun, action: RunAction) -> bool {
        &&& self == (ScriptRun { stage: RunStage::Finished, error: self.error, ..before })
        &&& self.error is Some
        &&& action is Finish
    }

    fn refuse(&mut self, err: Error) -> (r: RunAction)
        requires
            old(self).wf(),
            old(self).stage.before_start(),
        ensures
            final(self).wf(),
            final(self).refused(*old(self), r),
            final(self).error == Some(err),
    {
        self.error = Some(err);
        self.stage = RunStage::Finished;
        RunAction::Finish
    }
}

/// Starts the run of the scripts in a directory: it says that the paths are checked, and asks about
/// the scripts first.
pub fn run_task_with_progress(input_dir: &str, output_dir: &str, options: TaskRunOptions) -> (r: (
    ScriptRun,
    RunAction,
))
    ensures
        r.0.wf(),
        r.0.awaits(r.1),
        r.0.stage is CheckingInput,
        r.0.input_dir@ == input_dir@,
        r.0.options == options,
        r.0.result.output_dir@ == output_dir@,
        r.0.removals@ == 0,
        all_said(r.0.progress@) == seq![Said::Phase { phase: RunPhase::ValidatingPaths }],
{
    let mut run = ScriptRun {
        input_dir: input_dir.to_owned(),
        options,
        scripts: Vec::new(),
        stage: RunStage::CheckingInput,
        record: None,
        result: RunResult::new("", output_dir),
        error: None,
        cleanup_error: None,
        progress: Vec::new(),
        removals: Ghost(0),
    };
    proof {
        assert(run.result.executed_scripts@ =~= run.scripts@.take(0));
        assert(all_said(run.progress@) =~= seq![]);
    }
    run.say(RunProgress::Phase(RunPhase::ValidatingPaths));
    assert(all_said(run.progress@) =~= seq![Said::Phase { phase: RunPhase::ValidatingPaths }]);
    (run, RunAction::LookAt { path: input_dir.to_owned() })
}

impl ScriptRun {
    /// Goes on once it is known what the path of the scripts leads to.
    pub fn input_seen(&mut self, kind: PathKind) -> (r: RunAction)
        requires
            old(self).wf(),
            old(self).stage is CheckingInput,
        ensures
            final(self).wf(),
            final(self).wants(r),
            final(self).awaits(r),
            final(self).counts(*old(self), r),
            match kind {
                PathKind::Directory => *final(self) == (ScriptRun {
                    stage: RunStage::CheckingOutput,
                    ..*old(self)
                }),
                PathKind::Missing => final(self).refused(*old(self), r) && (
                final(self).error matches Some(Error::InputPathNotFound { path }) && path@ == old(
                    self).input_dir@),
                _ => final(self).refused(*old(self), r) && (
                final(self).error matches Some(Error::InputPathNotDirectory { path }) && path@
                    == old(self).input_dir@),
            },
    {
        match validate_input_directory(self.input_dir.as_str(), kind) {
            Err(err) => self.refuse(err),
            Ok(_) => {
                self.stage = RunStage::CheckingOutput;
                RunAction::LookAt { path: self.result.output_dir.clone() }
            },
        }
    }

    /// Goes on once it is known what the path for the output leads to.
    pub fn output_seen(&mut self, kind: PathKind) -> (r: RunAction)
        requires
            old(self).wf(),
            old(self).stage is CheckingOutput,
        ensures
            final(self).wf(),
            final(self).wants(r),
            final(self).awaits(r),
            final(self).counts(*old(self), r),
            match kind {
                PathKind::Missing => *final(self) == (ScriptRun {
                    stage: RunStage::CreatingOutput,
                    ..*old(self)
                }),
                PathKind::Directory => *final(self) == (ScriptRun {
                    stage: RunStage::Listing,
                    ..*old(self)
                }),
                _ => final(self).refused(*old(self), r) && (
                final(self).error matches Some(Error::Io { message }) && message@
                    == "output path must be a directory"@),
            },
    {
        match validate_output_directory(kind) {
            Err(err) => self.refuse(err),
            Ok(create) => if create {
                self.stage = RunStage::CreatingOutput;
                RunAction::MakeDir { path: self.result.output_dir.clone() }
            } else {
                self.stage = RunStage::Listing;
                RunAction::List { dir: self.input_dir.clone() }
            },
        }
    }

    /// Goes on once the directory for the output was to be created.
    pub fn output_created(&mut self, reply: Result<(), String>) -> (r: RunAction)
        requires
            old(self).wf(),
            old(self).stage is CreatingOutput,
        ensures
            final(self).wf(),
            final(self).wants(r),
            final(self).awaits(r),
            final(self).counts(*old(self), r),
            match reply {
                Ok(_) => *final(self) == (ScriptRun { stage: RunStage::Listing, ..*old(self) }),
                Err(reason) => final(self).refused(*old(self), r) && final(self).error == Some(
                    Error::Io { message: reason },
                ),
            },
    {
        match reply {
            Err(message) => self.refuse(Error::Io { message }),
            Ok(_) => {
                self.stage = RunStage::Listing;
                RunAction::List { dir: self.input_dir.clone() }
            },
        }
    }

    /// Goes on once the entries of the directory of the scripts are known, each with whether it is
    /// a file. Without any file no machine is started.
    pub fn scripts_listed(&mut self, reply: Result<Vec<(String, bool)>, Error>) -> (r: RunAction)
        requires
            old(self).wf(),
            old(self).stage is Listing,
        ensures
            final(self).wf(),
            final(self).wants(r),
            final(self).awaits(r),
            final(self).counts(*old(self), r),
            match reply {
                Err(err) => final(self).refused(*old(self), r) && final(self).error == Some(err),
                Ok(entries) => if file_names(entries@).len() == 0 {
                    final(self).refused(*old(self), r) && (
                    final(self).error matches Some(Error::NoScripts { path }) && path@ == old(
                        self).input_dir@)
                } else {
                    &&& *final(self) == (ScriptRun {
                        stage: RunStage::Starting,
                        scripts: final(self).scripts,
                        progress: final(self).progress,
                        ..*old(self)
                    })
                    &&& order::sorted(text::views(final(self).scripts@))
                    &&& final(self).scripts@.to_multiset() == file_names(entries@).to_multiset()
                    &&& final(self).said_since(
                        *old(self),
                        seq![Said::Phase { phase: RunPhase::StartingVm }],
                    )
                    &&& r matches RunAction::Run { options: asked } && asks_for_machine(
                        asked,
                        old(self).options,
                    )
                },
            },
    {
        let entries = match reply {
            Err(err) => return self.refuse(err),
            Ok(entries) => entries,
        };
        let ghost names = file_names(entries@);
        let scripts = list_scripts(entries);
        proof {
            scripts@.to_multiset_ensures();
            names.to_multiset_ensures();
        }
        if scripts.len() == 0 {
            let path = self.input_dir.clone();
            return self.refuse(Error::NoScripts { path });
        }
        self.scripts = scripts;
        self.stage = RunStage::Starting;
        assert(self.result.executed_scripts@ =~= self.scripts@.take(0));
        self.say(RunProgress::Phase(RunPhase::StartingVm));
        let mut asked = RunOptions::default();
        asked.disk_size = self.options.disk_size.clone();
        asked.show_progress = self.options.show_progress;
        RunAction::Run { options: asked }
    }
}

/// Whether a machine is asked for that has the size asked for and is otherwise as usual.
pub open spec fn asks_for_machine(asked: RunOptions, options: TaskRunOptions) -> bool {
    &&& text::opt_view(asked.disk_size) == text::opt_view(options.disk_size)
    &&& asked.show_progress == options.show_progress
    &&& asked.username is None
    &&& asked.memory is None
    &&& asked.cpus is None
    &&& !asked.force_download
    &&& asked.image_url is None
    &&& asked.kernel is None
    &&& asked.rootfs is None
    &&& asked.mounts@.len() == 0
    &&& !asked.verbose
}

impl ScriptRun {
    /// Takes what was said since the last time.
    pub fn take_progress(&mut self) -> (r: Vec<RunProgress>)
        requires
            old(self).wf(),
        ensures
            final(self).wf(),
            r@ == old(self).progress@,
            final(self).progress@.len() == 0,
            *final(self) == (ScriptRun { progress: final(self).progress, ..*old(self) }),
    {
        let mut taken: Vec<RunProgress> = Vec::new();
        taken.append(&mut self.progress);
        taken
    }

    fn start_collecting(&mut self) -> (r: RunAction)
        requires
            old(self).base_wf(),
            old(self).record is Some,
            old(self).error is None ==> old(self).all_run(),
            old(self).cleanup_error is None,
            old(self).removals@ == 0,
        ensures
            final(self).wf(),
            final(self).same_run(*old(self)),
            final(self).error == old(self).error,
            final(self).collects(*old(self), r),
    {
        self.say(RunProgress::Phase(RunPhase::CollectingOutput));
        self.stage = RunStage::MakingOutputDir;
        RunAction::Ssh { command: mkdir_output_text() }
    }

    fn start_cleanup(&mut self) -> (r: RunAction)
        requires
            old(self).base_wf(),
            old(self).record is Some,
            old(self).error is None ==> old(self).all_run(),
            old(self).cleanup_error is None,
            old(self).removals@ == 0,
        ensures
            final(self).wf(),
            final(self).same_run(*old(self)),
            final(self).error == old(self).error,
            final(self).cleans_up(*old(self), r),
    {
        self.say(RunProgress::Phase(RunPhase::CleaningUp));
        self.stage = RunStage::Removing;
        proof {
            self.removals@ = self.removals@ + 1;
        }
        RunAction::Rm { vm_id: self.result.vm_id.clone() }
    }

    fn fail(&mut self, err: Error) -> (r: RunAction)
        requires
            old(self).base_wf(),
            old(self).record is Some,
            old(self).cleanup_error is None,
            old(self).removals@ == 0,
        ensures
            final(self).wf(),
            final(self).same_run(*old(self)),
            final(self).error == Some(err),
            final(self).collects(*old(self), r),
    {
        self.error = Some(err);
        self.start_collecting()
    }

    /// What is said and asked of the script at position `i`, or past the last one.
    pub open spec fn goes_to(self, before: ScriptRun, i: int, action: RunAction, said: Said) -> bool {
        if i == before.scripts@.len() {
            &&& self.stage is MakingOutputDir
            &&& asks_ssh(action, mkdir_output_command())
            &&& said == (Said::Phase { phase: RunPhase::CollectingOutput })
        } else {
            &&& self.stage is RunningScript
            &&& asks_stream(action, script_command(before.input_dir@, before.scripts@[i]@))
            &&& said == (Said::Started {
                script: before.scripts@[i]@,
                index: (i + 1) as nat,
                total: before.scripts@.len(),
            })
        }
    }

    fn next_script(&mut self) -> (r: (RunAction, Ghost<Said>))
        requires
            old(self).base_wf(),
            old(self).record is Some,
            old(self).error is None,
            old(self).cleanup_error is None,
            old(self).removals@ == 0,
        ensures
            final(self).wf(),
            final(self).same_run(*old(self)),
            final(self).error is None,
            final(self).result == old(self).result,
            final(self).goes_to(
                *old(self),
                old(self).result.executed_scripts@.len() as int,
                r.0,
                r.1@,
            ),
            final(self).said_since(*old(self), seq![r.1@]),
    {
        let done: usize = self.result.executed_scripts.len();
        let total: usize = self.scripts.len();
        if done == total {
            let action = self.start_collecting();
            return (action, Ghost(Said::Phase { phase: RunPhase::CollectingOutput }));
        }
        let script = self.scripts[done].clone();
        let command = script_text(self.input_dir.as_str(), script.as_str());
        let ghost said = Said::Started {
            script: script@,
            index: (done + 1) as nat,
            total: total as nat,
        };
        self.say(RunProgress::ScriptStarted { script, index: done + 1, total });
        self.stage = RunStage::RunningScript;
        (RunAction::SshStream { command }, Ghost(said))
    }

    /// Goes on once the machine has started, or has failed to. A machine that did not start is not
    /// removed.
    pub fn vm_started(&mut self, reply: Result<VmRecord, String>) -> (r: RunAction)
        requires
            old(self).wf(),
            old(self).stage is Starting,
        ensures
            final(self).wf(),
            final(self).wants(r),
            final(self).awaits(r),
            final(self).keeps(*old(self), reason_of(reply)),
            final(self).counts(*old(self), r),
            final(self).input_dir == old(self).input_dir,
            final(self).options == old(self).options,
            final(self).scripts == old(self).scripts,
            final(self).result.output_dir == old(self).result.output_dir,
            match reply {
                Err(reason) => {
                    &&& r is Finish
                    &&& final(self).stage is Finished
                    &&& final(self).record is None
                    &&& final(self).error == Some(Error::VmStart { message: reason })
                    &&& final(self).progress == old(self).progress
                },
                Ok(found) => {
                    &&& final(self).record == Some(found)
                    &&& final(self).stage is MakingDirs
                    &&& asks_ssh(r, mkdir_command())
                    &&& final(self).said_since(
                        *old(self),
                        seq![Said::Phase { phase: RunPhase::PreparingVm }],
                    )
                },
            },
    {
        match reply {
            Err(message) => {
                self.error = Some(Error::VmStart { message });
                self.stage = RunStage::Finished;
                RunAction::Finish
            },
            Ok(found) => {
                self.result.vm_id = found.id.clone();
                self.record = Some(found);
                self.say(RunProgress::Phase(RunPhase::PreparingVm));
                self.stage = RunStage::MakingDirs;
                RunAction::Ssh { command: mkdir_text() }
            },
        }
    }

    /// Goes on once the machine's directories are made.
    pub fn dirs_made(&mut self, reply: Result<String, String>) -> (r: RunAction)
        requires
            old(self).wf(),
            old(self).stage is MakingDirs,
        ensures
            final(self).wf(),
            final(self).wants(r),
            final(self).awaits(r),
            final(self).keeps(*old(self), reason_of(reply)),
            final(self).counts(*old(self), r),
            final(self).same_run(*old(self)),
            match reply {
                Err(reason) => {
                    &&& final(self).error == Some(Error::VmCommand { message: reason })
                    &&& final(self).collects(*old(self), r)
                },
                Ok(_) => {
                    &&& final(self).error is None
                    &&& final(self).stage is CopyingInput
                    &&& final(self).result == old(self).result
                    &&& final(self).progress == old(self).progress
                    &&& r matches RunAction::CpTo { local, remote } && local@ == old(
                        self).input_dir@ && remote@ == VM_WORK_DIR@
                },
            },
    {
        match reply {
            Err(message) => self.fail(Error::VmCommand { message }),
            Ok(_) => {
                self.stage = RunStage::CopyingInput;
                RunAction::CpTo {
                    local: self.input_dir.clone(),
                    remote: VM_WORK_DIR.to_owned(),
                }
            },
        }
    }

    /// Goes on once the scripts are copied.
    pub fn input_copied(&mut self, reply: Result<(), String>) -> (r: RunAction)
        requires
            old(self).wf(),
            old(self).stage is CopyingInput,
        ensures
            final(self).wf(),
            final(self).wants(r),
            final(self).awaits(r),
            final(self).keeps(*old(self), reason_of(reply)),
            final(self).counts(*old(self), r),
            final(self).same_run(*old(self)),
            match reply {
                Err(reason) => {
                    &&& final(self).error == Some(Error::CopyToVm { message: reason })
                    &&& final(self).collects(*old(self), r)
                },
                Ok(_) => {
                    &&& final(self).error is None
                    &&& final(self).result == old(self).result
                    &&& exists|said: Said| #[trigger] final(self).goes_to(*old(self), 0, r, said)
                        && final(self).said_since(
                        *old(self),
                        seq![Said::Phase { phase: RunPhase::RunningScripts }, said],
                    )
                },
            },
    {
        match reply {
            Err(message) => self.fail(Error::CopyToVm { message }),
            Ok(_) => {
                self.say(RunProgress::Phase(RunPhase::RunningScripts));
                let ghost told = *self;
                let (action, Ghost(said)) = self.next_script();
                proof {
                    assert(self.goes_to(*old(self), 0, action, said));
                    assert(all_said(old(self).progress@) + seq![
                        Said::Phase { phase: RunPhase::RunningScripts },
                    ] + seq![said] =~= all_said(old(self).progress@) + seq![
                        Said::Phase { phase: RunPhase::RunningScripts },
                        said,
                    ]);
                }
                action
            },
        }
    }

    /// Goes on once a script has ended. The first script that fails is the last that runs.
    pub fn script_ended(&mut self, reply: Result<(), String>) -> (r: RunAction)
        requires
            old(self).wf(),
            old(self).stage is RunningScript,
        ensures
            final(self).wf(),
            final(self).wants(r),
            final(self).awaits(r),
            final(self).keeps(*old(self), reason_of(reply)),
            final(self).counts(*old(self), r),
            final(self).same_run(*old(self)),
            match reply {
                Err(reason) => {
                    &&& final(self).error matches Some(Error::ScriptFailed { script, message })
                        && script@ == old(self).script() && message == reason
                    &&& final(self).collects(*old(self), r)
                },
                Ok(_) => {
                    let now = old(self).result.executed_scripts@.len() + 1;
                    let finished = Said::Finished {
                        script: old(self).script(),
                        index: now,
                        total: old(self).scripts@.len(),
                    };
                    &&& final(self).error is None
                    &&& final(self).result.executed_scripts@ == old(self).scripts@.take(now as int)
                    &&& exists|said: Said|
                        #[trigger] final(self).goes_to(*old(self), now as int, r, said)
                            && final(self).said_since(*old(self), seq![finished, said])
                },
            },
    {
        let done: usize = self.result.executed_scripts.len();
        let total: usize = self.scripts.len();
        let script = self.scripts[done].clone();
        match reply {
            Err(message) => self.fail(Error::ScriptFailed { script, message }),
            Ok(_) => {
                let name = script.clone();
                self.result.executed_scripts.push(script);
                assert(self.result.executed_scripts@ =~= self.scripts@.take(done + 1));
                let ghost finished = Said::Finished {
                    script: name@,
                    index: (done + 1) as nat,
                    total: total as nat,
                };
                self.say(RunProgress::ScriptFinished { script: name, index: done + 1, total });
                let (action, Ghost(said)) = self.next_script();
                proof {
                    assert(self.goes_to(*old(self), done + 1, action, said));
                    assert(all_said(old(self).progress@) + seq![finished] + seq![said] =~= all_said(
                        old(self).progress@,
                    ) + seq![finished, said]);
                }
                action
            },
        }
    }

    /// Goes on once the output directory is sure to be there. An error of the run stays the error.
    pub fn output_dir_made(&mut self, reply: Result<String, String>) -> (r: RunAction)
        requires
            old(self).wf(),
            old(self).stage is MakingOutputDir,
        ensures
            final(self).wf(),
            final(self).wants(r),
            final(self).awaits(r),
            final(self).keeps(*old(self), reason_of(reply)),
            final(self).counts(*old(self), r),
            final(self).same_run(*old(self)),
            match reply {
                Err(reason) => {
                    &&& final(self).cleans_up(*old(self), r)
                    &&& final(self).error == (if old(self).error is Some {
                        old(self).error
                    } else {
                        Some(Error::VmCommand { message: reason })
                    })
                },
                Ok(_) => {
                    &&& final(self).error == old(self).error
                    &&& final(self).stage is CopyingOutput
                    &&& final(self).result == old(self).result
                    &&& final(self).progress == old(self).progress
                    &&& r matches RunAction::CpFrom { remote, local } && remote@ == VM_OUTPUT_DIR@
                        + "/*"@ && local@ == old(self).result.output_dir@
                },
            },
    {
        match reply {
            Err(message) => {
                if self.error.is_none() {
                    self.error = Some(Error::VmCommand { message });
                }
                self.start_cleanup()
            },
            Ok(_) => {
                self.stage = RunStage::CopyingOutput;
                RunAction::CpFrom {
                    remote: text::cat2(VM_OUTPUT_DIR, "/*"),
                    local: self.result.output_dir.clone(),
                }
            },
        }
    }

    /// Goes on once the output is collected. An error of the run stays the error.
    pub fn output_copied(&mut self, reply: Result<(), String>) -> (r: RunAction)
        requires
            old(self).wf(),
            old(self).stage is CopyingOutput,
        ensures
            final(self).wf(),
            final(self).wants(r),
            final(self).awaits(r),
            final(self).keeps(*old(self), reason_of(reply)),
            final(self).counts(*old(self), r),
            final(self).same_run(*old(self)),
            final(self).cleans_up(*old(self), r),
            final(self).error == (match reply {
                Err(reason) => if old(self).error is Some {
                    old(self).error
                } else {
                    Some(Error::CopyFromVm { message: reason })
                },
                Ok(_) => old(self).error,
            }),
    {
        if let Err(message) = reply {
            if self.error.is_none() {
                self.error = Some(Error::CopyFromVm { message });
            }
        }
        self.start_cleanup()
    }

    /// Goes on once the machine is removed, or could not be.
    pub fn removed(&mut self, reply: Result<(), String>) -> (r: RunAction)
        requires
            old(self).wf(),
            old(self).stage is Removing,
        ensures
            final(self).wf(),
            final(self).wants(r),
            final(self).awaits(r),
            final(self).keeps(*old(self), reason_of(reply)),
            final(self).counts(*old(self), r),
            final(self).same_run(*old(self)),
            final(self).result == old(self).result,
            final(self).error == old(self).error,
            final(self).progress == old(self).progress,
            final(self).stage is Finished,
            r is Finish,
            match reply {
                Err(reason) => final(self).cleanup_error matches Some(
                    Error::CleanupFailed { vm_id, message },
                ) && vm_id@ == old(self).result.vm_id@ && message == reason,
                Ok(_) => final(self).cleanup_error is None,
            },
    {
        if let Err(message) = reply {
            self.cleanup_error = Some(
                Error::CleanupFailed { vm_id: self.result.vm_id.clone(), message },
            );
        }
        self.stage = RunStage::Finished;
        RunAction::Finish
    }

    /// The outcome of a finished run. An error of the run comes before an error of the cleanup, and
    /// both are told where there are both.
    pub fn finish(self, elapsed_ms: u64) -> (r: Result<RunResult, Error>)
        requires
            self.wf(),
            self.stage is Finished,
        ensures
            self.ends_as(r, elapsed_ms),
            match (self.error, self.cleanup_error) {
                (Some(run), Some(cleanup)) => r matches Err(Error::Runtime { message }) && message@
                    == run.text() + "; additionally: "@ + cleanup.text(),
                (Some(run), None) => r == Err::<RunResult, Error>(run),
                (None, Some(cleanup)) => r == Err::<RunResult, Error>(cleanup),
                (None, None) => r == Ok::<RunResult, Error>(
                    RunResult { exit_code: 0, elapsed_ms, ..self.result },
                ),
            },
            r matches Ok(result) ==> result.executed_scripts@ == self.scripts@,
    {
        match (self.error, self.cleanup_error) {
            (Some(run), Some(cleanup)) => Err(combine_errors(run, cleanup)),
            (Some(run), None) => Err(run),
            (None, Some(cleanup)) => Err(cleanup),
            (None, None) => {
                let mut result = self.result;
                result.elapsed_ms = elapsed_ms;
                result.exit_code = 0;
                assert(self.scripts@.take(self.scripts@.len() as int) =~= self.scripts@);
                Ok(result)
            },
        }
    }
}

/// What a run was, and what it asked for, at its start and after each of its steps. Every step
/// ensures what is asked here of two that follow each other.
pub open spec fn history(runs: Seq<ScriptRun>, actions: Seq<RunAction>) -> bool {
    &&& runs.len() == actions.len()
    &&& runs.len() > 0
    &&& runs[0].stage is CheckingInput
    &&& forall|i: int|
        0 <= i < runs.len() ==> (#[trigger] runs[i]).wf() && runs[i].awaits(actions[i])
    &&& forall|i: int|
        0 < i < runs.len() ==> (#[trigger] runs[i]).counts(runs[i - 1], actions[i])
}

/// How many times a machine's removal was asked for.
pub open spec fn removals_in(actions: Seq<RunAction>) -> nat
    decreases actions.len(),
{
    if actions.len() == 0 {
        0
    } else {
        removals_in(actions.drop_last()) + (if actions.last() is Rm {
            1nat
        } else {
            0nat
        })
    }
}

proof fn lemma_removals_counted(runs: Seq<ScriptRun>, actions: Seq<RunAction>)
    requires
        history(runs, actions),
    ensures
        removals_in(actions) == runs.last().removals@,
    decreases runs.len(),
{
    let n = runs.len() - 1;
    assert(actions.last() == actions[n]);
    if n == 0 {
        assert(runs[0].wf() && runs[0].awaits(actions[0]));
        assert(removals_in(actions.drop_last()) == 0);
    } else {
        let (r, a) = (runs.drop_last(), actions.drop_last());
        assert forall|i: int| 0 <= i < r.len() implies (#[trigger] r[i]).wf() && r[i].awaits(
            a[i],
        ) by {
            assert(runs[i].wf());
        }
        assert forall|i: int| 0 < i < r.len() implies (#[trigger] r[i]).counts(r[i - 1], a[i]) by {
            assert(runs[i].counts(runs[i - 1], actions[i]));
        }
        lemma_removals_counted(r, a);
        assert(runs[n].counts(runs[n - 1], actions[n]));
    }
}

/// A machine that was started is asked to be removed exactly once before its run is over, under
/// its own name, and where none was started nothing is asked to be removed.
pub proof fn law_started_machine_is_removed(runs: Seq<ScriptRun>, actions: Seq<RunAction>)
    requires
        history(runs, actions),
    ensures
        runs.last().stage is Finished ==> removals_in(actions) == (if runs.last().record is Some {
            1nat
        } else {
            0nat
        }),
        forall|i: int|
            0 <= i < runs.len() && (#[trigger] actions[i]) is Rm ==> (
            runs[i].record matches Some(record) && asks_rm(actions[i], record.id@)),
{
    lemma_removals_counted(runs, actions);
    assert(runs.last().wf());
    assert forall|i: int| 0 <= i < runs.len() && (#[trigger] actions[i]) is Rm implies (
    runs[i].record matches Some(record) && asks_rm(actions[i], record.id@)) by {
        assert(runs[i].wf() && runs[i].awaits(actions[i]));
    }
}

/// At every moment, the scripts that were run are the first ones in their order.
pub proof fn law_scripts_run_in_order(run: ScriptRun)
    requires
        run.wf(),
    ensures
        run.result.executed_scripts@ == run.scripts@.take(
            run.result.executed_scripts@.len() as int,
        ),
        run.stage is Finished && run.error is None ==> run.result.executed_scripts@ == run.scripts@,
{
    assert(run.scripts@.take(run.scripts@.len() as int) =~= run.scripts@);
}

/// The two directories of a run in its machine lie side by side.
pub proof fn law_directories_of_a_run()
    ensures
        VM_WORK_DIR@ == path::joined("/tmp/batch"@, "work"@),
        VM_OUTPUT_DIR@ == path::joined("/tmp/batch"@, "out"@),
{
    reveal_strlit("/tmp/batch");
    reveal_strlit("work");
    reveal_strlit("out");
    reveal_strlit("/tmp/batch/work");
    reveal_strlit("/tmp/batch/out");
    assert(VM_WORK_DIR@ =~= path::joined("/tmp/batch"@, "work"@));
    assert(VM_OUTPUT_DIR@ =~= path::joined("/tmp/batch"@, "out"@));
}

/// A script runs in the copy of its own directory: the command that runs it goes to the directory
/// of that name below the one that the run asked to have it copied to, and starts the script there.
/// What it prints goes to a file of its name in the directory that is collected.
pub proof fn law_scripts_run_where_they_are(
    copying: ScriptRun,
    copy: RunAction,
    running: ScriptRun,
    stream: RunAction,
    collecting: ScriptRun,
    collect: RunAction,
    name: Seq<char>,
)
    requires
        copying.stage is CopyingInput,
        copying.wants(copy),
        running.stage is RunningScript,
        running.wants(stream),
        running.input_dir == copying.input_dir,
        path::last_name(copying.input_dir@) == Some(name),
        collecting.stage is CopyingOutput,
        collecting.wants(collect),
    ensures
        copy matches RunAction::CpTo { local, remote: place } && local@ == copying.input_dir@ && (
        stream matches RunAction::SshStream { command } && (
        collect matches RunAction::CpFrom { remote: out, local: to } && to@
            == collecting.result.output_dir@ && "/*"@.is_suffix_of(out@) && command@ == "cd "@
            + shell::quoted(place@ + "/"@ + name) + " && /bin/bash "@ + shell::quoted(
            running.script(),
        ) + " 2>&1 | tee "@ + shell::quoted(
            out@.take(out@.len() - 1) + running.script() + ".log"@,
        ))),
{
    reveal_strlit("/*");
    reveal_strlit("/");
    let out = collect->CpFrom_remote@;
    assert("/*"@ =~= out.subrange(out.len() - 2, out.len() as int));
    assert(out.take(out.len() - 1) =~= VM_OUTPUT_DIR@ + "/"@);
}

/// The directories that scripts are copied to and leave their output in are made first, and the one
/// for the output once more before it is collected.
pub proof fn law_directories_are_made(
    making: ScriptRun,
    make: RunAction,
    again: ScriptRun,
    make_again: RunAction,
    copying: ScriptRun,
    copy: RunAction,
    collecting: ScriptRun,
    collect: RunAction,
)
    requires
        making.stage is MakingDirs,
        making.wants(make),
        again.stage is MakingOutputDir,
        again.wants(make_again),
        copying.stage is CopyingInput,
        copying.wants(copy),
        collecting.stage is CopyingOutput,
        collecting.wants(collect),
    ensures
        make matches RunAction::Ssh { command } && (make_again matches RunAction::Ssh {
            command: command_again,
        } && (copy matches RunAction::CpTo { remote: place, .. } && (
        collect matches RunAction::CpFrom { remote: out, .. } && out@.len() > 2 && command@
            == "mkdir -p "@ + shell::quoted(place@) + " "@ + shell::quoted(
            out@.take(out@.len() - 2),
        ) && command_again@ == "mkdir -p "@ + shell::quoted(out@.take(out@.len() - 2))))),
{
    reveal_strlit("/*");
    reveal_strlit("/tmp/batch/out");
    let out = collect->CpFrom_remote@;
    assert(out.take(out.len() - 2) =~= VM_OUTPUT_DIR@);
}

/// The machine of a run is the usual one: of what can be asked for, only the size of its disk and
/// whether its start is shown are asked for.
pub proof fn law_machine_of_a_run(asked: RunOptions, options: TaskRunOptions)
    requires
        asks_for_machine(asked, options),
    ensures
        asked.disk_size is Some <==> options.disk_size is Some,
        options.disk_size is Some ==> asked.disk_size->0@ == options.disk_size->0@,
        asked.show_progress <==> options.show_progress,
        asked.username is None && asked.memory is None && asked.cpus is None,
        asked.kernel is None && asked.rootfs is None && asked.image_url is None,
        asked.mounts@.len() == 0,
        !asked.verbose && !asked.force_download,
{
}

/// The scripts of a run are the files of its input directory, all of them, and nothing else.
pub proof fn law_only_files_are_scripts(entries: Seq<(String, bool)>)
    ensures
        forall|i: int|
            0 <= i < entries.len() && (#[trigger] entries[i]).1 ==> file_names(entries).contains(
                entries[i].0,
            ),
        forall|k: int|
            0 <= k < file_names(entries).len() ==> entries.contains(
                (#[trigger] file_names(entries)[k], true),
            ),
    decreases entries.len(),
{
    if entries.len() > 0 {
        let before = entries.drop_last();
        let last = entries.last();
        let names = file_names(entries);
        law_only_files_are_scripts(before);
        assert(entries[entries.len() - 1] == last);
        assert forall|i: int|
            0 <= i < entries.len() && (#[trigger] entries[i]).1 implies names.contains(
            entries[i].0,
        ) by {
            if i < before.len() {
                assert(before[i] == entries[i]);
                let k = choose|k: int|
                    0 <= k < file_names(before).len() && file_names(before)[k] == before[i].0;
                assert(names[k] == entries[i].0);
            } else {
                assert(names[names.len() - 1] == last.0);
            }
        }
        assert forall|k: int| 0 <= k < names.len() implies entries.contains(
            (#[trigger] names[k], true),
        ) by {
            if k < file_names(before).len() {
                assert(names[k] == file_names(before)[k]);
                assert(before.contains((file_names(before)[k], true)));
                let i = choose|i: int|
                    0 <= i < before.len() && before[i] == (file_names(before)[k], true);
                assert(entries[i] == before[i]);
            } else {
                assert(entries[entries.len() - 1] == (names[k], true));
            }
        }
    }
}

/// Whether `r` is what a directory with scripts is judged as.
pub open spec fn judges_input(r: Result<(), Error>, path: Seq<char>, kind: PathKind) -> bool {
    match kind {
        PathKind::Directory => r is Ok,
        PathKind::Missing => r matches Err(Error::InputPathNotFound { path: p }) && p@ == path,
        _ => r matches Err(Error::InputPathNotDirectory { path: p }) && p@ == path,
    }
}

/// Whether `r` is what the directory for the output is judged as.
pub open spec fn judges_output(r: Result<bool, Error>, kind: PathKind) -> bool {
    match kind {
        PathKind::Missing => r == Ok::<bool, Error>(true),
        PathKind::Directory => r == Ok::<bool, Error>(false),
        _ => r matches Err(Error::Io { message }) && message@ == "output path must be a directory"@,
    }
}

/// The scripts have to lie in a directory, and the output must go to one, which is created exactly
/// if it is not there; an error names the path of the scripts.
pub proof fn law_directories_of_a_run_are_directories(
    input: Result<(), Error>,
    output: Result<bool, Error>,
    path: Seq<char>,
    kind: PathKind,
)
    requires
        judges_input(input, path, kind),
        judges_output(output, kind),
    ensures
        input is Ok <==> kind is Directory,
        input matches Err(err) ==> path.is_suffix_of(err.text()) && (err is InputPathNotFound
            <==> kind is Missing),
        output is Ok <==> kind is Missing || kind is Directory,
        output matches Ok(create) ==> (create <==> kind is Missing),
{
    if let Err(err) = input {
        let t = err.text();
        let n = t.len() as int;
        assert(path =~= t.subrange(n - path.len(), n));
    }
}

/// Why something failed, where it did.
pub open spec fn reason_of<T>(reply: Result<T, String>) -> Option<String> {
    match reply {
        Ok(_) => None,
        Err(reason) => Some(reason),
    }
}

impl ScriptRun {
    /// Whether the run keeps what went wrong in answer to the stage of `before`, if anything did.
    pub open spec fn keeps(self, before: ScriptRun, reason: Option<String>) -> bool {
        match (before.stage, reason) {
            (RunStage::Removing, None) => self.error == before.error && self.cleanup_error is None,
            (RunStage::Removing, Some(reason)) => self.error == before.error && (
            self.cleanup_error matches Some(Error::CleanupFailed { vm_id, message }) && vm_id@
                == before.result.vm_id@ && message == reason),
            (_, None) => self.error == before.error,
            (stage, Some(reason)) => if before.error is Some {
                self.error == before.error
            } else {
                match stage {
                    RunStage::Starting => self.error == Some(Error::VmStart { message: reason }),
                    RunStage::MakingDirs | RunStage::MakingOutputDir => self.error == Some(
                        Error::VmCommand { message: reason },
                    ),
                    RunStage::CopyingInput => self.error == Some(
                        Error::CopyToVm { message: reason },
                    ),
                    RunStage::RunningScript => self.error matches Some(
                        Error::ScriptFailed { script, message },
                    ) && script@ == before.script() && message == reason,
                    RunStage::CopyingOutput => self.error == Some(
                        Error::CopyFromVm { message: reason },
                    ),
                    _ => self.error is Some,
                }
            },
        }
    }

    /// Whether `r` is the outcome of the finished run.
    pub open spec fn ends_as(self, r: Result<RunResult, Error>, elapsed_ms: u64) -> bool {
        match (self.error, self.cleanup_error) {
            (Some(run), Some(cleanup)) => r matches Err(Error::Runtime { message }) && message@
                == run.text() + "; additionally: "@ + cleanup.text(),
            (Some(run), None) => r == Err::<RunResult, Error>(run),
            (None, Some(cleanup)) => r == Err::<RunResult, Error>(cleanup),
            (None, None) => r == Ok::<RunResult, Error>(
                RunResult { exit_code: 0, elapsed_ms, ..self.result },
            ),
        }
    }
}

/// What goes wrong in a run is kept as the error of the part of the work that it arose in, with
/// what was said there, and the first error stays. Nothing goes wrong unnoticed.
pub proof fn law_failure_is_kept_with_its_place(
    before: ScriptRun,
    after: ScriptRun,
    reason: Option<String>,
)
    requires
        before.wf(),
        after.keeps(before, reason),
    ensures
        before.error is Some ==> after.error == before.error,
        reason is None ==> after.error == before.error,
        before.error is None && reason is Some && !(before.stage is Removing) ==> {
            let message = reason->0@;
            let told = after.error->0.text();
            &&& after.error is Some
            &&& before.stage is Starting ==> after.error->0 is VmStart
            &&& before.stage is MakingDirs || before.stage is MakingOutputDir
                ==> after.error->0 is VmCommand
            &&& before.stage is CopyingInput ==> after.error->0 is CopyToVm
            &&& before.stage is CopyingOutput ==> after.error->0 is CopyFromVm
            &&& before.stage is RunningScript ==> after.error->0 is ScriptFailed
                && after.error->0->script@
                == before.scripts@[before.result.executed_scripts@.len() as int]@
            &&& before.stage is Starting || before.stage is MakingDirs
                || before.stage is CopyingInput || before.stage is RunningScript
                || before.stage is MakingOutputDir || before.stage is CopyingOutput
                ==> message.is_suffix_of(told)
        },
        before.stage is Removing ==> (after.cleanup_error is Some <==> reason is Some),
        before.stage is Removing && reason is Some ==> after.cleanup_error->0 is CleanupFailed
            && after.cleanup_error->0->vm_id@ == before.result.vm_id@
            && after.cleanup_error->0->CleanupFailed_message == reason->0,
{
    if before.error is None && reason is Some && after.error is Some {
        let message = reason->0@;
        let told = after.error->0.text();
        let n = told.len() as int;
        if n >= message.len() {
            assert(before.stage is Starting ==> message =~= told.subrange(n - message.len(), n));
            assert(before.stage is MakingDirs ==> message =~= told.subrange(n - message.len(), n));
            assert(before.stage is MakingOutputDir ==> message =~= told.subrange(
                n - message.len(),
                n,
            ));
            assert(before.stage is CopyingInput ==> message =~= told.subrange(
                n - message.len(),
                n,
            ));
            assert(before.stage is CopyingOutput ==> message =~= told.subrange(
                n - message.len(),
                n,
            ));
            assert(before.stage is RunningScript ==> message =~= told.subrange(
                n - message.len(),
                n,
            ));
        }
    }
}

/// A run succeeds exactly if nothing went wrong in it, its cleanup included; then it has run all of
/// its scripts in order. An error of the run is told before an error of the cleanup, and neither
/// hides the other.
pub proof fn law_outcome_of_a_run(run: ScriptRun, r: Result<RunResult, Error>, elapsed_ms: u64)
    requires
        run.wf(),
        run.stage is Finished,
        run.ends_as(r, elapsed_ms),
    ensures
        r is Ok <==> run.error is None && run.cleanup_error is None,
        r matches Ok(result) ==> {
            &&& result.exit_code == 0 && result.elapsed_ms == elapsed_ms
            &&& result.executed_scripts@ == run.scripts@
            &&& result.output_dir == run.result.output_dir
            &&& run.record is Some && result.vm_id@ == run.record->0.id@
        },
        run.error is Some && run.cleanup_error is None ==> r->Err_0 == run.error->0,
        run.error is None && run.cleanup_error is Some ==> r->Err_0 == run.cleanup_error->0,
        run.error is Some && run.cleanup_error is Some ==> text::occurs_in(
            run.error->0.text(),
            r->Err_0.text(),
        ) && run.cleanup_error->0.text().is_suffix_of(r->Err_0.text()),
{
    if run.error is None {
        assert(run.scripts@.take(run.scripts@.len() as int) =~= run.scripts@);
    }
    if run.error is Some && run.cleanup_error is Some {
        let told = r->Err_0.text();
        let n = told.len() as int;
        let first = run.error->0.text();
        let second = run.cleanup_error->0.text();
        let middle = "; additionally: "@;
        text::lemma_occurs_between("Runtime error: "@, first, middle + second);
        assert(told =~= "Runtime error: "@ + first + (middle + second));
        assert(second =~= told.subrange(n - second.len(), n));
    }
}

} // verus!
