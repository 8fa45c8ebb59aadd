//! The run of one task, from the start of its machine to the machine's removal.
//!
//! A run asks for one thing at a time and goes on with the answer. It never touches a machine or a
//! file itself.

use vstd::prelude::*;

use crate::path;
use crate::shell;
use crate::task::LoadedTask;
use crate::text;
use crate::vm::record::VmRecord;
use crate::worker::error::{combine_errors, runtime, Error};
use crate::worker::kernel_config;
use crate::worker::kernel_config::KernelConfigRequirement;
use crate::worker::paths;
use crate::worker::progress;
use crate::worker::progress::{send_progress, RunPhase, RunProgress};
use crate::worker::result::RunResult;
use crate::worker::vm_ops::{VmCall, VmOps, VmOptions, VmReply};

verus! {

/// Where a task's input is copied to inside its machine.
pub const VM_WORK_DIR: &'static str = "/tmp/vmize-worker/work";

/// Where a task leaves its output inside its machine.
pub const VM_OUTPUT_DIR: &'static str = "/tmp/vmize-worker/out";

/// Where the output of a task's scripts is logged inside its machine.
pub const VM_LOGS_DIR: &'static str = "/tmp/vmize-worker/logs";

/// The command that makes the directories of a run. The work directory is made by the copy.
pub open spec fn mkdir_command() -> Seq<char> {
    "mkdir -p "@ + shell::quoted(VM_OUTPUT_DIR@) + " "@ + shell::quoted(VM_LOGS_DIR@)
}

/// The name that a script's log goes by.
pub open spec fn script_basename(script: Seq<char>) -> Seq<char> {
    match path::last_name(script) {
        Some(name) => name,
        None => script,
    }
}

/// The file that a script's output is logged to.
pub open spec fn script_log(script: Seq<char>) -> Seq<char> {
    VM_LOGS_DIR@ + "/"@ + script_basename(script) + ".log"@
}

/// The command that runs a script and logs its output.
pub open spec fn script_command(script: Seq<char>) -> Seq<char> {
    "cd "@ + shell::quoted(VM_WORK_DIR@) + " && /bin/bash "@ + shell::quoted(script)
        + " 2>&1 | tee "@ + shell::quoted(script_log(script))
}

/// What the kernel probe prints where a machine does not tell its configuration.
pub open spec fn missing_sentinel() -> Seq<char> {
    "__VMIZE_KERNEL_CONFIG_UNAVAILABLE__"@
}

/// The command that prints the configuration of a machine's kernel.
pub open spec fn kernel_probe_command() -> Seq<char> {
    "if [ -r /proc/config.gz ]; then zcat /proc/config.gz; elif [ -r /boot/config-$(uname -r) ]; then cat /boot/config-$(uname -r); else echo __VMIZE_KERNEL_CONFIG_UNAVAILABLE__; fi"@
}

fn mkdir_text() -> (r: String)
    ensures
        r@ == mkdir_command(),
{
    let out = shell::shell_quote(VM_OUTPUT_DIR);
    let logs = shell::shell_quote(VM_LOGS_DIR);
    text::cat4("mkdir -p ", out.as_str(), " ", logs.as_str())
}

fn script_text(script: &str) -> (r: String)
    ensures
        r@ == script_command(script@),
{
    let basename = match path::file_name(script) {
        Some(name) => name,
        None => script.to_owned(),
    };
    let log = text::cat4(VM_LOGS_DIR, "/", basename.as_str(), ".log");
    let work = shell::shell_quote(VM_WORK_DIR);
    let quoted = shell::shell_quote(script);
    let quoted_log = shell::shell_quote(log.as_str());
    text::cat6(
        "cd ",
        work.as_str(),
        " && /bin/bash ",
        quoted.as_str(),
        " 2>&1 | tee ",
        quoted_log.as_str(),
    )
}

/// Why a machine's kernel fails a task's requirements, or cannot be checked.
pub open spec fn runtime_fault(
    vm_id: Seq<char>,
    requirements: Seq<KernelConfigRequirement>,
    probe: Result<String, String>,
) -> Option<Seq<char>> {
    match probe {
        Err(reason) => Some(
            "Failed runtime kernel-config probe in VM "@ + vm_id + ": "@ + reason@,
        ),
        Ok(output) => if text::occurs_in(missing_sentinel(), output@) {
            Some(
                "Runtime kernel config probe failed in VM "@ + vm_id
                    + ": /proc/config.gz and /boot/config-$(uname -r) are unavailable (enable CONFIG_IKCONFIG_PROC=y or provide runtime config file)"@,
            )
        } else {
            let found = kernel_config::mismatches(
                kernel_config::lines_say(text::lines_of(output@)),
                requirements,
            );
            if found.len() == 0 {
                None
            } else {
                Some(
                    "Runtime kernel config check failed in VM "@ + vm_id + ": "@ + text::joined(
                        found,
                        ", "@,
                    ),
                )
            }
        },
    }
}

/// Judges what the kernel probe of a machine gave.
pub fn verify_kernel_config_runtime_with_ops(
    vm_id: &str,
    requirements: &Vec<KernelConfigRequirement>,
    probe: &Result<String, String>,
) -> (r: Result<(), Error>)
    ensures
        match r {
            Ok(_) => runtime_fault(vm_id@, requirements@, *probe) is None,
            Err(err) => runtime_fault(vm_id@, requirements@, *probe) matches Some(message)
                && err.is_runtime(message),
        },
{
    match probe {
        Err(reason) => Err(
            runtime(
                text::cat4(
                    "Failed runtime kernel-config probe in VM ",
                    vm_id,
                    ": ",
                    reason.as_str(),
                ),
            ),
        ),
        Ok(output) => {
            if text::contains(output.as_str(), "__VMIZE_KERNEL_CONFIG_UNAVAILABLE__") {
                return Err(
                    runtime(
                        text::cat3(
                            "Runtime kernel config probe failed in VM ",
                            vm_id,
                            ": /proc/config.gz and /boot/config-$(uname -r) are unavailable (enable CONFIG_IKCONFIG_PROC=y or provide runtime config file)",
                        ),
                    ),
                );
            }
            let parsed = kernel_config::parse_kernel_config_text(output.as_str());
            let found = kernel_config::collect_kernel_config_mismatches(&parsed, requirements);
            assert(text::views(found@).len() == found@.len());
            if found.len() == 0 {
                return Ok(());
            }
            let list = text::join(&found, ", ");
            Err(
                runtime(
                    text::cat4(
                        "Runtime kernel config check failed in VM ",
                        vm_id,
                        ": ",
                        list.as_str(),
                    ),
                ),
            )
        },
    }
}

/// What a run waits for.
#[derive(Debug, Clone, Copy, PartialEq, Eq, Structural)]
pub enum RunStage {
    Starting,
    MakingDirs,
    CopyingInput,
    ProbingKernel,
    RunningScript,
    CollectingLogs,
    ClearingArtifact,
    CopyingArtifact,
    CheckingArtifact,
    CopyingOutput,
    Removing,
    Finished,
}

/// What a run asks for next. It is asked of the run's machine, or of the host's files.
#[derive(Debug)]
pub enum RunAction {
    /// Start the machine.
    Run { options: VmOptions },
    /// Run a command in the machine and give its output.
    Ssh { command: String },
    CpTo { local: String, remote: String, recursive: bool },
    CpFrom { remote: String, local: String, recursive: bool },
    /// Run a command in the machine and pass its output on line by line.
    SshStream { command: String },
    /// Delete what the path of the host leads to, if it leads to anything.
    ClearPath { path: String },
    /// Tell whether the path of the host leads to anything.
    CheckPath { path: String },
    /// Remove the machine.
    Rm { vm_id: String },
    /// Nothing: the run is over.
    Finish,
}

pub open spec fn asks_ssh(action: RunAction, command: Seq<char>) -> bool {
    action matches RunAction::Ssh { command: c } && c@ == command
}

pub open spec fn asks_cp_to(action: RunAction, local: Seq<char>, remote: Seq<char>) -> bool {
    action matches RunAction::CpTo { local: l, remote: r, recursive } && l@ == local && r@ == remote
        && recursive
}

pub open spec fn asks_cp_from(
    action: RunAction,
    remote: Seq<char>,
    local: Seq<char>,
    recursive: bool,
) -> bool {
    action matches RunAction::CpFrom { remote: r, local: l, recursive: rec } && r@ == remote && l@
        == local && rec == recursive
}

pub open spec fn asks_stream(action: RunAction, command: Seq<char>) -> bool {
    action matches RunAction::SshStream { command: c } && c@ == command
}

pub open spec fn asks_clear(action: RunAction, path: Seq<char>) -> bool {
    action matches RunAction::ClearPath { path: p } && p@ == path
}

pub open spec fn asks_check(action: RunAction, path: Seq<char>) -> bool {
    action matches RunAction::CheckPath { path: p } && p@ == path
}

pub open spec fn asks_rm(action: RunAction, vm_id: Seq<char>) -> bool {
    action matches RunAction::Rm { vm_id: id } && id@ == vm_id
}

/// A task that runs.
pub struct TaskRun {
    pub task: LoadedTask,
    pub requirements: Vec<KernelConfigRequirement>,
    pub stage: RunStage,
    /// The machine, once it has started.
    pub record: Option<VmRecord>,
    pub result: RunResult,
    /// What went wrong first.
    pub error: Option<Error>,
    /// What went wrong when the machine was removed.
    pub cleanup_error: Option<Error>,
    /// What was said since the listener last took it. `None` where nobody listens.
    pub progress: Option<Vec<RunProgress>>,
    /// How many times the run has asked for the machine's removal.
    pub removals: Ghost<nat>,
}

/// The scripts of a task.
pub open spec fn scripts_of(task: LoadedTask) -> Seq<Seq<char>> {
    text::views(task.definition.commands@)
}

/// The artifacts that a task names. Without any, its whole output is collected.
pub open spec fn artifacts_of(task: LoadedTask) -> Seq<Seq<char>> {
    match task.definition.artifacts {
        Some(list) => text::views(list@),
        None => seq![],
    }
}

/// Whether a list of names is a first part of another.
pub open spec fn prefix_of(part: Seq<String>, whole: Seq<Seq<char>>) -> bool {
    part.len() <= whole.len() && text::views(part) == whole.take(part.len() as int)
}

impl TaskRun {
    /// Whether every script was run.
    pub open spec fn all_run(self) -> bool {
        self.result.executed_commands@.len() == scripts_of(self.task).len()
    }

    /// Whether every artifact was collected.
    pub open spec fn all_collected(self) -> bool {
        self.result.collected_artifacts@.len() == artifacts_of(self.task).len()
    }

    /// The script that runs, or would run next.
    pub open spec fn script(self) -> Seq<char> {
        scripts_of(self.task)[self.result.executed_commands@.len() as int]
    }

    /// The artifact that is collected, or would be next.
    pub open spec fn artifact(self) -> Seq<char> {
        artifacts_of(self.task)[self.result.collected_artifacts@.len() as int]
    }

    /// Where that artifact goes on the host.
    pub open spec fn artifact_path(self) -> Seq<char> {
        path::joined(self.task.output_dir@, self.artifact())
    }

    /// Whether the scripts and artifacts done so far are the first of the task's, in order.
    pub open spec fn in_order(self) -> bool {
        &&& prefix_of(self.result.executed_commands@, scripts_of(self.task))
        &&& prefix_of(self.result.collected_artifacts@, artifacts_of(self.task))
    }

    /// What holds at each stage.
    pub open spec fn stage_ok(self) -> bool {
        let done = self.result.executed_commands@.len();
        let kept = self.result.collected_artifacts@.len();
        match self.stage {
            RunStage::Starting => self.record is None && self.error is None && done == 0 && kept
                == 0,
            RunStage::MakingDirs | RunStage::CopyingInput | RunStage::ProbingKernel =>
                self.error is None && done == 0 && kept == 0,
            RunStage::RunningScript => self.error is None && !self.all_run() && kept == 0,
            RunStage::CollectingLogs => (self.error is None ==> self.all_run()) && kept == 0,
            RunStage::ClearingArtifact | RunStage::CopyingArtifact | RunStage::CheckingArtifact =>
                self.error is None && self.all_run() && !self.all_collected()
                && paths::relative_path_fault(self.artifact(), "artifact"@, false) is None,
            RunStage::CopyingOutput => self.error is None && self.all_run() && artifacts_of(
                self.task,
            ).len() == 0,
            RunStage::Removing => self.error is None ==> self.all_run() && self.all_collected(),
            RunStage::Finished => self.error is None ==> self.record is Some && self.all_run()
                && self.all_collected(),
        }
    }

    /// What holds at all times.
    pub open spec fn wf(self) -> bool {
        &&& self.in_order()
        &&& self.stage_ok()
        &&& self.record is None ==> (self.stage is Starting || self.stage is Finished)
        &&& self.record matches Some(record) ==> self.result.vm_id@ == record.id@
        &&& self.result.output_dir@ == self.task.output_dir@
        &&& self.result.logs_dir@ == self.task.logs_dir@
        &&& self.cleanup_error is Some ==> self.stage is Finished && self.record is Some
        &&& self.removals@ == (if self.stage is Removing || (self.stage is Finished
            && self.record is Some) {
            1nat
        } else {
            0nat
        })
    }

    /// Whether two states are of the same run, on the same machine.
    pub open spec fn same_run(self, other: TaskRun) -> bool {
        &&& self.task == other.task
        &&& self.requirements == other.requirements
        &&& self.record == other.record
        &&& self.result.vm_id == other.result.vm_id
        &&& self.result.output_dir == other.result.output_dir
        &&& self.result.logs_dir == other.result.logs_dir
    }

    /// Whether these events were said since `before`, if anybody listens, and no others.
    pub open spec fn said_since(self, before: TaskRun, events: Seq<progress::Said>) -> bool {
        progress::heard(self.progress) == progress::and_then_said(
            progress::heard(before.progress),
            events,
        )
    }

    /// Whether a run asks for its logs, with nothing more done than at `before`.
    pub open spec fn asks_for_logs(self, before: TaskRun, action: RunAction) -> bool {
        &&& self.stage is CollectingLogs
        &&& self.result == before.result
        &&& asks_cp_from(action, VM_LOGS_DIR@ + "/*"@, self.task.logs_dir@, false)
    }

    /// Whether a run has gone on from `before` to collecting its logs, and has said so.
    pub open spec fn collects(self, before: TaskRun, action: RunAction) -> bool {
        &&& self.asks_for_logs(before, action)
        &&& self.said_since(
            before,
            seq![progress::Said::Phase { phase: RunPhase::CollectingOutput }],
        )
    }

    /// Whether a run has gone on from `before` to removing its machine, and has said so.
    pub open spec fn cleans_up(self, before: TaskRun, action: RunAction) -> bool {
        &&& self.stage is Removing
        &&& asks_rm(action, before.result.vm_id@)
        &&& self.said_since(before, seq![progress::Said::Phase { phase: RunPhase::CleaningUp }])
    }

    /// Whether a run has gone on from `before` to its next script, or past the last.
    pub open spec fn goes_to_script(self, before: TaskRun, action: RunAction) -> bool {
        if before.all_run() {
            self.collects(before, action)
        } else {
            &&& self.stage is RunningScript
            &&& self.result == before.result
            &&& asks_stream(action, script_command(before.script()))
            &&& self.said_since(
                before,
                seq![
                    progress::Said::Started {
                        script: before.script(),
                        index: before.result.executed_commands@.len() + 1,
                        total: scripts_of(before.task).len(),
                    },
                ],
            )
        }
    }

    /// Whether a run has gone on from `before` to its scripts.
    pub open spec fn starts_scripts(self, before: TaskRun, action: RunAction) -> bool {
        let first = seq![progress::Said::Phase { phase: RunPhase::RunningScripts }];
        if before.all_run() {
            &&& self.asks_for_logs(before, action)
            &&& self.said_since(
                before,
                first.push(progress::Said::Phase { phase: RunPhase::CollectingOutput }),
            )
        } else {
            &&& self.stage is RunningScript
            &&& self.result == before.result
            &&& asks_stream(action, script_command(before.script()))
            &&& self.said_since(
                before,
                first.push(
                    progress::Said::Started {
                        script: before.script(),
                        index: before.result.executed_commands@.len() + 1,
                        total: scripts_of(before.task).len(),
                    },
                ),
            )
        }
    }

    /// Whether a run has gone on from `before` to its next artifact, or past the last. An artifact
    /// whose path is refused ends the collection.
    pub open spec fn goes_to_artifact(self, before: TaskRun, action: RunAction) -> bool {
        if before.all_collected() {
            self.error is None && self.cleans_up(before, action) && self.result == before.result
        } else {
            match paths::relative_path_fault(before.artifact(), "artifact"@, false) {
                Some(message) => self.cleans_up(before, action) && self.result == before.result && (
                self.error matches Some(err) && err.is_runtime(message)),
                None => self.error is None && self.stage is ClearingArtifact && self.result
                    == before.result && self.progress == before.progress && asks_clear(
                    action,
                    before.artifact_path(),
                ),
            }
        }
    }

    /// Whether `action` is what the run waits for.
    pub open spec fn awaits(self, action: RunAction) -> bool {
        match self.stage {
            RunStage::Starting => action is Run,
            RunStage::MakingDirs | RunStage::ProbingKernel => action is Ssh,
            RunStage::CopyingInput => action is CpTo,
            RunStage::RunningScript => action is SshStream,
            RunStage::CollectingLogs | RunStage::CopyingArtifact | RunStage::CopyingOutput =>
                action is CpFrom,
            RunStage::ClearingArtifact => action is ClearPath,
            RunStage::CheckingArtifact => action is CheckPath,
            RunStage::Removing => asks_rm(action, self.result.vm_id@),
            RunStage::Finished => action is Finish,
        }
    }

    /// Whether `action` is what the run asks for at its stage, to the letter.
    pub open spec fn wants(self, action: RunAction) -> bool {
        match self.stage {
            RunStage::Starting => action is Run,
            RunStage::MakingDirs => asks_ssh(action, mkdir_command()),
            RunStage::CopyingInput => asks_cp_to(action, self.task.input_dir@, VM_WORK_DIR@),
            RunStage::ProbingKernel => asks_ssh(action, kernel_probe_command()),
            RunStage::RunningScript => asks_stream(action, script_command(self.script())),
            RunStage::CollectingLogs => asks_cp_from(
                action,
                VM_LOGS_DIR@ + "/*"@,
                self.task.logs_dir@,
                false,
            ),
            RunStage::ClearingArtifact => asks_clear(action, self.artifact_path()),
            RunStage::CopyingArtifact => asks_cp_from(
                action,
                VM_OUTPUT_DIR@ + "/"@ + self.artifact(),
                self.task.output_dir@,
                true,
            ),
            RunStage::CheckingArtifact => asks_check(action, self.artifact_path()),
            RunStage::CopyingOutput => asks_cp_from(
                action,
                VM_OUTPUT_DIR@ + "/*"@,
                self.task.output_dir@,
                true,
            ),
            RunStage::Removing => asks_rm(action, self.result.vm_id@),
            RunStage::Finished => action is Finish,
        }
    }

    /// Whether the run has counted what it asks for: each removal of the machine, and nothing else.
    pub open spec fn counts(self, before: TaskRun, action: RunAction) -> bool {
        self.removals@ == before.removals@ + (if action is Rm {
            1nat
        } else {
            0nat
        })
    }

    /// How a run goes on from `before` once the machine has started, or has failed to.
    pub open spec fn after_start(
        self,
        before: TaskRun,
        reply: Result<VmRecord, String>,
        action: RunAction,
    ) -> bool {
        &&& self.task == before.task
        &&& self.requirements == before.requirements
        &&& match reply {
            Err(reason) => {
                &&& action is Finish
                &&& self.stage is Finished
                &&& self.record is None
                &&& self.error == Some(Error::VmStart { message: reason })
                &&& self.progress == before.progress
            },
            Ok(found) => {
                &&& self.record == Some(found)
                &&& self.stage is MakingDirs
                &&& asks_ssh(action, mkdir_command())
                &&& self.said_since(
                    before,
                    seq![progress::Said::Phase { phase: RunPhase::PreparingVm }],
                )
            },
        }
    }

    /// How a run goes on from `before` once the machine's directories were to be made.
    pub open spec fn after_dirs(
        self,
        before: TaskRun,
        reply: Result<String, String>,
        action: RunAction,
    ) -> bool {
        &&& self.same_run(before)
        &&& match reply {
            Err(reason) => {
                &&& self.error == Some(Error::VmCommand { message: reason })
                &&& self.collects(before, action)
            },
            Ok(_) => {
                &&& self.error is None
                &&& self.stage is CopyingInput
                &&& self.result == before.result
                &&& self.progress == before.progress
                &&& asks_cp_to(action, before.task.input_dir@, VM_WORK_DIR@)
            },
        }
    }

    /// How a run goes on from `before` once the task's input was to be copied.
    pub open spec fn after_input(
        self,
        before: TaskRun,
        reply: Result<(), String>,
        action: RunAction,
    ) -> bool {
        &&& self.same_run(before)
        &&& match reply {
            Err(reason) => {
                &&& self.error == Some(Error::CopyToVm { message: reason })
                &&& self.collects(before, action)
            },
            Ok(_) => {
                &&& self.error is None
                &&& if before.requirements@.len() > 0 {
                    &&& self.stage is ProbingKernel
                    &&& self.result == before.result
                    &&& self.progress == before.progress
                    &&& asks_ssh(action, kernel_probe_command())
                } else {
                    self.starts_scripts(before, action)
                }
            },
        }
    }

    /// How a run goes on from `before` once the machine's kernel was looked at.
    pub open spec fn after_probe(
        self,
        before: TaskRun,
        reply: Result<String, String>,
        action: RunAction,
    ) -> bool {
        &&& self.same_run(before)
        &&& match runtime_fault(before.result.vm_id@, before.requirements@, reply) {
            Some(message) => {
                &&& self.error matches Some(err) && err.is_runtime(message)
                &&& self.collects(before, action)
            },
            None => self.error is None && self.starts_scripts(before, action),
        }
    }

    /// Whether a run has only passed on these lines since `before`.
    pub open spec fn printed(self, before: TaskRun, lines: Seq<Seq<char>>) -> bool {
        &&& self == (TaskRun { progress: self.progress, ..before })
        &&& self.said_since(before, output_lines(lines))
    }

    /// How a run goes on from `before` once a script has ended.
    pub open spec fn after_script(
        self,
        before: TaskRun,
        reply: Result<(), String>,
        action: RunAction,
    ) -> bool {
        &&& self.same_run(before)
        &&& match reply {
            Err(reason) => {
                &&& self.error matches Some(Error::ScriptFailed { script, message }) && script@
                    == before.script() && message == reason
                &&& self.collects(before, action)
            },
            Ok(_) => {
                let total = scripts_of(before.task).len();
                let now = before.result.executed_commands@.len() + 1;
                let finished = progress::Said::Finished {
                    script: before.script(),
                    index: now,
                    total,
                };
                &&& self.error is None
                &&& text::views(self.result.executed_commands@) == scripts_of(before.task).take(
                    now as int,
                )
                &&& self.result.collected_artifacts@.len() == 0
                &&& if now == total {
                    &&& self.stage is CollectingLogs
                    &&& asks_cp_from(action, VM_LOGS_DIR@ + "/*"@, before.task.logs_dir@, false)
                    &&& self.said_since(
                        before,
                        seq![
                            finished,
                            progress::Said::Phase { phase: RunPhase::CollectingOutput },
                        ],
                    )
                } else {
                    let next = scripts_of(before.task)[now as int];
                    &&& self.stage is RunningScript
                    &&& asks_stream(action, script_command(next))
                    &&& self.said_since(
                        before,
                        seq![
                            finished,
                            progress::Said::Started { script: next, index: now + 1, total },
                        ],
                    )
                }
            },
        }
    }

    /// How a run goes on from `before` once a script has printed these lines and has ended.
    pub open spec fn after_stream(
        self,
        before: TaskRun,
        lines: Seq<Seq<char>>,
        reply: Result<(), String>,
        action: RunAction,
    ) -> bool {
        exists|told: TaskRun| #[trigger]
            told.printed(before, lines) && self.after_script(told, reply, action)
    }

    /// How a run goes on from `before` once the logs were to be collected.
    pub open spec fn after_logs(self, before: TaskRun, action: RunAction) -> bool {
        &&& self.same_run(before)
        &&& if before.error is Some {
            &&& self.error == before.error
            &&& self.result == before.result
            &&& self.cleans_up(before, action)
        } else if artifacts_of(before.task).len() == 0 {
            &&& self.error is None
            &&& self.stage is CopyingOutput
            &&& self.result == before.result
            &&& self.progress == before.progress
            &&& asks_cp_from(action, VM_OUTPUT_DIR@ + "/*"@, before.task.output_dir@, true)
        } else {
            self.goes_to_artifact(before, action)
        }
    }

    /// How a run goes on from `before` once the whole output was to be collected.
    pub open spec fn after_output(
        self,
        before: TaskRun,
        reply: Result<(), String>,
        action: RunAction,
    ) -> bool {
        &&& self.same_run(before)
        &&& self.result == before.result
        &&& self.cleans_up(before, action)
        &&& match reply {
            Err(reason) => self.error == Some(Error::CopyFromVm { message: reason }),
            Ok(_) => self.error is None,
        }
    }

    /// How a run goes on from `before` once an artifact was to be copied.
    pub open spec fn after_copy(
        self,
        before: TaskRun,
        reply: Result<(), String>,
        action: RunAction,
    ) -> bool {
        &&& self.same_run(before)
        &&& self.result == before.result
        &&& match reply {
            Err(reason) => {
                &&& self.error == Some(Error::CopyFromVm { message: reason })
                &&& self.cleans_up(before, action)
            },
            Ok(_) => {
                &&& self.error is None
                &&& self.stage is CheckingArtifact
                &&& self.progress == before.progress
                &&& asks_check(action, before.artifact_path())
            },
        }
    }

    /// How a run goes on from `before` once the machine was to be removed.
    pub open spec fn after_removal(
        self,
        before: TaskRun,
        reply: Result<(), String>,
        action: RunAction,
    ) -> bool {
        &&& self.same_run(before)
        &&& self.result == before.result
        &&& self.error == before.error
        &&& self.progress == before.progress
        &&& self.stage is Finished
        &&& action is Finish
        &&& match reply {
            Err(reason) => self.cleanup_error matches Some(
                Error::CleanupFailed { vm_id, message },
            ) && vm_id@ == before.result.vm_id@ && message == reason,
            Ok(_) => self.cleanup_error is None,
        }
    }

    /// How a run goes on from `before` once a machine has answered what the run waited for.
    pub open spec fn after_reply(self, before: TaskRun, reply: VmReply, action: RunAction) -> bool {
        match (before.stage, reply) {
            (RunStage::Starting, VmReply::Started { record: reply }) => self.after_start(
                before,
                reply,
                action,
            ),
            (RunStage::MakingDirs, VmReply::Output { text: reply }) => self.after_dirs(
                before,
                reply,
                action,
            ),
            (RunStage::ProbingKernel, VmReply::Output { text: reply }) => self.after_probe(
                before,
                reply,
                action,
            ),
            (RunStage::CopyingInput, VmReply::Done { outcome: reply }) => self.after_input(
                before,
                reply,
                action,
            ),
            (RunStage::RunningScript, VmReply::Lines { lines, outcome }) => self.after_stream(
                before,
                text::views(lines@),
                outcome,
                action,
            ),
            (RunStage::CollectingLogs, VmReply::Done { .. }) => self.after_logs(before, action),
            (RunStage::CopyingArtifact, VmReply::Done { outcome: reply }) => self.after_copy(
                before,
                reply,
                action,
            ),
            (RunStage::CopyingOutput, VmReply::Done { outcome: reply }) => self.after_output(
                before,
                reply,
                action,
            ),
            (RunStage::Removing, VmReply::Done { outcome: reply }) => self.after_removal(
                before,
                reply,
                action,
            ),
            _ => false,
        }
    }
}

/// Starts the run of a task on a machine with the given options. With `listening`, the run says
/// how far it has come.
pub fn run_loaded_task_with_ops(
    task: LoadedTask,
    requirements: Vec<KernelConfigRequirement>,
    options: VmOptions,
    listening: bool,
) -> (r: (TaskRun, RunAction))
    ensures
        r.0.wf(),
        r.0.task == task,
        r.0.requirements == requirements,
        r.0.stage is Starting,
        r.1 == (RunAction::Run { options }),
        r.0.result.exit_code == 0,
        progress::heard(r.0.progress) == (if listening {
            Some(seq![progress::Said::Phase { phase: RunPhase::StartingVm }])
        } else {
            None
        }),
{
    let result = RunResult::new("", task.output_dir.as_str(), task.logs_dir.as_str());
    let mut listener: Option<Vec<RunProgress>> = if listening {
        Some(Vec::new())
    } else {
        None
    };
    let ghost before = progress::heard(listener);
    send_progress(&mut listener, RunProgress::Phase(RunPhase::StartingVm));
    proof {
        let first = seq![progress::Said::Phase { phase: RunPhase::StartingVm }];
        if listening {
            assert(before->0 =~= seq![]);
            assert(before->0 + first =~= first);
        }
        assert(text::views(result.executed_commands@) =~= scripts_of(task).take(0));
        assert(text::views(result.collected_artifacts@) =~= artifacts_of(task).take(0));
    }
    (
        TaskRun {
            task,
            requirements,
            stage: RunStage::Starting,
            record: None,
            result,
            error: None,
            cleanup_error: None,
            progress: listener,
            removals: Ghost(0),
        },
        RunAction::Run { options },
    )
}

impl TaskRun {
    /// Takes what was said since the last time.
    pub fn take_progress(&mut self) -> (r: Vec<RunProgress>)
        requires
            old(self).wf(),
        ensures
            final(self).wf(),
            *final(self) == (TaskRun { progress: final(self).progress, ..*old(self) }),
            match old(self).progress {
                Some(events) => r@ == events@ && (final(self).progress matches Some(now) && now@.len()
                    == 0),
                None => r@.len() == 0 && final(self).progress is None,
            },
    {
        match &mut self.progress {
            Some(events) => {
                let mut taken: Vec<RunProgress> = Vec::new();
                taken.append(events);
                taken
            },
            None => Vec::new(),
        }
    }

    fn start_collecting(&mut self) -> (r: RunAction)
        requires
            old(self).record is Some,
            old(self).in_order(),
            old(self).result.collected_artifacts@.len() == 0,
            old(self).error is None ==> old(self).all_run(),
            old(self).record matches Some(record) ==> old(self).result.vm_id@ == record.id@,
            old(self).result.output_dir@ == old(self).task.output_dir@,
            old(self).result.logs_dir@ == old(self).task.logs_dir@,
            old(self).cleanup_error is None,
            old(self).removals@ == 0,
        ensures
            final(self).wf(),
            final(self).same_run(*old(self)),
            final(self).error == old(self).error,
            final(self).collects(*old(self), r),
    {
        send_progress(&mut self.progress, RunProgress::Phase(RunPhase::CollectingOutput));
        self.stage = RunStage::CollectingLogs;
        let remote = text::cat2(VM_LOGS_DIR, "/*");
        RunAction::CpFrom { remote, local: self.task.logs_dir.clone(), recursive: false }
    }

    fn start_cleanup(&mut self) -> (r: RunAction)
        requires
            old(self).record is Some,
            old(self).in_order(),
            old(self).error is None ==> old(self).all_run() && old(self).all_collected(),
            old(self).record matches Some(record) ==> old(self).result.vm_id@ == record.id@,
            old(self).result.output_dir@ == old(self).task.output_dir@,
            old(self).result.logs_dir@ == old(self).task.logs_dir@,
            old(self).cleanup_error is None,
            old(self).removals@ == 0,
        ensures
            final(self).wf(),
            final(self).same_run(*old(self)),
            final(self).error == old(self).error,
            final(self).result == old(self).result,
            final(self).cleans_up(*old(self), r),
    {
        send_progress(&mut self.progress, RunProgress::Phase(RunPhase::CleaningUp));
        self.stage = RunStage::Removing;
        proof {
            self.removals@ = self.removals@ + 1;
        }
        RunAction::Rm { vm_id: self.result.vm_id.clone() }
    }

    fn next_script(&mut self) -> (r: RunAction)
        requires
            old(self).record is Some,
            old(self).in_order(),
            old(self).result.collected_artifacts@.len() == 0,
            old(self).error is None,
            old(self).record matches Some(record) ==> old(self).result.vm_id@ == record.id@,
            old(self).result.output_dir@ == old(self).task.output_dir@,
            old(self).result.logs_dir@ == old(self).task.logs_dir@,
            old(self).cleanup_error is None,
            old(self).removals@ == 0,
        ensures
            final(self).wf(),
            final(self).same_run(*old(self)),
            final(self).error is None,
            final(self).goes_to_script(*old(self), r),
    {
        let done: usize = self.result.executed_commands.len();
        let total: usize = self.task.definition.commands.len();
        assert(scripts_of(self.task).len() == total);
        if done == total {
            return self.start_collecting();
        }
        let script = self.task.definition.commands[done].clone();
        assert(self.script() == script@);
        let command = script_text(script.as_str());
        send_progress(
            &mut self.progress,
            RunProgress::ScriptStarted { script, index: done + 1, total },
        );
        self.stage = RunStage::RunningScript;
        RunAction::SshStream { command }
    }

    fn next_artifact(&mut self) -> (r: RunAction)
        requires
            old(self).record is Some,
            old(self).in_order(),
            old(self).error is None,
            old(self).all_run(),
            old(self).record matches Some(record) ==> old(self).result.vm_id@ == record.id@,
            old(self).result.output_dir@ == old(self).task.output_dir@,
            old(self).result.logs_dir@ == old(self).task.logs_dir@,
            old(self).cleanup_error is None,
            old(self).removals@ == 0,
        ensures
            final(self).wf(),
            final(self).same_run(*old(self)),
            final(self).goes_to_artifact(*old(self), r),
    {
        let kept: usize = self.result.collected_artifacts.len();
        let artifact = match &self.task.definition.artifacts {
            Some(list) => if kept < list.len() {
                Some(list[kept].clone())
            } else {
                None
            },
            None => None,
        };
        match artifact {
            None => self.start_cleanup(),
            Some(artifact) => {
                assert(self.artifact() == artifact@);
                match paths::parse_artifact_relative_path(artifact.as_str()) {
                    Err(err) => {
                        self.error = Some(err);
                        self.start_cleanup()
                    },
                    Ok(relative) => {
                        self.stage = RunStage::ClearingArtifact;
                        let local = path::join(self.task.output_dir.as_str(), relative.as_str());
                        RunAction::ClearPath { path: local }
                    },
                }
            },
        }
    }

    fn fail(&mut self, err: Error) -> (r: RunAction)
        requires
            old(self).record is Some,
            old(self).in_order(),
            old(self).result.collected_artifacts@.len() == 0,
            old(self).record matches Some(record) ==> old(self).result.vm_id@ == record.id@,
            old(self).result.output_dir@ == old(self).task.output_dir@,
            old(self).result.logs_dir@ == old(self).task.logs_dir@,
            old(self).cleanup_error is None,
            old(self).removals@ == 0,
        ensures
            final(self).wf(),
            final(self).same_run(*old(self)),
            final(self).error == Some(err),
            final(self).collects(*old(self), r),
    {
        self.error = Some(err);
        self.start_collecting()
    }

    /// Goes on once the machine has started, or has failed to. A machine that did not start is not
    /// removed.
    pub fn vm_started(&mut self, reply: Result<VmRecord, String>) -> (r: RunAction)
        requires
            old(self).wf(),
            old(self).stage is Starting,
        ensures
            final(self).wf(),
            final(self).wants(r),
            final(self).awaits(r),
            final(self).counts(*old(self), r),
            final(self).after_start(*old(self), reply, r),
    {
        match reply {
            Err(message) => {
                self.error = Some(Error::VmStart { message });
                self.stage = RunStage::Finished;
                RunAction::Finish
            },
            Ok(found) => {
                self.result.vm_id = found.id.clone();
                self.record = Some(found);
                send_progress(&mut self.progress, RunProgress::Phase(RunPhase::PreparingVm));
                self.stage = RunStage::MakingDirs;
                RunAction::Ssh { command: mkdir_text() }
            },
        }
    }

    /// Goes on once the machine's directories are made.
    pub fn dirs_made(&mut self, reply: Result<String, String>) -> (r: RunAction)
        requires
            old(self).wf(),
            old(self).stage is MakingDirs,
        ensures
            final(self).wf(),
            final(self).wants(r),
            final(self).awaits(r),
            final(self).counts(*old(self), r),
            final(self).after_dirs(*old(self), reply, r),
    {
        match reply {
            Err(message) => self.fail(Error::VmCommand { message }),
            Ok(_) => {
                self.stage = RunStage::CopyingInput;
                RunAction::CpTo {
                    local: self.task.input_dir.clone(),
                    remote: VM_WORK_DIR.to_owned(),
                    recursive: true,
                }
            },
        }
    }

    fn start_scripts(&mut self) -> (r: RunAction)
        requires
            old(self).wf(),
            old(self).stage is CopyingInput || old(self).stage is ProbingKernel,
        ensures
            final(self).wf(),
            final(self).same_run(*old(self)),
            final(self).error is None,
            final(self).starts_scripts(*old(self), r),
    {
        send_progress(&mut self.progress, RunProgress::Phase(RunPhase::RunningScripts));
        let ghost told = *self;
        let action = self.next_script();
        proof {
            let first = seq![progress::Said::Phase { phase: RunPhase::RunningScripts }];
            if let Some(events) = progress::heard(old(self).progress) {
                let second = if old(self).all_run() {
                    progress::Said::Phase { phase: RunPhase::CollectingOutput }
                } else {
                    progress::Said::Started {
                        script: old(self).script(),
                        index: old(self).result.executed_commands@.len() + 1,
                        total: scripts_of(old(self).task).len(),
                    }
                };
                assert(events + first + seq![second] =~= events + first.push(second));
            }
        }
        action
    }

    /// Goes on once the task's input is copied. The kernel is looked at only where the task
    /// requires something of it.
    pub fn input_copied(&mut self, reply: Result<(), String>) -> (r: RunAction)
        requires
            old(self).wf(),
            old(self).stage is CopyingInput,
        ensures
            final(self).wf(),
            final(self).wants(r),
            final(self).awaits(r),
            final(self).counts(*old(self), r),
            final(self).after_input(*old(self), reply, r),
    {
        match reply {
            Err(message) => self.fail(Error::CopyToVm { message }),
            Ok(_) => {
                if self.requirements.len() > 0 {
                    self.stage = RunStage::ProbingKernel;
                    return RunAction::Ssh {
                        command: "if [ -r /proc/config.gz ]; then zcat /proc/config.gz; elif [ -r /boot/config-$(uname -r) ]; then cat /boot/config-$(uname -r); else echo __VMIZE_KERNEL_CONFIG_UNAVAILABLE__; fi".to_owned(),
                    };
                }
                self.start_scripts()
            },
        }
    }

    /// Goes on once the machine's kernel was looked at. A kernel that fails the task's requirements
    /// keeps every script from running.
    pub fn kernel_probed(&mut self, reply: Result<String, String>) -> (r: RunAction)
        requires
            old(self).wf(),
            old(self).stage is ProbingKernel,
        ensures
            final(self).wf(),
            final(self).wants(r),
            final(self).awaits(r),
            final(self).counts(*old(self), r),
            final(self).after_probe(*old(self), reply, r),
    {
        match verify_kernel_config_runtime_with_ops(
            self.result.vm_id.as_str(),
            &self.requirements,
            &reply,
        ) {
            Err(err) => self.fail(err),
            Ok(_) => self.start_scripts(),
        }
    }

    /// Goes on once a script has ended. The first script that fails is the last that runs.
    pub fn script_ended(&mut self, reply: Result<(), String>) -> (r: RunAction)
        requires
            old(self).wf(),
            old(self).stage is RunningScript,
        ensures
            final(self).wf(),
            final(self).wants(r),
            final(self).awaits(r),
            final(self).counts(*old(self), r),
            final(self).after_script(*old(self), reply, r),
    {
        let done: usize = self.result.executed_commands.len();
        let total: usize = self.task.definition.commands.len();
        assert(scripts_of(self.task).len() == total);
        let script = self.task.definition.commands[done].clone();
        assert(self.script() == script@);
        match reply {
            Err(message) => self.fail(Error::ScriptFailed { script, message }),
            Ok(_) => {
                let ghost before = self.result.executed_commands@;
                let name = script.clone();
                self.result.executed_commands.push(script);
                proof {
                    assert(text::views(self.result.executed_commands@) =~= text::views(before).push(
                        name@,
                    ));
                    assert(text::views(self.result.executed_commands@) =~= scripts_of(
                        self.task,
                    ).take(done + 1));
                }
                send_progress(
                    &mut self.progress,
                    RunProgress::ScriptFinished { script: name, index: done + 1, total },
                );
                let ghost first = seq![
                    progress::Said::Finished {
                        script: name@,
                        index: (done + 1) as nat,
                        total: total as nat,
                    },
                ];
                let action = self.next_script();
                proof {
                    if let Some(events) = progress::heard(old(self).progress) {
                        let second = if done + 1 == total {
                            progress::Said::Phase { phase: RunPhase::CollectingOutput }
                        } else {
                            progress::Said::Started {
                                script: scripts_of(old(self).task)[done + 1],
                                index: (done + 2) as nat,
                                total: total as nat,
                            }
                        };
                        assert(events + first + seq![second] =~= events + seq![first[0], second]);
                    }
                }
                action
            },
        }
    }

    /// Goes on once the logs are collected, or could not be: that counts for nothing. Output is
    /// collected only where nothing went wrong.
    pub fn logs_collected(&mut self) -> (r: RunAction)
        requires
            old(self).wf(),
            old(self).stage is CollectingLogs,
        ensures
            final(self).wf(),
            final(self).wants(r),
            final(self).awaits(r),
            final(self).counts(*old(self), r),
            final(self).after_logs(*old(self), r),
    {
        if self.error.is_some() {
            return self.start_cleanup();
        }
        let none = match &self.task.definition.artifacts {
            Some(list) => list.len() == 0,
            None => true,
        };
        assert(none == (artifacts_of(self.task).len() == 0));
        if none {
            self.stage = RunStage::CopyingOutput;
            let remote = text::cat2(VM_OUTPUT_DIR, "/*");
            return RunAction::CpFrom {
                remote,
                local: self.task.output_dir.clone(),
                recursive: true,
            };
        }
        self.next_artifact()
    }

    /// Goes on once the whole output is collected.
    pub fn output_copied(&mut self, reply: Result<(), String>) -> (r: RunAction)
        requires
            old(self).wf(),
            old(self).stage is CopyingOutput,
        ensures
            final(self).wf(),
            final(self).wants(r),
            final(self).awaits(r),
            final(self).counts(*old(self), r),
            final(self).after_output(*old(self), reply, r),
    {
        if let Err(message) = reply {
            self.error = Some(Error::CopyFromVm { message });
        }
        self.start_cleanup()
    }

    /// Goes on once an older file is out of an artifact's way.
    pub fn artifact_cleared(&mut self, reply: Result<(), String>) -> (r: RunAction)
        requires
            old(self).wf(),
            old(self).stage is ClearingArtifact,
        ensures
            final(self).wf(),
            final(self).wants(r),
            final(self).awaits(r),
            final(self).counts(*old(self), r),
            final(self).same_run(*old(self)),
            final(self).result == old(self).result,
            match reply {
                Err(reason) => {
                    &&& final(self).error matches Some(err) && err.is_runtime(
                        "Failed to clear existing artifact "@ + old(self).artifact_path() + ": "@
                            + reason@,
                    )
                    &&& final(self).cleans_up(*old(self), r)
                },
                Ok(_) => {
                    &&& final(self).error is None
                    &&& final(self).stage is CopyingArtifact
                    &&& final(self).progress == old(self).progress
                    &&& asks_cp_from(
                        r,
                        VM_OUTPUT_DIR@ + "/"@ + old(self).artifact(),
                        old(self).task.output_dir@,
                        true,
                    )
                },
            },
    {
        let artifact = self.current_artifact();
        match reply {
            Err(reason) => {
                let local = path::join(self.task.output_dir.as_str(), artifact.as_str());
                self.error = Some(
                    runtime(
                        text::cat4(
                            "Failed to clear existing artifact ",
                            local.as_str(),
                            ": ",
                            reason.as_str(),
                        ),
                    ),
                );
                self.start_cleanup()
            },
            Ok(_) => {
                self.stage = RunStage::CopyingArtifact;
                let remote = text::cat3(VM_OUTPUT_DIR, "/", artifact.as_str());
                RunAction::CpFrom { remote, local: self.task.output_dir.clone(), recursive: true }
            },
        }
    }

    fn current_artifact(&self) -> (r: String)
        requires
            !self.all_collected(),
            self.in_order(),
        ensures
            r@ == self.artifact(),
    {
        let kept: usize = self.result.collected_artifacts.len();
        match &self.task.definition.artifacts {
            Some(list) => list[kept].clone(),
            None => String::new(),
        }
    }

    /// Goes on once an artifact is copied.
    pub fn artifact_copied(&mut self, reply: Result<(), String>) -> (r: RunAction)
        requires
            old(self).wf(),
            old(self).stage is CopyingArtifact,
        ensures
            final(self).wf(),
            final(self).wants(r),
            final(self).awaits(r),
            final(self).counts(*old(self), r),
            final(self).after_copy(*old(self), reply, r),
    {
        match reply {
            Err(message) => {
                self.error = Some(Error::CopyFromVm { message });
                self.start_cleanup()
            },
            Ok(_) => {
                let artifact = self.current_artifact();
                self.stage = RunStage::CheckingArtifact;
                RunAction::CheckPath {
                    path: path::join(self.task.output_dir.as_str(), artifact.as_str()),
                }
            },
        }
    }

    /// Goes on once it is known whether a copied artifact is there.
    pub fn artifact_checked(&mut self, is_there: bool) -> (r: RunAction)
        requires
            old(self).wf(),
            old(self).stage is CheckingArtifact,
        ensures
            final(self).wf(),
            final(self).wants(r),
            final(self).awaits(r),
            final(self).counts(*old(self), r),
            final(self).same_run(*old(self)),
            final(self).after_check(*old(self), is_there),
            final(self).result.executed_commands == old(self).result.executed_commands,
            if !is_there {
                &&& final(self).error matches Some(Error::MissingArtifact { file }) && file@ == old(
                    self).artifact()
                &&& final(self).result == old(self).result
                &&& final(self).cleans_up(*old(self), r)
            } else {
                let kept = old(self).result.collected_artifacts@.len() + 1;
                let all = artifacts_of(old(self).task);
                &&& text::views(final(self).result.collected_artifacts@) == all.take(kept as int)
                &&& if kept == all.len() {
                    final(self).error is None && final(self).cleans_up(*old(self), r)
                } else {
                    match paths::relative_path_fault(all[kept as int], "artifact"@, false) {
                        Some(message) => final(self).cleans_up(*old(self), r) && (
                        final(self).error matches Some(err) && err.is_runtime(message)),
                        None => final(self).error is None && final(self).stage is ClearingArtifact
                            && final(self).progress == old(self).progress && asks_clear(
                            r,
                            path::joined(old(self).task.output_dir@, all[kept as int]),
                        ),
                    }
                }
            },
    {
        let artifact = self.current_artifact();
        if !is_there {
            self.error = Some(Error::MissingArtifact { file: artifact });
            return self.start_cleanup();
        }
        let ghost before = self.result.collected_artifacts@;
        self.result.collected_artifacts.push(artifact);
        proof {
            assert(text::views(self.result.collected_artifacts@) =~= text::views(before).push(
                artifact@,
            ));
            assert(text::views(self.result.collected_artifacts@) =~= artifacts_of(self.task).take(
                (before.len() + 1) as int,
            ));
        }
        self.next_artifact()
    }

    /// Goes on once the machine is removed, or could not be.
    pub fn removed(&mut self, reply: Result<(), String>) -> (r: RunAction)
        requires
            old(self).wf(),
            old(self).stage is Removing,
        ensures
            final(self).wf(),
            final(self).wants(r),
            final(self).awaits(r),
            final(self).counts(*old(self), r),
            final(self).after_removal(*old(self), reply, r),
    {
        if let Err(message) = reply {
            self.cleanup_error = Some(
                Error::CleanupFailed { vm_id: self.result.vm_id.clone(), message },
            );
        }
        self.stage = RunStage::Finished;
        RunAction::Finish
    }

    /// The outcome of a finished run. An error of the run comes before an error of the cleanup, and
    /// both are told where there are both.
    pub fn finish(self, elapsed_ms: u64) -> (r: Result<RunResult, Error>)
        requires
            self.wf(),
            self.stage is Finished,
        ensures
            self.ends_as(r, elapsed_ms),
            match (self.error, self.cleanup_error) {
                (Some(run), Some(cleanup)) => r matches Err(err) && err.is_runtime(
                    run.text() + "; additionally: "@ + cleanup.text(),
                ),
                (Some(run), None) => r == Err::<RunResult, Error>(run),
                (None, Some(cleanup)) => r == Err::<RunResult, Error>(cleanup),
                (None, None) => r == Ok::<RunResult, Error>(
                    RunResult { exit_code: 0, elapsed_ms, ..self.result },
                ),
            },
            r matches Ok(result) ==> {
                &&& text::views(result.executed_commands@) == scripts_of(self.task)
                &&& text::views(result.collected_artifacts@) == artifacts_of(self.task)
            },
    {
        match (self.error, self.cleanup_error) {
            (Some(run), Some(cleanup)) => Err(combine_errors(run, cleanup)),
            (Some(run), None) => Err(run),
            (None, Some(cleanup)) => Err(cleanup),
            (None, None) => {
                let mut result = self.result;
                result.elapsed_ms = elapsed_ms;
                result.exit_code = 0;
                proof {
                    assert(scripts_of(self.task).take(scripts_of(self.task).len() as int)
                        =~= scripts_of(self.task));
                    assert(artifacts_of(self.task).take(artifacts_of(self.task).len() as int)
                        =~= artifacts_of(self.task));
                }
                Ok(result)
            },
        }
    }
}

impl TaskRun {
    /// Passes on lines that the script that runs has printed.
    pub fn script_output(&mut self, lines: Vec<String>)
        requires
            old(self).wf(),
            old(self).stage is RunningScript,
        ensures
            final(self).wf(),
            final(self).printed(*old(self), text::views(lines@)),
    {
        let ghost all = text::views(lines@);
        let mut i: usize = 0;
        proof {
            if let Some(events) = progress::heard(self.progress) {
                assert(events + output_lines(all.take(0)) =~= events);
            }
        }
        while i < lines.len()
            invariant
                i <= lines.len(),
                all == text::views(lines@),
                self.wf(),
                *self == (TaskRun { progress: self.progress, ..*old(self) }),
                progress::heard(self.progress) == progress::and_then_said(
                    progress::heard(old(self).progress),
                    output_lines(all.take(i as int)),
                ),
            decreases lines.len() - i,
        {
            send_progress(
                &mut self.progress,
                RunProgress::ScriptOutputLine { line: lines[i].clone() },
            );
            proof {
                if let Some(events) = progress::heard(old(self).progress) {
                    assert(events + output_lines(all.take(i as int)) + seq![
                        progress::Said::OutputLine { line: lines@[i as int]@ },
                    ] =~= events + output_lines(all.take(i + 1)));
                }
            }
            i = i + 1;
        }
        assert(all.take(i as int) =~= all);
    }
}

/// What is said of the lines that a script prints.
pub open spec fn output_lines(lines: Seq<Seq<char>>) -> Seq<progress::Said> {
    lines.map_values(|line: Seq<char>| progress::Said::OutputLine { line })
}

/// Whether an action is asked of a machine.
pub open spec fn of_machine(action: RunAction) -> bool {
    !(action is ClearPath || action is CheckPath || action is Finish)
}

/// The call that an action amounts to, on the machine of a run.
pub open spec fn call_of(action: RunAction, vm_id: Seq<char>, machine: Option<VmRecord>) -> VmCall {
    match action {
        RunAction::Run { options } => VmCall::Run { options },
        RunAction::Ssh { command } => VmCall::Ssh { vm_id, command: command@ },
        RunAction::CpTo { local, remote, recursive } => VmCall::CpTo {
            vm_id,
            local: local@,
            remote: remote@,
            recursive,
        },
        RunAction::CpFrom { remote, local, recursive } => VmCall::CpFrom {
            vm_id,
            remote: remote@,
            local: local@,
            recursive,
        },
        RunAction::SshStream { command } => VmCall::SshStream {
            record: machine->0,
            command: command@,
        },
        _ => VmCall::Rm { vm_id },
    }
}

/// Does what a run asks of its machine, and goes on with the answer. Nothing else is asked of any
/// machine.
pub fn perform<V: VmOps>(run: &mut TaskRun, ops: &mut V, action: RunAction) -> (r: RunAction)
    requires
        old(run).wf(),
        old(run).awaits(action),
        of_machine(action),
    ensures
        final(run).wf(),
        final(run).wants(r),
        final(run).awaits(r),
        final(run).counts(*old(run), r),
        final(run).task == old(run).task,
        final(ops).calls() == old(ops).calls().push(
            call_of(action, old(run).result.vm_id@, old(run).record),
        ),
        final(ops).replies().len() == old(ops).replies().len() + 1,
        final(ops).replies().drop_last() == old(ops).replies(),
        final(run).after_reply(*old(run), final(ops).replies().last(), r),
{
    let vm_id = run.result.vm_id.clone();
    match action {
        RunAction::Run { options } => {
            let reply = ops.run(options);
            run.vm_started(reply)
        },
        RunAction::Ssh { command } => {
            let reply = ops.ssh(vm_id.as_str(), command.as_str());
            match run.stage {
                RunStage::MakingDirs => run.dirs_made(reply),
                _ => run.kernel_probed(reply),
            }
        },
        RunAction::CpTo { local, remote, recursive } => {
            let reply = ops.cp_to(vm_id.as_str(), local.as_str(), remote.as_str(), recursive);
            run.input_copied(reply)
        },
        RunAction::CpFrom { remote, local, recursive } => {
            let reply = ops.cp_from(vm_id.as_str(), remote.as_str(), local.as_str(), recursive);
            match run.stage {
                RunStage::CollectingLogs => run.logs_collected(),
                RunStage::CopyingArtifact => run.artifact_copied(reply),
                _ => run.output_copied(reply),
            }
        },
        RunAction::SshStream { command } => {
            let (lines, outcome) = match &run.record {
                Some(record) => ops.ssh_stream(record, command.as_str()),
                None => (Vec::new(), Err(String::new())),
            };
            run.script_output(lines);
            let ghost told = *run;
            let next = run.script_ended(outcome);
            proof {
                assert(told.printed(*old(run), text::views(lines@)));
                assert(run.after_stream(*old(run), text::views(lines@), outcome, next));
            }
            next
        },
        _ => {
            let reply = ops.rm(vm_id.as_str());
            run.removed(reply)
        },
    }
}

/// What a run was, and what it asked for, at its start and after each of its steps. Every step
/// ensures what is asked here of two that follow each other.
pub open spec fn history(runs: Seq<TaskRun>, actions: Seq<RunAction>) -> bool {
    &&& runs.len() == actions.len()
    &&& runs.len() > 0
    &&& runs[0].stage is Starting
    &&& forall|i: int|
        0 <= i < runs.len() ==> (#[trigger] runs[i]).wf() && runs[i].awaits(actions[i])
    &&& forall|i: int|
        0 < i < runs.len() ==> (#[trigger] runs[i]).counts(runs[i - 1], actions[i])
}

/// How many times a machine's removal was asked for.
pub open spec fn removals_in(actions: Seq<RunAction>) -> nat
    decreases actions.len(),
{
    if actions.len() == 0 {
        0
    } else {
        removals_in(actions.drop_last()) + (if actions.last() is Rm {
            1nat
        } else {
            0nat
        })
    }
}

proof fn lemma_removals_counted(runs: Seq<TaskRun>, actions: Seq<RunAction>)
    requires
        history(runs, actions),
    ensures
        removals_in(actions) == runs.last().removals@,
    decreases runs.len(),
{
    let n = runs.len() - 1;
    assert(actions.last() == actions[n]);
    if n == 0 {
        assert(runs[0].wf() && runs[0].awaits(actions[0]));
        assert(removals_in(actions.drop_last()) == 0);
    } else {
        let (r, a) = (runs.drop_last(), actions.drop_last());
        assert forall|i: int| 0 <= i < r.len() implies (#[trigger] r[i]).wf() && r[i].awaits(
            a[i],
        ) by {
            assert(runs[i].wf());
        }
        assert forall|i: int| 0 < i < r.len() implies (#[trigger] r[i]).counts(r[i - 1], a[i]) by {
            assert(runs[i].counts(runs[i - 1], actions[i]));
        }
        lemma_removals_counted(r, a);
        assert(runs[n].counts(runs[n - 1], actions[n]));
    }
}

/// A machine that was started is asked to be removed exactly once before its run is over, under
/// its own name, and where none was started nothing is asked to be removed.
pub proof fn law_started_machine_is_removed(runs: Seq<TaskRun>, actions: Seq<RunAction>)
    requires
        history(runs, actions),
    ensures
        runs.last().stage is Finished ==> removals_in(actions) == (if runs.last().record is Some {
            1nat
        } else {
            0nat
        }),
        forall|i: int|
            0 <= i < runs.len() && (#[trigger] actions[i]) is Rm ==> (
            runs[i].record matches Some(record) && asks_rm(actions[i], record.id@)),
{
    lemma_removals_counted(runs, actions);
    assert(runs.last().wf());
    assert forall|i: int| 0 <= i < runs.len() && (#[trigger] actions[i]) is Rm implies (
    runs[i].record matches Some(record) && asks_rm(actions[i], record.id@)) by {
        assert(runs[i].wf() && runs[i].awaits(actions[i]));
    }
}

/// At every moment, the scripts that were run are the first of the task's in their order, and
/// artifacts are only kept once all of them were run.
pub proof fn law_scripts_run_in_order(run: TaskRun)
    requires
        run.wf(),
        run.error is None,
    ensures
        text::views(run.result.executed_commands@) == scripts_of(run.task).take(
            run.result.executed_commands@.len() as int,
        ),
        run.result.collected_artifacts@.len() > 0 ==> run.all_run(),
{
}

/// The three directories of a run in its machine lie side by side and are three.
pub proof fn law_directories_of_a_run()
    ensures
        VM_WORK_DIR@ == path::joined("/tmp/vmize-worker"@, "work"@),
        VM_OUTPUT_DIR@ == path::joined("/tmp/vmize-worker"@, "out"@),
        VM_LOGS_DIR@ == path::joined("/tmp/vmize-worker"@, "logs"@),
{
    reveal_strlit("/tmp/vmize-worker");
    reveal_strlit("work");
    reveal_strlit("out");
    reveal_strlit("logs");
    reveal_strlit("/tmp/vmize-worker/work");
    reveal_strlit("/tmp/vmize-worker/out");
    reveal_strlit("/tmp/vmize-worker/logs");
    assert(VM_WORK_DIR@ =~= path::joined("/tmp/vmize-worker"@, "work"@));
    assert(VM_OUTPUT_DIR@ =~= path::joined("/tmp/vmize-worker"@, "out"@));
    assert(VM_LOGS_DIR@ =~= path::joined("/tmp/vmize-worker"@, "logs"@));
}

/// A script runs in the directory that the input was copied to, under its own name: the command
/// that runs it goes to the directory that the run asked to have its input in, and starts the
/// script there. What it prints goes to a file of its own in the directory that is collected as
/// the logs.
pub proof fn law_scripts_run_where_the_input_is(
    copying: TaskRun,
    copy: RunAction,
    running: TaskRun,
    stream: RunAction,
    collecting: TaskRun,
    collect: RunAction,
)
    requires
        copying.stage is CopyingInput,
        copying.wants(copy),
        running.stage is RunningScript,
        running.wants(stream),
        collecting.stage is CollectingLogs,
        collecting.wants(collect),
    ensures
        copy matches RunAction::CpTo { local, remote: place, recursive } && local@
            == copying.task.input_dir@ && recursive && (stream matches RunAction::SshStream {
            command,
        } && ("cd "@ + shell::quoted(place@) + " && /bin/bash "@ + shell::quoted(running.script())
            + " 2>&1 | tee "@).is_prefix_of(command@)),
        stream matches RunAction::SshStream { command } && (collect matches RunAction::CpFrom {
            remote: logs,
            local,
            recursive,
        } && local@ == collecting.task.logs_dir@ && !recursive && exists|log: Seq<char>|
            {
                &&& #[trigger] shell::quoted(log).is_suffix_of(command@)
                &&& "/*"@.is_suffix_of(logs@)
                &&& (logs@.take(logs@.len() - 1)).is_prefix_of(log)
                &&& (script_basename(running.script()) + ".log"@).is_suffix_of(log)
                &&& log.len() == logs@.len() - 1 + script_basename(running.script()).len()
                    + ".log"@.len()
            }),
{
    reveal_strlit("/*");
    reveal_strlit("/");
    let command = stream->SshStream_command@;
    let place = copy->CpTo_remote@;
    let script = running.script();
    let head = "cd "@ + shell::quoted(place) + " && /bin/bash "@ + shell::quoted(script)
        + " 2>&1 | tee "@;
    let log = script_log(script);
    assert(command =~= head + shell::quoted(log));
    assert(head =~= command.subrange(0, head.len() as int));
    assert(shell::quoted(log) =~= command.subrange(head.len() as int, command.len() as int));
    let logs = collect->CpFrom_remote@;
    assert("/*"@ =~= logs.subrange(logs.len() - 2, logs.len() as int));
    assert(logs.take(logs.len() - 1) =~= VM_LOGS_DIR@ + "/"@);
    assert(log =~= (VM_LOGS_DIR@ + "/"@) + (script_basename(script) + ".log"@));
    assert(logs.take(logs.len() - 1) =~= log.subrange(0, logs.len() - 1));
    let tail = script_basename(script) + ".log"@;
    assert(tail =~= log.subrange(log.len() - tail.len(), log.len() as int));
    assert(shell::quoted(log).is_suffix_of(command));
    assert(tail.is_suffix_of(log));
    assert("/*"@.is_suffix_of(logs));
    assert(logs.take(logs.len() - 1).is_prefix_of(log));
}

/// The directories for the output and the logs are made before anything is copied from them: what
/// is collected lies in a directory that the run asked its machine to make.
pub proof fn law_collected_directories_are_made(
    making: TaskRun,
    make: RunAction,
    collecting: TaskRun,
    collect: RunAction,
)
    requires
        making.stage is MakingDirs,
        making.wants(make),
        collecting.stage is CollectingLogs || collecting.stage is CopyingOutput
            || collecting.stage is CopyingArtifact,
        collecting.wants(collect),
    ensures
        make matches RunAction::Ssh { command } && "mkdir -p "@.is_prefix_of(command@) && (
        collect matches RunAction::CpFrom { remote, .. } && exists|dir: Seq<char>|
            #[trigger] text::occurs_in(shell::quoted(dir), command@) && (dir + "/"@).is_prefix_of(
                remote@,
            )),
{
    let command = make->Ssh_command@;
    let remote = collect->CpFrom_remote@;
    let out = shell::quoted(VM_OUTPUT_DIR@);
    let logs = shell::quoted(VM_LOGS_DIR@);
    assert(command =~= "mkdir -p "@ + out + " "@ + logs);
    assert("mkdir -p "@ =~= command.subrange(0, "mkdir -p "@.len() as int));
    let n = "mkdir -p "@.len() as int;
    let m = n + out.len() + " "@.len();
    assert(command.subrange(n, n + out.len()) =~= out);
    assert(command.subrange(m, m + logs.len()) =~= logs);
    assert(text::occurs_at(out, command, n));
    assert(text::occurs_at(logs, command, m));
    reveal_strlit("/*");
    reveal_strlit("/");
    let dir = if collecting.stage is CollectingLogs {
        VM_LOGS_DIR@
    } else {
        VM_OUTPUT_DIR@
    };
    assert(text::occurs_in(shell::quoted(dir), command));
    assert(dir + "/"@ =~= remote.subrange(0, (dir.len() + 1) as int));
}

/// An artifact is cleared, copied and looked for under one name: what is deleted before the copy
/// and looked for after it is the place on the host that the copy puts it in.
pub proof fn law_artifact_is_copied_to_where_it_is_looked_for(
    clearing: TaskRun,
    clear: RunAction,
    copying: TaskRun,
    copy: RunAction,
    checking: TaskRun,
    check: RunAction,
)
    requires
        clearing.stage is ClearingArtifact,
        clearing.wants(clear),
        copying.stage is CopyingArtifact,
        copying.wants(copy),
        checking.stage is CheckingArtifact,
        checking.wants(check),
        clearing.same_run(copying),
        clearing.same_run(checking),
        clearing.result.collected_artifacts == copying.result.collected_artifacts,
        clearing.result.collected_artifacts == checking.result.collected_artifacts,
    ensures
        clear matches RunAction::ClearPath { path: cleared } && (
        check matches RunAction::CheckPath { path: looked_for } && cleared@ == looked_for@ && (
        copy matches RunAction::CpFrom { remote, local, recursive } && recursive && cleared@
            == path::joined(local@, clearing.artifact()) && local@ == clearing.task.output_dir@
            && ("/"@ + clearing.artifact()).is_suffix_of(remote@))),
{
    let remote = copy->CpFrom_remote@;
    let name = "/"@ + clearing.artifact();
    assert(name =~= remote.subrange(remote.len() - name.len(), remote.len() as int));
}

/// Where a machine does not tell its kernel's configuration, the probe ends by printing the word by
/// which that is known, and no task that requires something runs then.
pub proof fn law_unknown_kernel_is_refused(
    vm_id: Seq<char>,
    requirements: Seq<KernelConfigRequirement>,
    probe: Result<String, String>,
)
    ensures
        ("; else echo "@ + missing_sentinel() + "; fi"@).is_suffix_of(kernel_probe_command()),
        "if [ -r /proc/config.gz ]; then zcat /proc/config.gz; "@.is_prefix_of(
            kernel_probe_command(),
        ),
        runtime_fault(vm_id, requirements, probe) is None <==> (probe matches Ok(output)
            && !text::occurs_in(missing_sentinel(), output@) && forall|i: int|
            0 <= i < requirements.len() ==> kernel_config::lines_say(
                text::lines_of(output@),
            ).contains_pair((#[trigger] requirements[i]).symbol@, requirements[i].expected)),
{
    reveal_strlit("; else echo ");
    reveal_strlit("__VMIZE_KERNEL_CONFIG_UNAVAILABLE__");
    reveal_strlit("; fi");
    reveal_strlit("if [ -r /proc/config.gz ]; then zcat /proc/config.gz; ");
    reveal_strlit(
        "if [ -r /proc/config.gz ]; then zcat /proc/config.gz; elif [ -r /boot/config-$(uname -r) ]; then cat /boot/config-$(uname -r); else echo __VMIZE_KERNEL_CONFIG_UNAVAILABLE__; fi",
    );
    let command = kernel_probe_command();
    let end = "; else echo "@ + missing_sentinel() + "; fi"@;
    assert(end =~= command.subrange(command.len() - end.len(), command.len() as int));
    let start = "if [ -r /proc/config.gz ]; then zcat /proc/config.gz; "@;
    assert(start =~= command.subrange(0, start.len() as int));
    if let Ok(output) = probe {
        kernel_config::law_no_mismatch_means_met(
            kernel_config::lines_say(text::lines_of(output@)),
            requirements,
        );
    }
}

/// A kernel is looked at exactly where a task requires something of it, after its input is there
/// and before its first script.
pub proof fn law_kernel_is_looked_at_where_required(
    after: TaskRun,
    before: TaskRun,
    action: RunAction,
)
    requires
        after.after_input(before, Ok(()), action),
        before.wf(),
        before.stage is CopyingInput,
    ensures
        after.stage is ProbingKernel <==> before.requirements@.len() > 0,
        after.stage is RunningScript ==> after.result.executed_commands@.len() == 0,
{
}

/// A machine's kernel passes exactly if its configuration could be read and meets every
/// requirement. The message for one that does not names the machine and says which of the two it
/// is.
pub proof fn law_failed_check_names_the_machine(
    vm_id: Seq<char>,
    requirements: Seq<KernelConfigRequirement>,
    probe: Result<String, String>,
)
    ensures
        runtime_fault(vm_id, requirements, probe) is None <==> probe is Ok && !text::occurs_in(
            missing_sentinel(),
            probe->Ok_0@,
        ) && kernel_config::mismatches(
            kernel_config::lines_say(text::lines_of(probe->Ok_0@)),
            requirements,
        ).len() == 0,
        runtime_fault(vm_id, requirements, probe) matches Some(message) ==> {
            let what = if probe is Err {
                "Failed runtime kernel-config probe in VM "@
            } else if text::occurs_in(missing_sentinel(), probe->Ok_0@) {
                "Runtime kernel config probe failed in VM "@
            } else {
                "Runtime kernel config check failed in VM "@
            };
            &&& (what + vm_id + ": "@).is_prefix_of(message)
            &&& probe matches Err(reason) ==> reason@.is_suffix_of(message)
        },
{
    if let Some(message) = runtime_fault(vm_id, requirements, probe) {
        let what = if probe is Err {
            "Failed runtime kernel-config probe in VM "@
        } else if text::occurs_in(missing_sentinel(), probe->Ok_0@) {
            "Runtime kernel config probe failed in VM "@
        } else {
            "Runtime kernel config check failed in VM "@
        };
        reveal_strlit(": ");
        reveal_strlit(
            ": /proc/config.gz and /boot/config-$(uname -r) are unavailable (enable CONFIG_IKCONFIG_PROC=y or provide runtime config file)",
        );
        let head = what + vm_id + ": "@;
        assert(head =~= message.subrange(0, head.len() as int));
        if let Err(reason) = probe {
            let n = message.len() as int;
            assert(reason@ =~= message.subrange(n - reason@.len(), n));
        }
    }
}

/// What goes wrong in a run is kept as the error of the part of the work that it arose in, with
/// what was said there. Without a machine the run is over; with one, whatever went wrong, the
/// machine is still asked for its logs or removed.
pub proof fn law_failure_is_kept_with_its_place(
    before: TaskRun,
    reply: VmReply,
    after: TaskRun,
    action: RunAction,
)
    requires
        before.wf(),
        after.wf(),
        before.error is None,
        after.after_reply(before, reply, action),
    ensures
        match (before.stage, reply) {
            (RunStage::Starting, VmReply::Started { record: Err(reason) }) => after.error == Some(
                Error::VmStart { message: reason },
            ) && after.stage is Finished && after.record is None,
            (RunStage::Starting, VmReply::Started { record: Ok(record) }) => after.error is None
                && after.record == Some(record) && after.stage is MakingDirs,
            (RunStage::MakingDirs, VmReply::Output { text: Err(reason) }) => after.error == Some(
                Error::VmCommand { message: reason },
            ) && after.stage is CollectingLogs,
            (RunStage::MakingDirs, VmReply::Output { text: Ok(_) }) => after.error is None
                && after.stage is CopyingInput,
            (RunStage::CopyingInput, VmReply::Done { outcome: Err(reason) }) => after.error == Some(
                Error::CopyToVm { message: reason },
            ) && after.stage is CollectingLogs,
            (RunStage::CopyingInput, VmReply::Done { outcome: Ok(_) }) => after.error is None,
            (RunStage::RunningScript, VmReply::Lines { lines, outcome: Err(reason) }) =>
                after.error is Some && after.error->0 is ScriptFailed
                && after.error->0->script@ == before.script()
                && after.error->0->ScriptFailed_message == reason && after.stage is CollectingLogs,
            (RunStage::RunningScript, VmReply::Lines { lines, outcome: Ok(_) }) => {
                &&& after.error is None
                &&& text::views(after.result.executed_commands@) == text::views(
                    before.result.executed_commands@,
                ).push(before.script())
                &&& after.stage is CollectingLogs <==> after.all_run()
                &&& after.stage is RunningScript <==> !after.all_run()
            },
            (RunStage::CollectingLogs, _) => {
                &&& artifacts_of(before.task).len() == 0 ==> after.stage is CopyingOutput
                &&& artifacts_of(before.task).len() > 0 ==> after.stage is ClearingArtifact
                    || after.error is Some
            },
            (RunStage::CopyingArtifact, VmReply::Done { outcome: Err(reason) }) => after.error
                == Some(Error::CopyFromVm { message: reason }) && after.stage is Removing,
            (RunStage::CopyingArtifact, VmReply::Done { outcome: Ok(_) }) => after.error is None
                && after.stage is CheckingArtifact,
            (RunStage::CopyingOutput, VmReply::Done { outcome: Err(reason) }) => after.error
                == Some(Error::CopyFromVm { message: reason }) && after.stage is Removing,
            (RunStage::CopyingOutput, VmReply::Done { outcome: Ok(_) }) => after.error is None
                && after.stage is Removing,
            (RunStage::Removing, VmReply::Done { outcome }) => {
                &&& after.error is None && after.stage is Finished
                &&& outcome is Ok <==> after.cleanup_error is None
                &&& outcome matches Err(reason) ==> after.cleanup_error is Some
                    && after.cleanup_error->0 is CleanupFailed
                    && after.cleanup_error->0->vm_id@ == before.result.vm_id@
                    && after.cleanup_error->0->CleanupFailed_message == reason
            },
            _ => true,
        },
        after.error is Some && !(before.stage is Starting) && !(before.stage is Removing)
            ==> after.stage is CollectingLogs || after.stage is Removing,
        before.stage is Removing ==> after.error == before.error,
{
    if before.stage is RunningScript {
        let (lines, outcome) = match reply {
            VmReply::Lines { lines, outcome } => (text::views(lines@), outcome),
            _ => (seq![], Ok(())),
        };
        let told = choose|told: TaskRun| #[trigger]
            told.printed(before, lines) && after.after_script(told, outcome, action);
        assert(told == (TaskRun { progress: told.progress, ..before }));
        if outcome is Ok {
            let all = scripts_of(before.task);
            let n = before.result.executed_commands@.len() as int;
            let now = text::views(after.result.executed_commands@);
            assert(now == all.take(n + 1));
            assert(all.take(n + 1) =~= all.take(n).push(all[n]));
            assert(now.len() == after.result.executed_commands@.len());
            assert(text::views(before.result.executed_commands@) == all.take(n));
            assert(before.script() == all[n] && told.script() == all[n]);
        }
    }
}

/// A run that failed keeps its first error while its logs are collected and its machine is
/// removed.
pub proof fn law_first_error_is_kept(
    before: TaskRun,
    reply: VmReply,
    after: TaskRun,
    action: RunAction,
)
    requires
        before.wf(),
        before.error is Some,
        after.after_reply(before, reply, action),
    ensures
        after.error == before.error,
        before.stage is CollectingLogs ==> after.stage is Removing,
        before.stage is Removing ==> after.stage is Finished,
{
}

impl TaskRun {
    /// Whether `r` is the outcome of the finished run.
    pub open spec fn ends_as(self, r: Result<RunResult, Error>, elapsed_ms: u64) -> bool {
        match (self.error, self.cleanup_error) {
            (Some(run), Some(cleanup)) => r matches Err(err) && err.is_runtime(
                run.text() + "; additionally: "@ + cleanup.text(),
            ),
            (Some(run), None) => r == Err::<RunResult, Error>(run),
            (None, Some(cleanup)) => r == Err::<RunResult, Error>(cleanup),
            (None, None) => r == Ok::<RunResult, Error>(
                RunResult { exit_code: 0, elapsed_ms, ..self.result },
            ),
        }
    }

    /// Whether the run is what follows once it is known whether an artifact is there.
    pub open spec fn after_check(self, before: TaskRun, is_there: bool) -> bool {
        if !is_there {
            &&& self.error matches Some(Error::MissingArtifact { file }) && file@
                == before.artifact()
            &&& self.result == before.result
            &&& self.stage is Removing
        } else {
            text::views(self.result.collected_artifacts@) == text::views(
                before.result.collected_artifacts@,
            ).push(before.artifact())
        }
    }
}

/// A run succeeds exactly if nothing went wrong in it, its cleanup included; then it has run all
/// commands and has collected all artifacts of its task, into the task's directories. An error of
/// the run is told before an error of the cleanup, and neither hides the other.
pub proof fn law_outcome_of_a_run(run: TaskRun, r: Result<RunResult, Error>, elapsed_ms: u64)
    requires
        run.wf(),
        run.stage is Finished,
        run.ends_as(r, elapsed_ms),
    ensures
        r is Ok <==> run.error is None && run.cleanup_error is None,
        r matches Ok(result) ==> {
            &&& result.exit_code == 0 && result.elapsed_ms == elapsed_ms
            &&& text::views(result.executed_commands@) == text::views(
                run.task.definition.commands@,
            )
            &&& run.task.definition.artifacts matches Some(list) ==> text::views(
                result.collected_artifacts@,
            ) == text::views(list@)
            &&& run.task.definition.artifacts is None ==> result.collected_artifacts@.len() == 0
            &&& result.output_dir@ == run.task.output_dir@ && result.logs_dir@
                == run.task.logs_dir@
            &&& run.record is Some && result.vm_id@ == run.record->0.id@
        },
        r matches Err(err) ==> {
            &&& run.error matches Some(first) ==> first.text().is_prefix_of(
                err.text(),
            ) || text::occurs_in(first.text(), err.text())
            &&& run.cleanup_error matches Some(second) ==> second.text().is_suffix_of(err.text())
        },
        run.error is Some && run.cleanup_error is None ==> r->Err_0 == run.error->0,
{
    let scripts = scripts_of(run.task);
    let artifacts = artifacts_of(run.task);
    if run.error is None {
        assert(scripts.take(scripts.len() as int) =~= scripts);
        assert(artifacts.take(artifacts.len() as int) =~= artifacts);
    }
    if let Err(err) = r {
        let told = err.text();
        let n = told.len() as int;
        match (run.error, run.cleanup_error) {
            (Some(first), Some(second)) => {
                let middle = "; additionally: "@;
                text::lemma_occurs_between(
                    "Runtime error: "@,
                    first.text(),
                    middle + second.text(),
                );
                assert(told =~= "Runtime error: "@ + first.text() + (middle + second.text()));
                assert(second.text() =~= told.subrange(n - second.text().len(), n));
            },
            (Some(first), None) => {
                assert(first.text() =~= told.subrange(0, n));
            },
            (None, Some(second)) => {
                assert(second.text() =~= told.subrange(0, n));
            },
            (None, None) => {},
        }
    }
    if run.task.definition.artifacts is None {
        assert(text::views(run.result.collected_artifacts@).len() == 0);
    }
}

/// An artifact counts as collected exactly if it is there; one that is not ends the run, and is
/// named.
pub proof fn law_missing_artifact_ends_the_run(before: TaskRun, after: TaskRun, is_there: bool)
    requires
        before.wf(),
        before.stage is CheckingArtifact,
        after.after_check(before, is_there),
    ensures
        !is_there ==> after.error is Some && after.error->0 is MissingArtifact
            && after.error->0->file@ == artifacts_of(
            before.task,
        )[before.result.collected_artifacts@.len() as int] && after.stage is Removing,
        after.result.collected_artifacts@.len() == before.result.collected_artifacts@.len() + (
        if is_there {
            1int
        } else {
            0int
        }),
{
    if is_there {
        let now = text::views(after.result.collected_artifacts@);
        assert(now.len() == after.result.collected_artifacts@.len());
        assert(text::views(before.result.collected_artifacts@).len()
            == before.result.collected_artifacts@.len());
    }
}

} // verus!
