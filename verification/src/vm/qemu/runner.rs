//! The start and the end of a QEMU process.

use vstd::prelude::*;

use crate::text;
use crate::vm::qemu::config;
use crate::vm::qemu::config::{CommandLine, QemuConfig, QemuPaths};
use crate::vm::record;

verus! {

/// Starts QEMU.
#[derive(Debug)]
pub struct QemuRunner {}

/// Why a configuration is not started: what users see first, and the reason.
#[derive(Debug)]
pub struct StartRefusal {
    pub message: String,
    pub cause: String,
}

impl QemuRunner {
    pub fn new() -> (r: QemuRunner)
        ensures
            r == (QemuRunner {  }),
    {
        QemuRunner {  }
    }

    /// Starts a configuration: gives the command to run, unless the configuration is at fault.
    pub fn start(&self, config: &QemuConfig, seen: &QemuPaths) -> (r: Result<
        CommandLine,
        StartRefusal,
    >)
        ensures
            match r {
                Ok(line) => {
                    &&& config::config_fault(*config, *seen) is None
                    &&& line.program@ == config.qemu_binary@
                    &&& text::views(line.args@) == config::qemu_args(*config)
                },
                Err(refusal) => {
                    &&& config::config_fault(*config, *seen) == Some(refusal.cause@)
                    &&& refusal.message@ == "Invalid QEMU configuration"@
                },
            },
    {
        match config.validate(seen) {
            Ok(_) => Ok(config.build_command()),
            Err(cause) => Err(
                StartRefusal { message: "Invalid QEMU configuration".to_owned(), cause },
            ),
        }
    }
}

impl Default for QemuRunner {
    fn default() -> (r: QemuRunner)
        ensures
            r == (QemuRunner {  }),
    {
        QemuRunner {  }
    }
}

/// What to do next while QEMU starts.
#[derive(Debug)]
pub enum StartStep {
    /// QEMU runs as the given process.
    Started { pid: u32 },
    /// Look again after a pause.
    Pause,
    Fail { message: String },
}

/// Decides on the next step of starting QEMU: `pid_file` is the text of the pid file where it can
/// be read, `past_deadline` says whether the time for it to appear is over, `exited` is the exit
/// status of the child process where it has ended, and `child_pid` is that process.
///
/// A QEMU that runs in the background is known by its pid file; without one in time, the child
/// process stands for it.
pub fn start_step(pid_file: Option<&str>, past_deadline: bool, exited: Option<&str>, child_pid: u32) -> (r:
    StartStep)
    ensures
        is_start_step(
            r,
            match pid_file {
                Some(t) => record::pid_in(t@),
                None => None,
            },
            past_deadline,
            text::opt_str_view(exited),
            child_pid,
        ),
        ({
            let told = match pid_file {
                Some(t) => record::pid_in(t@),
                None => None,
            };
            if told is Some {
                r matches StartStep::Started { pid } && pid as nat == told->0
            } else if past_deadline {
                r == (StartStep::Started { pid: child_pid })
            } else if exited is Some {
                r matches StartStep::Fail { message } && message@
                    == "QEMU exited while starting (status: "@ + exited->0@ + ")."@
            } else {
                r is Pause
            }
        }),
{
    if let Some(t) = pid_file {
        if let Some(pid) = record::read_pid_file(t) {
            return StartStep::Started { pid };
        }
    }
    if past_deadline {
        return StartStep::Started { pid: child_pid };
    }
    match exited {
        Some(status) => StartStep::Fail {
            message: text::cat3("QEMU exited while starting (status: ", status, ")."),
        },
        None => StartStep::Pause,
    }
}

/// The arguments of `kill` that send a signal to a process.
pub open spec fn kill_args(signal: Seq<char>, pid: nat) -> Seq<Seq<char>> {
    seq!["-"@ + signal, text::decimal(pid)]
}

/// The message for a process that is not to be stopped.
pub open spec fn refusal(pid: nat) -> Seq<char> {
    "Refusing to stop PID "@ + text::decimal(pid) + ": process is not a QEMU process"@
}

fn signal_args(pid: u32, signal: &str, is_qemu: bool) -> (r: Result<Vec<String>, String>)
    ensures
        match r {
            Ok(args) => is_qemu && text::views(args@) == kill_args(signal@, pid as nat),
            Err(message) => !is_qemu && message@ == refusal(pid as nat),
        },
{
    let n = text::number(pid as u64);
    if !is_qemu {
        return Err(
            text::cat3("Refusing to stop PID ", n.as_str(), ": process is not a QEMU process"),
        );
    }
    let mut args: Vec<String> = Vec::new();
    args.push(text::cat2("-", signal));
    args.push(n);
    assert(text::views(args@) =~= kill_args(signal@, pid as nat));
    Ok(args)
}

/// The arguments of `kill` that ask a QEMU process to end. Any other process is left alone.
pub fn stop_qemu_by_pid(pid: u32, is_qemu: bool) -> (r: Result<Vec<String>, String>)
    ensures
        match r {
            Ok(args) => is_qemu && text::views(args@) == kill_args("TERM"@, pid as nat),
            Err(message) => !is_qemu && message@ == refusal(pid as nat),
        },
{
    signal_args(pid, "TERM", is_qemu)
}

/// The arguments of `kill` that end a QEMU process for good. Any other process is left alone.
pub fn force_stop_qemu_by_pid(pid: u32, is_qemu: bool) -> (r: Result<Vec<String>, String>)
    ensures
        match r {
            Ok(args) => is_qemu && text::views(args@) == kill_args("KILL"@, pid as nat),
            Err(message) => !is_qemu && message@ == refusal(pid as nat),
        },
{
    signal_args(pid, "KILL", is_qemu)
}

/// What `kill` said.
#[derive(Debug)]
pub struct KillOutput {
    pub success: bool,
    pub stderr: String,
}

/// Judges what `kill` said. That the process is gone is as good as success.
pub fn kill_qemu_process(pid: u32, output: &KillOutput) -> (r: Result<(), String>)
    ensures
        r is Ok <==> (output.success || crate::vm::process::absent(output.stderr@)),
        r matches Err(message) ==> message@ == "Failed to kill process "@ + text::decimal(
            pid as nat,
        ) + ": "@ + output.stderr@,
{
    if !output.success {
        if !crate::vm::process::is_process_absent_error(output.stderr.as_str()) {
            let n = text::number(pid as u64);
            return Err(
                text::cat4("Failed to kill process ", n.as_str(), ": ", output.stderr.as_str()),
            );
        }
    }
    Ok(())
}

/// Whether `step` is the next one of starting QEMU, with the number that its pid file gives.
pub open spec fn is_start_step(
    step: StartStep,
    told: Option<nat>,
    past_deadline: bool,
    exited: Option<Seq<char>>,
    child_pid: u32,
) -> bool {
    if told is Some {
        step matches StartStep::Started { pid } && pid as nat == told->0
    } else if past_deadline {
        step == (StartStep::Started { pid: child_pid })
    } else if exited is Some {
        step matches StartStep::Fail { message } && message@
            == "QEMU exited while starting (status: "@ + exited->0 + ")."@
    } else {
        step is Pause
    }
}

/// QEMU is known by the number in its pid file, and only without one in time by the process that
/// was started. It is waited for no longer than that process lives, and a failure shows how that
/// process ended.
pub proof fn law_qemu_is_known_by_its_pid_file(
    step: StartStep,
    told: Option<nat>,
    past_deadline: bool,
    exited: Option<Seq<char>>,
    child_pid: u32,
)
    requires
        is_start_step(step, told, past_deadline, exited, child_pid),
    ensures
        told is Some ==> step is Started && step->pid as nat == told->0,
        told is None && past_deadline ==> step is Started && step->pid == child_pid,
        step is Pause <==> told is None && !past_deadline && exited is None,
        step is Fail <==> told is None && !past_deadline && exited is Some,
        step is Fail ==> text::occurs_in(exited->0, step->message@),
{
    if step is Fail {
        text::lemma_occurs_between(
            "QEMU exited while starting (status: "@,
            exited->0,
            ")."@,
        );
    }
}

/// A process is asked to end by its own number, with the signal that is meant.
pub proof fn law_signal_goes_to_its_process(signal: Seq<char>, pid: nat, other: nat)
    ensures
        kill_args(signal, pid).len() == 2,
        kill_args(signal, pid)[0] == "-"@ + signal,
        kill_args(signal, pid)[1] == text::decimal(pid),
        kill_args(signal, pid) == kill_args(signal, other) ==> pid == other,
        ("Refusing to stop PID "@ + text::decimal(pid) + ": "@).is_prefix_of(refusal(pid)),
{
    if kill_args(signal, pid) == kill_args(signal, other) {
        assert(kill_args(signal, pid)[1] == kill_args(signal, other)[1]);
        text::lemma_decimal_distinct(pid, other);
    }
    reveal_strlit(": ");
    reveal_strlit(": process is not a QEMU process");
    let head = "Refusing to stop PID "@ + text::decimal(pid) + ": "@;
    assert(head =~= refusal(pid).subrange(0, head.len() as int));
}

} // verus!
