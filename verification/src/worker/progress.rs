//! What a run tells those who watch it.

use vstd::prelude::*;

verus! {

#[derive(Debug, Clone, Copy, PartialEq, Eq, Structural)]
pub enum RunPhase {
    StartingVm,
    PreparingVm,
    RunningScripts,
    CollectingOutput,
    CleaningUp,
}

#[derive(Debug, PartialEq, Eq)]
pub enum RunProgress {
    Phase(RunPhase),
    /// A script was started; its number among all counts from 1.
    ScriptStarted { script: String, index: usize, total: usize },
    ScriptFinished { script: String, index: usize, total: usize },
    VmProgressLine { line: String },
    ScriptOutputLine { line: String },
}

#[derive(Debug, PartialEq, Eq)]
pub enum ChainStepProgress {
    /// A task of a chain was started; its number among all counts from 1.
    StepStarted {
        step_index: usize,
        total_steps: usize,
        task_dir: String,
        task_name: Option<String>,
    },
}

/// What an event says.
pub enum Said {
    Phase { phase: RunPhase },
    Started { script: Seq<char>, index: nat, total: nat },
    Finished { script: Seq<char>, index: nat, total: nat },
    VmLine { line: Seq<char> },
    OutputLine { line: Seq<char> },
}

impl RunProgress {
    pub open spec fn said(self) -> Said {
        match self {
            RunProgress::Phase(phase) => Said::Phase { phase },
            RunProgress::ScriptStarted { script, index, total } => Said::Started {
                script: script@,
                index: index as nat,
                total: total as nat,
            },
            RunProgress::ScriptFinished { script, index, total } => Said::Finished {
                script: script@,
                index: index as nat,
                total: total as nat,
            },
            RunProgress::VmProgressLine { line } => Said::VmLine { line: line@ },
            RunProgress::ScriptOutputLine { line } => Said::OutputLine { line: line@ },
        }
    }
}

/// What was said to a listener, if there is one.
pub open spec fn heard(listener: Option<Vec<RunProgress>>) -> Option<Seq<Said>> {
    match listener {
        Some(events) => Some(events@.map_values(|e: RunProgress| e.said())),
        None => None,
    }
}

/// What was said to a listener, and then more.
pub open spec fn and_then_said(before: Option<Seq<Said>>, more: Seq<Said>) -> Option<Seq<Said>> {
    match before {
        Some(events) => Some(events + more),
        None => None,
    }
}

/// Hands an event to a listener, if there is one.
pub fn send_optional<T>(listener: &mut Option<Vec<T>>, event: T)
    ensures
        match *old(listener) {
            Some(events) => *final(listener) matches Some(now) && now@ == events@.push(event),
            None => *final(listener) is None,
        },
{
    match listener {
        Some(events) => {
            events.push(event);
        },
        None => {},
    }
}

/// Tells a listener how far a run has come, if there is one.
pub fn send_progress(listener: &mut Option<Vec<RunProgress>>, event: RunProgress)
    ensures
        match *old(listener) {
            Some(events) => *final(listener) matches Some(now) && now@ == events@.push(event),
            None => *final(listener) is None,
        },
        heard(*final(listener)) == and_then_said(heard(*old(listener)), seq![event.said()]),
{
    let ghost before = *listener;
    send_optional(listener, event);
    proof {
        if let Some(events) = before {
            assert(events@.push(event).map_values(|e: RunProgress| e.said()) =~= events@.map_values(
                |e: RunProgress| e.said(),
            ) + seq![event.said()]);
        }
    }
}

/// Tells a listener how far a chain has come, if there is one.
pub fn send_chain_step(listener: &mut Option<Vec<ChainStepProgress>>, event: ChainStepProgress)
    ensures
        match *old(listener) {
            Some(events) => *final(listener) matches Some(now) && now@ == events@.push(event),
            None => *final(listener) is None,
        },
{
    send_optional(listener, event);
}

} // verus!
