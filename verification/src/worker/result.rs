//! What a finished run reports.

use vstd::prelude::*;

verus! {

/// The outcome of one task's run.
#[derive(Debug, PartialEq, Eq)]
pub struct RunResult {
    pub vm_id: String,
    pub output_dir: String,
    pub logs_dir: String,
    pub executed_commands: Vec<String>,
    pub collected_artifacts: Vec<String>,
    pub exit_code: i32,
    pub elapsed_ms: u64,
}

impl RunResult {
    /// The outcome of a run that has done nothing yet.
    pub fn new(vm_id: &str, output_dir: &str, logs_dir: &str) -> (r: RunResult)
        ensures
            r.vm_id@ == vm_id@,
            r.output_dir@ == output_dir@,
            r.logs_dir@ == logs_dir@,
            r.executed_commands@.len() == 0,
            r.collected_artifacts@.len() == 0,
            r.exit_code == 0,
            r.elapsed_ms == 0,
    {
        RunResult {
            vm_id: vm_id.to_owned(),
            output_dir: output_dir.to_owned(),
            logs_dir: logs_dir.to_owned(),
            executed_commands: Vec::new(),
            collected_artifacts: Vec::new(),
            exit_code: 0,
            elapsed_ms: 0,
        }
    }
}

/// The outcome of one task of a chain.
#[derive(Debug, PartialEq, Eq)]
pub struct ChainStepResult {
    pub task_dir: String,
    pub task_name: Option<String>,
    /// What the task handed to the next one.
    pub handoff_artifacts: Vec<String>,
    pub run_result: RunResult,
}

/// The outcome of a chain, one entry per task.
#[derive(Debug, PartialEq, Eq)]
pub struct ChainRunResult {
    pub steps: Vec<ChainStepResult>,
}

impl Default for ChainRunResult {
    fn default() -> (r: Self)
        ensures
            r.steps@.len() == 0,
    {
        ChainRunResult { steps: Vec::new() }
    }
}

} // verus!
