//! What a finished run of scripts reports.

use vstd::prelude::*;

verus! {

#[derive(Debug, PartialEq, Eq)]
pub struct RunResult {
    pub vm_id: String,
    pub output_dir: String,
    pub executed_scripts: Vec<String>,
    pub exit_code: i32,
    pub elapsed_ms: u64,
}

impl RunResult {
    /// The outcome of a run that has done nothing yet.
    pub fn new(vm_id: &str, output_dir: &str) -> (r: RunResult)
        ensures
            r.vm_id@ == vm_id@,
            r.output_dir@ == output_dir@,
            r.executed_scripts@.len() == 0,
            r.exit_code == 0,
            r.elapsed_ms == 0,
    {
        RunResult {
            vm_id: vm_id.to_owned(),
            output_dir: output_dir.to_owned(),
            executed_scripts: Vec::new(),
            exit_code: 0,
            elapsed_ms: 0,
        }
    }
}

} // verus!
