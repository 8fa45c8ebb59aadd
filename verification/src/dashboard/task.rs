//! A task in the dashboard's queue, and the chain of tasks that it starts.

use vstd::prelude::*;

use crate::dashboard::event;
use crate::dashboard::event::{ChainStepEntry, ChainStepState, Step};
use crate::json;
use crate::json::Json;
use crate::text;
use crate::worker::progress::RunPhase;
use crate::worker::result::{ChainRunResult, ChainStepResult};

verus! {

#[derive(Debug, Clone, Copy, PartialEq, Eq, Structural)]
pub enum TaskState {
    Queued,
    Running,
    Succeeded,
    Failed,
}

impl TaskState {
    /// Whether nothing more happens to a task in this state.
    pub open spec fn done(self) -> bool {
        self == TaskState::Succeeded || self == TaskState::Failed
    }

    /// The name of the state on the dashboard.
    pub open spec fn name(self) -> Seq<char> {
        match self {
            TaskState::Queued => "queued"@,
            TaskState::Running => "running"@,
            TaskState::Succeeded => "succeeded"@,
            TaskState::Failed => "failed"@,
        }
    }

    pub fn is_done(&self) -> (r: bool)
        ensures
            r == self.done(),
    {
        matches!(self, TaskState::Succeeded | TaskState::Failed)
    }

    pub fn label(&self) -> (r: &'static str)
        ensures
            r@ == self.name(),
    {
        match self {
            TaskState::Queued => "queued",
            TaskState::Running => "running",
            TaskState::Succeeded => "succeeded",
            TaskState::Failed => "failed",
        }
    }
}

/// A task in the queue, as the dashboard shows it.
#[derive(Debug)]
pub struct TaskEntry {
    pub id: usize,
    pub dir: String,
    pub name: Option<String>,
    pub description: Option<String>,
    pub state: TaskState,
    pub phase: Option<String>,
    pub script_index: usize,
    pub script_total: usize,
    pub current_script: Option<String>,
    pub chain_step_index: usize,
    pub chain_step_total: usize,
    pub chain_current_task: Option<String>,
    pub chain_steps: Vec<ChainStepEntry>,
    pub chain_failed_step_index: Option<usize>,
    pub vm_progress_lines: Vec<String>,
    pub script_output_lines: Vec<String>,
    pub elapsed_ms: Option<u64>,
    pub error: Option<String>,
    pub output: Option<String>,
}

/// What a `TaskEntry` holds.
#[verifier::ext_equal]
pub struct Task {
    pub id: nat,
    pub dir: Seq<char>,
    pub name: Option<Seq<char>>,
    pub description: Option<Seq<char>>,
    pub state: TaskState,
    pub phase: Option<Seq<char>>,
    pub script_index: nat,
    pub script_total: nat,
    pub current_script: Option<Seq<char>>,
    pub chain_step_index: nat,
    pub chain_step_total: nat,
    pub chain_current_task: Option<Seq<char>>,
    pub chain_steps: Seq<Step>,
    pub chain_failed_step_index: Option<nat>,
    pub vm_progress_lines: Seq<Seq<char>>,
    pub script_output_lines: Seq<Seq<char>>,
    pub elapsed_ms: Option<nat>,
    pub error: Option<Seq<char>>,
    pub output: Option<Seq<char>>,
}

impl View for TaskEntry {
    type V = Task;

    open spec fn view(&self) -> Task {
        Task {
            id: self.id as nat,
            dir: self.dir@,
            name: text::opt_view(self.name),
            description: text::opt_view(self.description),
            state: self.state,
            phase: text::opt_view(self.phase),
            script_index: self.script_index as nat,
            script_total: self.script_total as nat,
            current_script: text::opt_view(self.current_script),
            chain_step_index: self.chain_step_index as nat,
            chain_step_total: self.chain_step_total as nat,
            chain_current_task: text::opt_view(self.chain_current_task),
            chain_steps: event::steps(self.chain_steps@),
            chain_failed_step_index: event::opt_nat(self.chain_failed_step_index),
            vm_progress_lines: text::views(self.vm_progress_lines@),
            script_output_lines: text::views(self.script_output_lines@),
            elapsed_ms: json::opt_ms(self.elapsed_ms),
            error: text::opt_view(self.error),
            output: text::opt_view(self.output),
        }
    }
}

/// A task that has just been queued.
pub open spec fn queued_task(
    id: nat,
    dir: Seq<char>,
    name: Option<Seq<char>>,
    description: Option<Seq<char>>,
) -> Task {
    Task {
        id,
        dir,
        name,
        description,
        state: TaskState::Queued,
        phase: None,
        script_index: 0,
        script_total: 0,
        current_script: None,
        chain_step_index: 0,
        chain_step_total: 0,
        chain_current_task: None,
        chain_steps: Seq::empty(),
        chain_failed_step_index: None,
        vm_progress_lines: Seq::empty(),
        script_output_lines: Seq::empty(),
        elapsed_ms: None,
        error: None,
        output: None,
    }
}

impl TaskEntry {
    /// A task that has just been queued.
    pub fn queued(id: usize, dir: String, name: Option<String>, description: Option<String>) -> (r:
        TaskEntry)
        ensures
            r@ == queued_task(
                id as nat,
                dir@,
                text::opt_view(name),
                text::opt_view(description),
            ),
    {
        let r = TaskEntry {
            id,
            dir,
            name,
            description,
            state: TaskState::Queued,
            phase: None,
            script_index: 0,
            script_total: 0,
            current_script: None,
            chain_step_index: 0,
            chain_step_total: 0,
            chain_current_task: None,
            chain_steps: Vec::new(),
            chain_failed_step_index: None,
            vm_progress_lines: Vec::new(),
            script_output_lines: Vec::new(),
            elapsed_ms: None,
            error: None,
            output: None,
        };
        proof {
            assert(r@.chain_steps =~= Seq::empty());
            assert(r@.vm_progress_lines =~= Seq::empty());
            assert(r@.script_output_lines =~= Seq::empty());
        }
        r
    }
}

/// The name of a phase on the dashboard.
pub open spec fn phase_name(phase: RunPhase) -> Seq<char> {
    match phase {
        RunPhase::StartingVm => "StartingVm"@,
        RunPhase::PreparingVm => "PreparingVm"@,
        RunPhase::RunningScripts => "RunningScripts"@,
        RunPhase::CollectingOutput => "CollectingOutput"@,
        RunPhase::CleaningUp => "CleaningUp"@,
    }
}

/// The name of a phase on the dashboard.
pub fn worker_phase_label(phase: RunPhase) -> (r: &'static str)
    ensures
        r@ == phase_name(phase),
{
    match phase {
        RunPhase::StartingVm => "StartingVm",
        RunPhase::PreparingVm => "PreparingVm",
        RunPhase::RunningScripts => "RunningScripts",
        RunPhase::CollectingOutput => "CollectingOutput",
        RunPhase::CleaningUp => "CleaningUp",
    }
}

/// A step of which nothing but its number is known.
pub open spec fn unknown_step(index: nat) -> Step {
    Step { index, task_name: None, task_dir: None, state: ChainStepState::Queued, error: None }
}

/// Steps, with as many unknown ones behind them as `total` asks for.
pub open spec fn grown(steps: Seq<Step>, total: nat) -> Seq<Step> {
    if total <= steps.len() {
        steps
    } else {
        steps + Seq::new(
            (total - steps.len()) as nat,
            |i: int| unknown_step((steps.len() + i + 1) as nat),
        )
    }
}

/// Makes room for the steps of a chain. No step is taken away.
pub fn ensure_chain_steps(task: &mut TaskEntry, total_steps: usize)
    ensures
        final(task)@ == (Task { chain_steps: grown(old(task)@.chain_steps, total_steps as nat), ..old(
            task)@ }),
{
    let ghost before = *task;
    let ghost first = event::steps(task.chain_steps@);
    let held: usize = task.chain_steps.len();
    if total_steps <= held {
        return;
    }
    let mut count: usize = held;
    proof {
        assert(grown(first, held as nat) =~= first);
    }
    while count < total_steps
        invariant
            held <= count <= total_steps,
            first.len() == held,
            event::steps(task.chain_steps@) == grown(first, count as nat),
            task@ == (Task { chain_steps: grown(first, count as nat), ..before@ }),
        decreases total_steps - count,
    {
        count = count + 1;
        let step = ChainStepEntry {
            index: count,
            task_name: None,
            task_dir: None,
            state: ChainStepState::Queued,
            error: None,
        };
        let ghost held_before = task.chain_steps@;
        task.chain_steps.push(step);
        proof {
            assert(event::steps(task.chain_steps@) =~= event::steps(held_before).push(step@));
            assert(grown(first, count as nat) =~= grown(first, (count - 1) as nat).push(
                unknown_step(count as nat),
            ));
        }
    }
}

/// A step of which it is known that another one has been started.
pub open spec fn passed(step: Step, next: nat) -> Step {
    if step.state == ChainStepState::Running && step.index != next {
        Step { state: ChainStepState::Succeeded, error: None, ..step }
    } else {
        step
    }
}

/// Steps of which it is known that one has been started.
pub open spec fn all_passed(steps: Seq<Step>, next: nat) -> Seq<Step> {
    steps.map_values(|s: Step| passed(s, next))
}

/// Marks the steps that ran before as succeeded.
pub fn mark_prior_running_steps_succeeded(task: &mut TaskEntry, next_step_index: usize)
    ensures
        final(task)@ == (Task {
            chain_steps: all_passed(old(task)@.chain_steps, next_step_index as nat),
            ..old(task)@
        }),
{
    let ghost before = *task;
    let ghost first = event::steps(task.chain_steps@);
    let total: usize = task.chain_steps.len();
    let mut i: usize = 0;
    while i < total
        invariant
            i <= total,
            total == first.len(),
            task.chain_steps@.len() == total,
            forall|j: int|
                0 <= j < total ==> #[trigger] task.chain_steps@[j]@ == (if j < i {
                    passed(first[j], next_step_index as nat)
                } else {
                    first[j]
                }),
            task@ == (Task { chain_steps: event::steps(task.chain_steps@), ..before@ }),
        decreases total - i,
    {
        let step = &task.chain_steps[i];
        if step.state == ChainStepState::Running && step.index != next_step_index {
            let mut now = step.clone();
            now.state = ChainStepState::Succeeded;
            now.error = None;
            task.chain_steps.set(i, now);
        }
        i = i + 1;
    }
    proof {
        assert(event::steps(task.chain_steps@) =~= all_passed(first, next_step_index as nat));
    }
}

/// A step that is known to have succeeded.
pub open spec fn done_step(step: Step, result: ChainStepResult) -> Step {
    Step {
        index: step.index,
        task_name: text::opt_view(result.task_name),
        task_dir: Some(result.task_dir@),
        state: ChainStepState::Succeeded,
        error: None,
    }
}

/// A task whose chain has run to its end.
pub open spec fn synced(task: Task, results: Seq<ChainStepResult>) -> Task {
    if results.len() == 0 {
        Task {
            chain_step_index: 0,
            chain_step_total: 0,
            chain_current_task: None,
            chain_steps: Seq::empty(),
            chain_failed_step_index: None,
            ..task
        }
    } else {
        let steps = grown(task.chain_steps, results.len());
        Task {
            chain_step_index: results.len(),
            chain_step_total: results.len(),
            chain_current_task: text::opt_view(results.last().task_name),
            chain_steps: Seq::new(results.len(), |i: int| done_step(steps[i], results[i])),
            chain_failed_step_index: None,
            ..task
        }
    }
}

/// Brings the steps of a task in line with what its chain reported.
pub fn sync_chain_steps_from_result(task: &mut TaskEntry, chain_result: &ChainRunResult)
    ensures
        final(task)@ == synced(old(task)@, chain_result.steps@),
{
    let ghost before = task@;
    let total: usize = chain_result.steps.len();
    if total == 0 {
        task.chain_step_index = 0;
        task.chain_step_total = 0;
        task.chain_current_task = None;
        task.chain_steps.clear();
        task.chain_failed_step_index = None;
        assert(event::steps(task.chain_steps@) =~= Seq::empty());
        return;
    }
    ensure_chain_steps(task, total);
    let ghost first = grown(before.chain_steps, total as nat);
    let ghost held = task.chain_steps@.len();
    proof {
        assert(event::steps(task.chain_steps@) == first);
        assert forall|j: int| 0 <= j < held implies #[trigger] task.chain_steps@[j]@
            == first[j] by {
            assert(event::steps(task.chain_steps@)[j] == first[j]);
        }
    }
    let mut i: usize = 0;
    while i < total
        invariant
            i <= total <= held,
            total == chain_result.steps@.len(),
            first.len() == held,
            task.chain_steps@.len() == held,
            forall|j: int|
                0 <= j < held ==> #[trigger] task.chain_steps@[j]@ == (if j < i {
                    done_step(first[j], chain_result.steps@[j])
                } else {
                    first[j]
                }),
            task@ == (Task { chain_steps: event::steps(task.chain_steps@), ..before }),
        decreases total - i,
    {
        let result = &chain_result.steps[i];
        assert(task.chain_steps@[i as int]@ == first[i as int]);
        let step = ChainStepEntry {
            index: task.chain_steps[i].index,
            task_name: result.task_name.clone(),
            task_dir: Some(result.task_dir.clone()),
            state: ChainStepState::Succeeded,
            error: None,
        };
        task.chain_steps.set(i, step);
        i = i + 1;
    }
    task.chain_steps.truncate(total);
    task.chain_step_index = total;
    task.chain_step_total = total;
    task.chain_current_task = chain_result.steps[total - 1].task_name.clone();
    task.chain_failed_step_index = None;
    proof {
        assert(event::steps(task.chain_steps@) =~= synced(before, chain_result.steps@).chain_steps);
    }
}

/// The position of the first running step.
pub open spec fn running_at(steps: Seq<Step>) -> Option<int>
    decreases steps.len(),
{
    if steps.len() == 0 {
        None
    } else {
        match running_at(steps.drop_last()) {
            Some(i) => Some(i),
            None => if steps.last().state == ChainStepState::Running {
                Some(steps.len() - 1)
            } else {
                None
            },
        }
    }
}

/// The position of the step that a chain's failure is laid to: the one that runs, or else the
/// one that was last started, unless that one succeeded.
pub open spec fn failed_at(task: Task) -> Option<int> {
    match running_at(task.chain_steps) {
        Some(i) => Some(i),
        None => {
            let i = task.chain_step_index - 1;
            if 0 <= i < task.chain_steps.len() && task.chain_steps[i].state
                != ChainStepState::Succeeded {
                Some(i)
            } else {
                None
            }
        },
    }
}

/// A task whose chain has failed.
pub open spec fn with_failure(task: Task, error: Seq<char>) -> Task {
    match failed_at(task) {
        None => Task { chain_failed_step_index: None, ..task },
        Some(i) => {
            let step = Step {
                state: ChainStepState::Failed,
                error: Some(error),
                ..task.chain_steps[i]
            };
            let steps = task.chain_steps.update(i, step);
            Task {
                chain_steps: steps,
                chain_failed_step_index: Some(step.index),
                chain_step_index: step.index,
                chain_current_task: if 1 <= step.index <= steps.len() {
                    steps[step.index - 1].task_name
                } else {
                    task.chain_current_task
                },
                ..task
            }
        },
    }
}

proof fn lemma_running_at(steps: Seq<Step>)
    ensures
        match running_at(steps) {
            Some(i) => 0 <= i < steps.len() && steps[i].state == ChainStepState::Running && (
            forall|j: int| 0 <= j < i ==> (#[trigger] steps[j]).state != ChainStepState::Running),
            None => forall|j: int|
                0 <= j < steps.len() ==> (#[trigger] steps[j]).state != ChainStepState::Running,
        },
    decreases steps.len(),
{
    if steps.len() > 0 {
        lemma_running_at(steps.drop_last());
        assert forall|j: int| 0 <= j < steps.len() - 1 implies #[trigger] steps[j]
            == steps.drop_last()[j] by {}
    }
}

fn find_running(entries: &[ChainStepEntry]) -> (r: Option<usize>)
    ensures
        match r {
            Some(i) => running_at(event::steps(entries@)) == Some(i as int) && i < entries@.len(),
            None => running_at(event::steps(entries@)) is None,
        },
{
    let total: usize = entries.len();
    let ghost all = event::steps(entries@);
    let mut i: usize = 0;
    while i < total
        invariant
            i <= total,
            total == entries@.len(),
            all == event::steps(entries@),
            forall|j: int| 0 <= j < i ==> (#[trigger] all[j]).state != ChainStepState::Running,
        decreases total - i,
    {
        if entries[i].state == ChainStepState::Running {
            proof {
                lemma_running_at(all);
                assert(all[i as int].state == ChainStepState::Running);
            }
            return Some(i);
        }
        i = i + 1;
    }
    proof {
        lemma_running_at(all);
    }
    None
}

/// Lays the failure of a task's chain to one of its steps.
pub fn mark_chain_failure(task: &mut TaskEntry, error: &str)
    ensures
        final(task)@ == with_failure(old(task)@, error@),
{
    let ghost before = task@;
    let position: Option<usize> = match find_running(&task.chain_steps) {
        Some(i) => Some(i),
        None => {
            let index: usize = task.chain_step_index;
            if index >= 1 && index - 1 < task.chain_steps.len() && task.chain_steps[index - 1].state
                != ChainStepState::Succeeded {
                Some(index - 1)
            } else {
                None
            }
        },
    };
    match position {
        None => {
            task.chain_failed_step_index = None;
        },
        Some(i) => {
            let mut step = task.chain_steps[i].clone();
            step.state = ChainStepState::Failed;
            step.error = Some(error.to_owned());
            let index: usize = step.index;
            let ghost told = step@;
            let ghost held = task.chain_steps@;
            task.chain_steps.set(i, step);
            proof {
                assert(event::steps(task.chain_steps@) =~= event::steps(held).update(
                    i as int,
                    told,
                ));
            }
            task.chain_failed_step_index = Some(index);
            task.chain_step_index = index;
            if index >= 1 && index - 1 < task.chain_steps.len() {
                task.chain_current_task = task.chain_steps[index - 1].task_name.clone();
            }
        },
    }
}

/// A task of whose chain a step has been started.
pub open spec fn with_step(
    task: Task,
    step_index: nat,
    total_steps: nat,
    task_dir: Seq<char>,
    task_name: Option<Seq<char>>,
) -> Task {
    let steps = all_passed(grown(task.chain_steps, total_steps), step_index);
    Task {
        chain_steps: if 1 <= step_index <= steps.len() {
            steps.update(
                step_index - 1,
                Step {
                    index: steps[step_index - 1].index,
                    task_name,
                    task_dir: Some(task_dir),
                    state: ChainStepState::Running,
                    error: None,
                },
            )
        } else {
            steps
        },
        chain_step_index: step_index,
        chain_step_total: total_steps,
        chain_current_task: task_name,
        chain_failed_step_index: None,
        phase: Some(
            "ChainStep "@ + text::decimal(step_index) + "/"@ + text::decimal(total_steps),
        ),
        ..task
    }
}

/// Notes that a step of a task's chain has been started.
pub fn start_chain_step(
    task: &mut TaskEntry,
    step_index: usize,
    total_steps: usize,
    task_dir: &str,
    task_name: &Option<String>,
)
    ensures
        final(task)@ == with_step(
            old(task)@,
            step_index as nat,
            total_steps as nat,
            task_dir@,
            text::opt_view(*task_name),
        ),
{
    ensure_chain_steps(task, total_steps);
    mark_prior_running_steps_succeeded(task, step_index);
    if step_index >= 1 && step_index - 1 < task.chain_steps.len() {
        let step = ChainStepEntry {
            index: task.chain_steps[step_index - 1].index,
            task_name: task_name.clone(),
            task_dir: Some(task_dir.to_owned()),
            state: ChainStepState::Running,
            error: None,
        };
        let ghost held = task.chain_steps@;
        task.chain_steps.set(step_index - 1, step);
        proof {
            assert(event::steps(task.chain_steps@) =~= event::steps(held).update(
                step_index - 1,
                step@,
            ));
        }
    }
    let n = text::number(step_index as u64);
    let total = text::number(total_steps as u64);
    task.chain_step_index = step_index;
    task.chain_step_total = total_steps;
    task.chain_current_task = task_name.clone();
    task.chain_failed_step_index = None;
    task.phase = Some(text::cat4("ChainStep ", n.as_str(), "/", total.as_str()));
}

/// Whether the steps of a chain are numbered from 1.
pub open spec fn numbered(steps: Seq<Step>) -> bool {
    forall|i: int| 0 <= i < steps.len() ==> (#[trigger] steps[i]).index == i + 1
}

/// Whatever happens to a chain, its steps stay numbered from 1.
pub proof fn law_steps_stay_numbered(
    task: Task,
    step_index: nat,
    total_steps: nat,
    task_dir: Seq<char>,
    task_name: Option<Seq<char>>,
    results: Seq<ChainStepResult>,
    error: Seq<char>,
)
    requires
        numbered(task.chain_steps),
    ensures
        numbered(with_step(task, step_index, total_steps, task_dir, task_name).chain_steps),
        numbered(synced(task, results).chain_steps),
        numbered(with_failure(task, error).chain_steps),
{
    lemma_running_at(task.chain_steps);
}

/// Once a step of a chain has been started, it is the only one that runs.
pub proof fn law_one_step_runs(
    task: Task,
    step_index: nat,
    total_steps: nat,
    task_dir: Seq<char>,
    task_name: Option<Seq<char>>,
)
    requires
        numbered(task.chain_steps),
        1 <= step_index <= total_steps,
    ensures
        ({
            let steps = with_step(task, step_index, total_steps, task_dir, task_name).chain_steps;
            &&& step_index <= steps.len()
            &&& forall|i: int|
                0 <= i < steps.len() ==> ((#[trigger] steps[i]).state == ChainStepState::Running
                    <==> i == step_index - 1)
        }),
{
}

/// A failure is laid to the step that runs, and to no other.
pub proof fn law_failure_marks_the_running_step(task: Task, error: Seq<char>, at: int)
    requires
        numbered(task.chain_steps),
        0 <= at < task.chain_steps.len(),
        forall|i: int|
            0 <= i < task.chain_steps.len() ==> ((#[trigger] task.chain_steps[i]).state
                == ChainStepState::Running <==> i == at),
    ensures
        ({
            let after = with_failure(task, error);
            &&& after.chain_failed_step_index == Some((at + 1) as nat)
            &&& after.chain_steps.len() == task.chain_steps.len()
            &&& after.chain_steps[at].state == ChainStepState::Failed
            &&& after.chain_steps[at].error == Some(error)
            &&& forall|i: int|
                0 <= i < task.chain_steps.len() && i != at ==> #[trigger] after.chain_steps[i]
                    == task.chain_steps[i]
        }),
{
    lemma_running_at(task.chain_steps);
    assert(task.chain_steps[at].state == ChainStepState::Running);
}

impl Task {
    /// The members of the task's object. What a task has not is null.
    pub open spec fn members(self) -> Map<Seq<char>, Json> {
        let m = json::no_members().insert("id"@, Json::Number(self.id));
        let m = m.insert("dir"@, Json::Text(self.dir));
        let m = m.insert("name"@, json::text_or_null(self.name));
        let m = m.insert("description"@, json::text_or_null(self.description));
        let m = m.insert("state"@, Json::Text(self.state.name()));
        let m = m.insert("phase"@, json::text_or_null(self.phase));
        let m = m.insert("script_index"@, Json::Number(self.script_index));
        let m = m.insert("script_total"@, Json::Number(self.script_total));
        let m = m.insert("current_script"@, json::text_or_null(self.current_script));
        let m = m.insert("chain_step_index"@, Json::Number(self.chain_step_index));
        let m = m.insert("chain_step_total"@, Json::Number(self.chain_step_total));
        let m = m.insert("chain_current_task"@, json::text_or_null(self.chain_current_task));
        let m = m.insert("chain_steps"@, Json::List(event::step_values(self.chain_steps)));
        let m = m.insert(
            "chain_failed_step_index"@,
            json::number_or_null(self.chain_failed_step_index),
        );
        let m = m.insert("vm_progress_lines"@, Json::List(json::line_values(self.vm_progress_lines)));
        let m = m.insert("script_output_lines"@, Json::List(json::line_values(self.script_output_lines)));
        let m = m.insert("elapsed_ms"@, json::number_or_null(self.elapsed_ms));
        let m = m.insert("error"@, json::text_or_null(self.error));
        m.insert("output"@, json::text_or_null(self.output))
    }
}

impl TaskEntry {
    /// Writes the task as an object.
    pub fn to_object(&self) -> (r: serde_json::Map<String, serde_json::Value>)
        ensures
            json::members(r) == self@.members(),
    {
        let mut object = json::object();
        json::put_number(&mut object, "id", self.id as u64);
        json::put_text(&mut object, "dir", self.dir.as_str());
        json::put_text_or_null(&mut object, "name", &self.name);
        json::put_text_or_null(&mut object, "description", &self.description);
        json::put_text(&mut object, "state", self.state.label());
        json::put_text_or_null(&mut object, "phase", &self.phase);
        json::put_number(&mut object, "script_index", self.script_index as u64);
        json::put_number(&mut object, "script_total", self.script_total as u64);
        json::put_text_or_null(&mut object, "current_script", &self.current_script);
        json::put_number(&mut object, "chain_step_index", self.chain_step_index as u64);
        json::put_number(&mut object, "chain_step_total", self.chain_step_total as u64);
        json::put_text_or_null(&mut object, "chain_current_task", &self.chain_current_task);
        let steps = event::steps_value(&self.chain_steps);
        json::put(&mut object, "chain_steps", steps);
        let failed: Option<u64> = match self.chain_failed_step_index {
            Some(index) => Some(index as u64),
            None => None,
        };
        json::put_number_or_null(&mut object, "chain_failed_step_index", failed);
        let lines = json::lines_value(&self.vm_progress_lines);
        json::put(&mut object, "vm_progress_lines", lines);
        let lines = json::lines_value(&self.script_output_lines);
        json::put(&mut object, "script_output_lines", lines);
        json::put_number_or_null(&mut object, "elapsed_ms", self.elapsed_ms);
        json::put_text_or_null(&mut object, "error", &self.error);
        json::put_text_or_null(&mut object, "output", &self.output);
        object
    }
}

/// The names of the phases differ, and say what they are names of.
pub proof fn law_phases_are_told_apart(a: RunPhase, b: RunPhase)
    ensures
        phase_name(a) == phase_name(b) <==> a == b,
{
    reveal_strlit("StartingVm");
    reveal_strlit("PreparingVm");
    reveal_strlit("RunningScripts");
    reveal_strlit("CollectingOutput");
    reveal_strlit("CleaningUp");
    assert("StartingVm"@[0] == 'S' && "CleaningUp"@[0] == 'C');
    assert("StartingVm"@.len() == 10 && "PreparingVm"@.len() == 11 && "RunningScripts"@.len() == 14);
    assert("CollectingOutput"@.len() == 16 && "CleaningUp"@.len() == 10);
}

/// A step of a chain that starts is shown with its name, its directory and its place in the chain.
/// A step that ran before it has succeeded, and every other step is as it was.
pub proof fn law_started_step_is_shown(
    task: Task,
    step_index: nat,
    total_steps: nat,
    task_dir: Seq<char>,
    task_name: Option<Seq<char>>,
    i: int,
)
    requires
        numbered(task.chain_steps),
        1 <= step_index <= total_steps,
        0 <= i < task.chain_steps.len(),
    ensures
        ({
            let after = with_step(task, step_index, total_steps, task_dir, task_name);
            let at = step_index - 1;
            let step = after.chain_steps[at];
            let before = task.chain_steps[i];
            let now = after.chain_steps[i];
            &&& step.task_name == task_name && step.task_dir == Some(task_dir)
            &&& step.state == ChainStepState::Running && step.error is None
            &&& after.chain_step_index == step_index && after.chain_step_total == total_steps
            &&& after.chain_current_task == task_name
            &&& after.chain_failed_step_index is None
            &&& after.chain_steps.len() >= total_steps
            &&& after.state == task.state && after.id == task.id && after.error == task.error
            &&& i != at && before.state == ChainStepState::Running ==> now.state
                == ChainStepState::Succeeded && now.task_name == before.task_name && now.task_dir
                == before.task_dir && now.index == before.index
            &&& i != at && before.state != ChainStepState::Running ==> now == before
            &&& after.phase == Some(
                "ChainStep "@ + text::decimal(step_index) + "/"@ + text::decimal(total_steps),
            )
        }),
{
    let steps = grown(task.chain_steps, total_steps);
    assert(steps[i] == task.chain_steps[i]);
    assert(all_passed(steps, step_index)[i] == passed(steps[i], step_index));
}

/// A chain that succeeds has succeeded in each of its steps, each with the name and the directory
/// of its result, and none has failed.
pub proof fn law_successful_chain_succeeds_in_each_step(
    task: Task,
    results: Seq<ChainStepResult>,
    i: int,
)
    requires
        0 <= i < results.len(),
    ensures
        ({
            let after = synced(task, results);
            &&& after.chain_steps.len() == results.len()
            &&& after.chain_step_index == results.len() && after.chain_step_total == results.len()
            &&& after.chain_steps[i].state == ChainStepState::Succeeded
            &&& after.chain_steps[i].error is None
            &&& after.chain_steps[i].task_dir == Some(results[i].task_dir@)
            &&& after.chain_steps[i].task_name == text::opt_view(results[i].task_name)
            &&& after.chain_failed_step_index is None
            &&& after.state == task.state && after.output == task.output
        }),
{
}

/// A task that waits to run has done nothing yet.
pub proof fn law_new_task_waits(
    id: nat,
    dir: Seq<char>,
    name: Option<Seq<char>>,
    description: Option<Seq<char>>,
)
    ensures
        ({
            let task = queued_task(id, dir, name, description);
            &&& task.id == id && task.dir == dir && task.name == name && task.description
                == description
            &&& task.state == TaskState::Queued && !task.state.done()
            &&& task.phase is None && task.error is None && task.output is None
            &&& task.script_index == 0 && task.script_total == 0 && task.chain_steps.len() == 0
            &&& task.vm_progress_lines.len() == 0 && task.script_output_lines.len() == 0
            &&& task.elapsed_ms is None
        }),
{
}

/// A task is done exactly if it has succeeded or failed.
pub proof fn law_done_means_succeeded_or_failed(state: TaskState)
    ensures
        state.done() <==> state != TaskState::Queued && state != TaskState::Running,
{
}

} // verus!
