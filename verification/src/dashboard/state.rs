//! The dashboard's queue, and what requests, runs and their progress do to it.

use std::collections::VecDeque;
use vstd::prelude::*;

use crate::dashboard::event;
use crate::dashboard::event::{ChainStepEntry, DashboardSseEvent, Told};
use crate::dashboard::task;
use crate::dashboard::task::{
    mark_chain_failure, start_chain_step, sync_chain_steps_from_result, worker_phase_label, Task,
    TaskEntry, TaskState,
};
use crate::json;
use crate::json::Json;
use crate::path;
use crate::replay;
use crate::replay::SSE_REPLAY_CAPACITY;
use crate::reply::Reply;
use crate::task::LoadedTask;
use crate::text;
use crate::worker::error::Error;
use crate::worker::progress::{ChainStepProgress, RunProgress};
use crate::worker::result::ChainRunResult;
use crate::worker::MAX_BATCH_TASKS;

verus! {

pub struct DashboardState {
    pub tasks: Vec<TaskEntry>,
    pub next_id: usize,
    pub running: bool,
    /// The last events, which a new subscriber gets first.
    pub replay: VecDeque<String>,
}

/// What a `DashboardState` holds.
#[verifier::ext_equal]
pub struct Board {
    pub tasks: Seq<Task>,
    pub next_id: nat,
    pub running: bool,
    pub replay: Seq<Seq<char>>,
}

/// What several tasks hold.
pub open spec fn tasks_view(entries: Seq<TaskEntry>) -> Seq<Task> {
    entries.map_values(|t: TaskEntry| t@)
}

impl View for DashboardState {
    type V = Board;

    open spec fn view(&self) -> Board {
        Board {
            tasks: tasks_view(self.tasks@),
            next_id: self.next_id as nat,
            running: self.running,
            replay: text::views(self.replay@),
        }
    }
}

/// Whether nothing more happens to any of these tasks.
pub open spec fn all_done(tasks: Seq<Task>) -> bool {
    forall|i: int| 0 <= i < tasks.len() ==> (#[trigger] tasks[i]).state.done()
}

impl Board {
    /// The queue is never longer than what can run at a time, its tasks have numbers of their
    /// own, no more events are kept than are replayed, and a run goes on only while some task
    /// is not done.
    pub open spec fn wf(self) -> bool {
        &&& self.tasks.len() <= MAX_BATCH_TASKS
        &&& forall|i: int| 0 <= i < self.tasks.len() ==> (#[trigger] self.tasks[i]).id < self.next_id
        &&& forall|i: int, j: int|
            0 <= i < j < self.tasks.len() ==> (#[trigger] self.tasks[i]).id != (
            #[trigger] self.tasks[j]).id
        &&& self.replay.len() <= SSE_REPLAY_CAPACITY
        &&& self.running ==> !all_done(self.tasks)
    }

    /// The board after an event has been sent.
    pub open spec fn telling(self, event: Told) -> Board {
        Board {
            replay: replay::kept(self.replay, SSE_REPLAY_CAPACITY as nat, event.line()),
            ..self
        }
    }

    /// The board after the first task with a number has changed, if there is one.
    pub open spec fn with(self, id: nat, change: spec_fn(Task) -> Task) -> Board {
        match position(self.tasks, id) {
            Some(i) => Board { tasks: self.tasks.update(i, change(self.tasks[i])), ..self },
            None => self,
        }
    }

    /// The board once it is known whether the run has come to its end.
    pub open spec fn settled(self) -> Board {
        Board { running: self.running && !all_done(self.tasks), ..self }
    }
}

/// The position of the first task with a number.
pub open spec fn position(tasks: Seq<Task>, id: nat) -> Option<int>
    decreases tasks.len(),
{
    if tasks.len() == 0 {
        None
    } else {
        match position(tasks.drop_last(), id) {
            Some(i) => Some(i),
            None => if tasks.last().id == id {
                Some(tasks.len() - 1)
            } else {
                None
            },
        }
    }
}

proof fn lemma_position(tasks: Seq<Task>, id: nat)
    ensures
        match position(tasks, id) {
            Some(i) => 0 <= i < tasks.len() && tasks[i].id == id && (forall|j: int|
                0 <= j < i ==> (#[trigger] tasks[j]).id != id),
            None => forall|j: int| 0 <= j < tasks.len() ==> (#[trigger] tasks[j]).id != id,
        },
    decreases tasks.len(),
{
    if tasks.len() > 0 {
        lemma_position(tasks.drop_last(), id);
        assert forall|j: int| 0 <= j < tasks.len() - 1 implies #[trigger] tasks[j]
            == tasks.drop_last()[j] by {}
    }
}

fn find_task(tasks: &[TaskEntry], id: usize) -> (r: Option<usize>)
    ensures
        match r {
            Some(i) => i < tasks@.len() && position(tasks_view(tasks@), id as nat) == Some(i as int),
            None => position(tasks_view(tasks@), id as nat) is None,
        },
{
    let ghost all = tasks_view(tasks@);
    let total: usize = tasks.len();
    let mut i: usize = 0;
    while i < total
        invariant
            i <= total,
            total == tasks@.len(),
            all == tasks_view(tasks@),
            forall|j: int| 0 <= j < i ==> (#[trigger] all[j]).id != id,
        decreases total - i,
    {
        if tasks[i].id == id {
            proof {
                lemma_position(all, id as nat);
                assert(all[i as int].id == id);
            }
            return Some(i);
        }
        i = i + 1;
    }
    proof {
        lemma_position(all, id as nat);
    }
    None
}

/// A change that keeps a task's number keeps the board in order.
proof fn lemma_change_keeps_order(board: Board, id: nat, change: spec_fn(Task) -> Task)
    requires
        board.wf(),
        forall|t: Task| (#[trigger] change(t)).id == t.id,
    ensures
        ({
            let after = board.with(id, change);
            &&& after.tasks.len() == board.tasks.len()
            &&& after.settled().wf()
            &&& (forall|t: Task| !(#[trigger] change(t)).state.done() || t.state.done())
                ==> after.wf()
        }),
{
    lemma_position(board.tasks, id);
    let after = board.with(id, change);
    if position(board.tasks, id) is Some {
        let at = position(board.tasks, id)->0;
        assert forall|i: int, j: int| 0 <= i < j < after.tasks.len() implies (
        #[trigger] after.tasks[i]).id != (#[trigger] after.tasks[j]).id by {
            assert(board.tasks[i].id != board.tasks[j].id);
        }
        if board.running && all_done(after.tasks) && (forall|t: Task|
            !(#[trigger] change(t)).state.done() || t.state.done()) {
            assert forall|i: int| 0 <= i < board.tasks.len() implies (
            #[trigger] board.tasks[i]).state.done() by {
                assert(after.tasks[i].state.done());
                if i == at {
                    assert(!change(board.tasks[i]).state.done() || board.tasks[i].state.done());
                }
            }
        }
    }
}

/// Adds the version to an event and puts it among the lines to replay.
pub fn serialize_and_push_event(
    replay: &mut VecDeque<String>,
    payload: serde_json::Map<String, serde_json::Value>,
) -> (r: Option<String>)
    ensures
        r matches Some(line) && line@ == event::versioned(json::members(payload)),
        text::views(final(replay)@) == replay::kept(
            text::views(old(replay)@),
            SSE_REPLAY_CAPACITY as nat,
            event::versioned(json::members(payload)),
        ),
{
    let mut payload = payload;
    json::put_number(
        &mut payload,
        "protocol_version",
        event::DASHBOARD_EVENT_PROTOCOL_VERSION as u64,
    );
    match json::to_text(&payload) {
        Some(data) => {
            replay::keep(replay, SSE_REPLAY_CAPACITY, data.clone());
            Some(data)
        },
        None => None,
    }
}

impl DashboardState {
    /// A dashboard with an empty queue.
    pub fn new() -> (r: DashboardState)
        ensures
            r@ == (Board {
                tasks: Seq::empty(),
                next_id: 0,
                running: false,
                replay: Seq::empty(),
            }),
            r@.wf(),
    {
        let r = DashboardState {
            tasks: Vec::new(),
            next_id: 0,
            running: false,
            replay: VecDeque::with_capacity(SSE_REPLAY_CAPACITY),
        };
        proof {
            assert(r@.tasks =~= Seq::empty());
            assert(r@.replay =~= Seq::empty());
        }
        r
    }

    /// Keeps an event for new subscribers, and gives the line that the others get.
    pub fn push_event(&mut self, payload: serde_json::Map<String, serde_json::Value>) -> (r: String)
        ensures
            r@ == event::versioned(json::members(payload)),
            final(self)@ == (Board {
                replay: replay::kept(
                    old(self)@.replay,
                    SSE_REPLAY_CAPACITY as nat,
                    event::versioned(json::members(payload)),
                ),
                ..old(self)@
            }),
            old(self)@.wf() ==> final(self)@.wf(),
    {
        match serialize_and_push_event(&mut self.replay, payload) {
            Some(line) => line,
            None => String::new(),
        }
    }

    fn tell(&mut self, event: &DashboardSseEvent) -> (r: String)
        ensures
            r@ == event@.line(),
            final(self)@ == old(self)@.telling(event@),
            old(self)@.wf() ==> final(self)@.wf(),
    {
        let object = event.to_object();
        self.push_event(object)
    }
}

/// Ends the run once every task is done. With no task at all, every task is done.
pub fn maybe_clear_running(s: &mut DashboardState)
    ensures
        final(s)@ == old(s)@.settled(),
{
    let ghost all = tasks_view(s.tasks@);
    let total: usize = s.tasks.len();
    let mut i: usize = 0;
    while i < total
        invariant
            i <= total,
            total == s.tasks@.len(),
            *s == *old(s),
            all == tasks_view(s.tasks@),
            forall|j: int| 0 <= j < i ==> (#[trigger] all[j]).state.done(),
        decreases total - i,
    {
        if !s.tasks[i].state.is_done() {
            proof {
                assert(!all[i as int].state.done());
            }
            return;
        }
        i = i + 1;
    }
    s.running = false;
}

/// The board after a task has been asked for, and the answer.
pub open spec fn added(
    board: Board,
    dir: Seq<char>,
    loaded: Result<LoadedTask, String>,
) -> (Board, Option<Told>) {
    match loaded {
        Ok(found) if !board.running && board.tasks.len() < MAX_BATCH_TASKS => {
            let name = text::opt_view(found.definition.name);
            let description = text::opt_view(found.definition.description);
            let event = Told::Loaded { id: board.next_id, name, description };
            (
                Board {
                    tasks: board.tasks.push(
                        task::queued_task(board.next_id, dir, name, description),
                    ),
                    next_id: board.next_id + 1,
                    ..board
                }.telling(event),
                Some(event),
            )
        },
        _ => (board, None),
    }
}

/// The lines that subscribers get for an event, if there is one.
pub open spec fn opt_line(event: Option<Told>) -> Option<Seq<char>> {
    match event {
        Some(e) => Some(e.line()),
        None => None,
    }
}

/// Queues the task in a directory, given what became of loading it. A run admits no task, and
/// neither does a full queue.
pub fn add_task(s: &mut DashboardState, dir: String, loaded: Result<LoadedTask, String>) -> (r: (
    Reply,
    Option<String>,
))
    requires
        old(s).next_id < usize::MAX,
    ensures
        final(s)@ == added(old(s)@, dir@, loaded).0,
        text::opt_view(r.1) == opt_line(added(old(s)@, dir@, loaded).1),
        answers_add(r.0, old(s)@, loaded),
        if old(s).running {
            r.0 matches Reply::Conflict { error } && error@ == "tasks are already running"@
        } else if old(s).tasks@.len() >= MAX_BATCH_TASKS {
            r.0 matches Reply::BadRequest { error } && error@ == "queue is full (max 4)"@
        } else {
            match loaded {
                Ok(_) => r.0 == (Reply::Created { id: old(s).next_id }),
                Err(message) => r.0 matches Reply::BadRequest { error } && error@ == message@,
            }
        },
        old(s)@.wf() ==> final(s)@.wf(),
{
    if s.running {
        return (Reply::Conflict { error: "tasks are already running".to_owned() }, None);
    }
    if s.tasks.len() >= MAX_BATCH_TASKS {
        return (Reply::BadRequest { error: "queue is full (max 4)".to_owned() }, None);
    }
    let found = match loaded {
        Ok(found) => found,
        Err(error) => {
            return (Reply::BadRequest { error }, None);
        },
    };
    let name = found.definition.name.clone();
    let description = found.definition.description.clone();
    let id: usize = s.next_id;
    s.next_id = id + 1;
    let ghost before = s.tasks@;
    let entry = TaskEntry::queued(id, dir, name.clone(), description.clone());
    s.tasks.push(entry);
    proof {
        assert(tasks_view(s.tasks@) =~= tasks_view(before).push(entry@));
    }
    let line = s.tell(&DashboardSseEvent::Loaded { id, name, description });
    proof {
        let board = old(s)@;
        let now = s@;
        if board.wf() {
            assert forall|i: int, j: int| 0 <= i < j < now.tasks.len() implies (
            #[trigger] now.tasks[i]).id != (#[trigger] now.tasks[j]).id by {
                assert(now.tasks[i] == board.tasks[i]);
                if j < board.tasks.len() {
                    assert(now.tasks[j] == board.tasks[j]);
                }
            }
        }
    }
    (Reply::Created { id }, Some(line))
}

/// Takes a task out of the queue. While tasks run none is taken out.
pub fn remove_task(s: &mut DashboardState, id: usize) -> (r: Reply)
    ensures
        answers_removal(r, old(s)@, final(s)@, id as nat),
        ({
            let board = old(s)@;
            if board.running {
                &&& r matches Reply::Conflict { error } && error@
                    == "cannot remove tasks while running"@
                &&& final(s)@ == board
            } else {
                match position(board.tasks, id as nat) {
                    Some(i) => r is NoContent && final(s)@ == (Board {
                        tasks: board.tasks.remove(i),
                        ..board
                    }),
                    None => {
                        &&& r matches Reply::NotFound { error } && error@ == "task not found"@
                        &&& final(s)@ == board
                    },
                }
            }
        }),
        old(s)@.wf() ==> final(s)@.wf(),
{
    if s.running {
        return Reply::Conflict { error: "cannot remove tasks while running".to_owned() };
    }
    match find_task(&s.tasks, id) {
        Some(i) => {
            let ghost before = s.tasks@;
            let _ = s.tasks.remove(i);
            proof {
                assert(tasks_view(s.tasks@) =~= tasks_view(before).remove(i as int));
                let board = old(s)@;
                let now = s@;
                if board.wf() {
                    assert forall|a: int, b: int| 0 <= a < b < now.tasks.len() implies (
                    #[trigger] now.tasks[a]).id != (#[trigger] now.tasks[b]).id by {
                        let a2 = if a < i {
                            a
                        } else {
                            a + 1
                        };
                        let b2 = if b < i {
                            b
                        } else {
                            b + 1
                        };
                        assert(board.tasks[a2].id != board.tasks[b2].id);
                    }
                }
            }
            Reply::NoContent
        },
        None => Reply::NotFound { error: "task not found".to_owned() },
    }
}

/// The queued ones of these tasks, with their directories, in order.
pub open spec fn queued(tasks: Seq<Task>) -> Seq<(nat, Seq<char>)>
    decreases tasks.len(),
{
    if tasks.len() == 0 {
        Seq::empty()
    } else {
        let before = queued(tasks.drop_last());
        if tasks.last().state == TaskState::Queued {
            before.push((tasks.last().id, tasks.last().dir))
        } else {
            before
        }
    }
}

/// What a list of tasks to run holds.
pub open spec fn to_run(list: Seq<(usize, String)>) -> Seq<(nat, Seq<char>)> {
    list.map_values(|t: (usize, String)| (t.0 as nat, t.1@))
}

proof fn lemma_queued_are_not_done(tasks: Seq<Task>)
    requires
        queued(tasks).len() > 0,
    ensures
        !all_done(tasks),
    decreases tasks.len(),
{
    if tasks.last().state != TaskState::Queued {
        lemma_queued_are_not_done(tasks.drop_last());
        let last = tasks.drop_last();
        let i = choose|i: int| 0 <= i < last.len() && !(#[trigger] last[i]).state.done();
        assert(!tasks[i].state.done());
    } else {
        assert(!tasks[tasks.len() - 1].state.done());
    }
}

fn list_queued(tasks: &[TaskEntry]) -> (r: Vec<(usize, String)>)
    ensures
        to_run(r@) == queued(tasks_view(tasks@)),
{
    let ghost all = tasks_view(tasks@);
    let mut out: Vec<(usize, String)> = Vec::new();
    let total: usize = tasks.len();
    let mut i: usize = 0;
    proof {
        assert(to_run(out@) =~= queued(all.take(0)));
    }
    while i < total
        invariant
            i <= total,
            total == tasks@.len(),
            all == tasks_view(tasks@),
            to_run(out@) == queued(all.take(i as int)),
        decreases total - i,
    {
        let ghost before = out@;
        proof {
            assert(all.take(i + 1).drop_last() =~= all.take(i as int));
            assert(all.take(i + 1).last() == all[i as int]);
        }
        if tasks[i].state == TaskState::Queued {
            out.push((tasks[i].id, tasks[i].dir.clone()));
            proof {
                assert(to_run(out@) =~= to_run(before).push((all[i as int].id, all[i as int].dir)));
            }
        }
        i = i + 1;
    }
    assert(all.take(i as int) =~= all);
    out
}

/// Starts a run. Gives the tasks to run, each to be started on its own, or the answer of a
/// dashboard that cannot start one.
pub fn run_tasks(s: &mut DashboardState) -> (r: Result<Vec<(usize, String)>, Reply>)
    ensures
        answers_run(r, old(s)@, final(s)@),
        ({
            let board = old(s)@;
            if board.running {
                &&& r matches Err(Reply::Conflict { error }) && error@ == "already running"@
                &&& final(s)@ == board
            } else if board.tasks.len() == 0 {
                &&& r matches Err(Reply::BadRequest { error }) && error@ == "no tasks in queue"@
                &&& final(s)@ == board
            } else if queued(board.tasks).len() == 0 {
                &&& r matches Err(Reply::BadRequest { error }) && error@ == "no queued tasks"@
                &&& final(s)@ == board
            } else {
                &&& r matches Ok(list) && to_run(list@) == queued(board.tasks)
                &&& final(s)@ == (Board { running: true, ..board })
            }
        }),
        old(s)@.wf() ==> final(s)@.wf(),
{
    if s.running {
        return Err(Reply::Conflict { error: "already running".to_owned() });
    }
    if s.tasks.len() == 0 {
        return Err(Reply::BadRequest { error: "no tasks in queue".to_owned() });
    }
    let list = list_queued(&s.tasks);
    assert(to_run(list@).len() == list@.len());
    if list.len() == 0 {
        return Err(Reply::BadRequest { error: "no queued tasks".to_owned() });
    }
    proof {
        lemma_queued_are_not_done(s@.tasks);
    }
    s.running = true;
    Ok(list)
}

/// The message for a task that could not be started.
pub open spec fn spawn_failure(reason: Seq<char>) -> Seq<char> {
    "failed to spawn task worker thread: "@ + reason
}

/// Notes that a task of a run could not be started.
pub fn task_not_started(s: &mut DashboardState, id: usize, reason: &str) -> (r: String)
    ensures
        ({
            let message = spawn_failure(reason@);
            let event = Told::Finished {
                id: id as nat,
                success: false,
                elapsed_ms: None,
                output: None,
                error: Some(message),
                chain_steps: Seq::empty(),
                chain_failed_step_index: None,
            };
            &&& r@ == event.line()
            &&& final(s)@ == old(s)@.with(
                id as nat,
                |t: Task| Task { state: TaskState::Failed, error: Some(message), ..t },
            ).telling(event).settled()
        }),
        old(s)@.wf() ==> final(s)@.wf(),
{
    let message = text::cat2("failed to spawn task worker thread: ", reason);
    let ghost change = |t: Task|
        Task { state: TaskState::Failed, error: Some(spawn_failure(reason@)), ..t };
    if let Some(i) = find_task(&s.tasks, id) {
        let ghost before = s.tasks@;
        s.tasks[i].state = TaskState::Failed;
        s.tasks[i].error = Some(message.clone());
        proof {
            assert(tasks_view(s.tasks@) =~= tasks_view(before).update(
                i as int,
                change(before[i as int]@),
            ));
        }
    }
    assert(s@ == old(s)@.with(id as nat, change));
    let chain_steps: Vec<ChainStepEntry> = Vec::new();
    let event = DashboardSseEvent::Finished {
        id,
        success: false,
        elapsed_ms: None,
        output: None,
        error: Some(message),
        chain_steps,
        chain_failed_step_index: None,
    };
    assert(event::steps(chain_steps@) =~= Seq::empty());
    let line = s.tell(&event);
    maybe_clear_running(s);
    proof {
        if old(s)@.wf() {
            lemma_change_keeps_order(old(s)@, id as nat, change);
        }
    }
    line
}

/// Answers a request to run, once it is known whether any task could be started.
pub fn run_reply(s: &mut DashboardState, started_any: bool) -> (r: Reply)
    ensures
        if started_any {
            r is Accepted && final(s)@ == old(s)@
        } else {
            &&& r matches Reply::InternalServerError { error } && error@
                == "failed to start task worker threads"@
            &&& final(s)@ == old(s)@.settled()
        },
        old(s)@.wf() ==> final(s)@.wf(),
{
    if !started_any {
        maybe_clear_running(s);
        return Reply::InternalServerError {
            error: "failed to start task worker threads".to_owned(),
        };
    }
    Reply::Accepted
}

/// Notes that a task of a run has been started.
pub fn task_started(s: &mut DashboardState, id: usize) -> (r: String)
    ensures
        ({
            let event = Told::Phase { id: id as nat, phase: "StartingVm"@ };
            &&& r@ == event.line()
            &&& final(s)@ == old(s)@.with(
                id as nat,
                |t: Task| Task { state: TaskState::Running, ..t },
            ).telling(event)
        }),
        old(s)@.wf() ==> final(s)@.wf(),
{
    let ghost change = |t: Task| Task { state: TaskState::Running, ..t };
    if let Some(i) = find_task(&s.tasks, id) {
        let ghost before = s.tasks@;
        s.tasks[i].state = TaskState::Running;
        proof {
            assert(tasks_view(s.tasks@) =~= tasks_view(before).update(
                i as int,
                change(before[i as int]@),
            ));
        }
    }
    assert(s@ == old(s)@.with(id as nat, change));
    proof {
        if old(s)@.wf() {
            lemma_change_keeps_order(old(s)@, id as nat, change);
        }
    }
    s.tell(&DashboardSseEvent::Phase { id, phase: "StartingVm".to_owned() })
}

/// Where a chain has left its output: where its last task did, or where the first one would have.
pub open spec fn output_of(task_path: Seq<char>, result: ChainRunResult) -> Seq<char> {
    if result.steps@.len() == 0 {
        path::joined(task_path, "output"@)
    } else {
        result.steps@.last().run_result.output_dir@
    }
}

/// A task whose run has come to its end.
pub open spec fn finished(
    task: Task,
    task_path: Seq<char>,
    result: Result<ChainRunResult, Error>,
    elapsed_ms: nat,
) -> Task {
    match result {
        Ok(chain) => task::synced(
            Task {
                state: TaskState::Succeeded,
                elapsed_ms: Some(elapsed_ms),
                output: Some(output_of(task_path, chain)),
                ..task
            },
            chain.steps@,
        ),
        Err(err) => task::with_failure(
            Task {
                state: TaskState::Failed,
                elapsed_ms: Some(elapsed_ms),
                error: Some(err.text()),
                ..task
            },
            err.text(),
        ),
    }
}

/// The event for a task whose run has come to its end.
pub open spec fn finished_event(
    board: Board,
    id: nat,
    task_path: Seq<char>,
    result: Result<ChainRunResult, Error>,
    elapsed_ms: nat,
) -> Told {
    let (chain_steps, chain_failed_step_index) = match position(board.tasks, id) {
        Some(i) => {
            let task = finished(board.tasks[i], task_path, result, elapsed_ms);
            (task.chain_steps, task.chain_failed_step_index)
        },
        None => (Seq::empty(), None),
    };
    Told::Finished {
        id,
        success: result is Ok,
        elapsed_ms: Some(elapsed_ms),
        output: match result {
            Ok(chain) => Some(output_of(task_path, chain)),
            Err(_) => None,
        },
        error: match result {
            Ok(_) => None,
            Err(err) => Some(err.text()),
        },
        chain_steps,
        chain_failed_step_index,
    }
}

/// Notes that the run of a task has come to its end, and whether all have.
pub fn task_finished(
    s: &mut DashboardState,
    id: usize,
    task_path: &str,
    result: &Result<ChainRunResult, Error>,
    elapsed_ms: u64,
) -> (r: String)
    ensures
        ({
            let event = finished_event(
                old(s)@,
                id as nat,
                task_path@,
                *result,
                elapsed_ms as nat,
            );
            &&& r@ == event.line()
            &&& final(s)@ == old(s)@.with(
                id as nat,
                |t: Task| finished(t, task_path@, *result, elapsed_ms as nat),
            ).telling(event).settled()
        }),
        old(s)@.wf() ==> final(s)@.wf(),
{
    let ghost change = |t: Task| finished(t, task_path@, *result, elapsed_ms as nat);
    let at: Option<usize> = find_task(&s.tasks, id);
    let ghost before = s.tasks@;
    let mut chain_steps: Vec<ChainStepEntry> = Vec::new();
    let mut chain_failed_step_index: Option<usize> = None;
    let mut output: Option<String> = None;
    let mut error: Option<String> = None;
    let success = match result {
        Ok(chain) => {
            let n: usize = chain.steps.len();
            let place = if n == 0 {
                path::join(task_path, "output")
            } else {
                chain.steps[n - 1].run_result.output_dir.clone()
            };
            if let Some(i) = at {
                let entry = &mut s.tasks[i];
                entry.state = TaskState::Succeeded;
                entry.elapsed_ms = Some(elapsed_ms);
                entry.output = Some(place.clone());
                sync_chain_steps_from_result(entry, chain);
                chain_steps = event::copy_steps(&s.tasks[i].chain_steps);
                chain_failed_step_index = s.tasks[i].chain_failed_step_index;
            }
            output = Some(place);
            true
        },
        Err(err) => {
            let reason = err.describe();
            if let Some(i) = at {
                let entry = &mut s.tasks[i];
                entry.state = TaskState::Failed;
                entry.elapsed_ms = Some(elapsed_ms);
                entry.error = Some(reason.clone());
                mark_chain_failure(entry, reason.as_str());
                chain_steps = event::copy_steps(&s.tasks[i].chain_steps);
                chain_failed_step_index = s.tasks[i].chain_failed_step_index;
            }
            error = Some(reason);
            false
        },
    };
    proof {
        if let Some(i) = at {
            assert(tasks_view(s.tasks@) =~= tasks_view(before).update(
                i as int,
                change(before[i as int]@),
            ));
        } else {
            assert(event::steps(chain_steps@) =~= Seq::empty());
        }
        assert(s@ == old(s)@.with(id as nat, change));
    }
    let event = DashboardSseEvent::Finished {
        id,
        success,
        elapsed_ms: Some(elapsed_ms),
        output,
        error,
        chain_steps,
        chain_failed_step_index,
    };
    let line = s.tell(&event);
    maybe_clear_running(s);
    proof {
        if old(s)@.wf() {
            lemma_change_keeps_order(old(s)@, id as nat, change);
        }
    }
    line
}

/// What a run's progress does to its task.
pub open spec fn progressed(task: Task, progress: RunProgress) -> Task {
    match progress {
        RunProgress::Phase(phase) => Task { phase: Some(task::phase_name(phase)), ..task },
        RunProgress::ScriptStarted { script, index, total } => Task {
            current_script: Some(script@),
            script_index: index as nat,
            script_total: total as nat,
            ..task
        },
        RunProgress::ScriptFinished { index, total, .. } => Task {
            script_index: index as nat,
            script_total: total as nat,
            ..task
        },
        RunProgress::VmProgressLine { line } => Task {
            vm_progress_lines: task.vm_progress_lines.push(line@),
            ..task
        },
        RunProgress::ScriptOutputLine { line } => Task {
            script_output_lines: task.script_output_lines.push(line@),
            ..task
        },
    }
}

/// The event for a run's progress.
pub open spec fn progress_event(id: nat, progress: RunProgress) -> Told {
    match progress {
        RunProgress::Phase(phase) => Told::Phase { id, phase: task::phase_name(phase) },
        RunProgress::ScriptStarted { script, index, total } => Told::Script {
            id,
            name: script@,
            index: index as nat,
            total: total as nat,
            done: false,
        },
        RunProgress::ScriptFinished { script, index, total } => Told::Script {
            id,
            name: script@,
            index: index as nat,
            total: total as nat,
            done: true,
        },
        RunProgress::VmProgressLine { line } => Told::VmProgress { id, line: line@ },
        RunProgress::ScriptOutputLine { line } => Told::ScriptLog { id, line: line@ },
    }
}

fn note_progress(entry: &mut TaskEntry, progress: &RunProgress)
    ensures
        final(entry)@ == progressed(old(entry)@, *progress),
{
    let ghost before = *entry;
    match progress {
        RunProgress::Phase(phase) => {
            entry.phase = Some(worker_phase_label(*phase).to_owned());
        },
        RunProgress::ScriptStarted { script, index, total } => {
            entry.current_script = Some(script.clone());
            entry.script_index = *index;
            entry.script_total = *total;
        },
        RunProgress::ScriptFinished { script: _, index, total } => {
            entry.script_index = *index;
            entry.script_total = *total;
        },
        RunProgress::VmProgressLine { line } => {
            entry.vm_progress_lines.push(line.clone());
            assert(text::views(entry.vm_progress_lines@) =~= text::views(
                before.vm_progress_lines@,
            ).push(line@));
        },
        RunProgress::ScriptOutputLine { line } => {
            entry.script_output_lines.push(line.clone());
            assert(text::views(entry.script_output_lines@) =~= text::views(
                before.script_output_lines@,
            ).push(line@));
        },
    }
}

/// Shows how far the run of a task has come. A task that is not in the queue is passed over,
/// but the event is sent all the same.
pub fn forward_progress(s: &mut DashboardState, id: usize, progress: &RunProgress) -> (r: String)
    ensures
        r@ == progress_event(id as nat, *progress).line(),
        final(s)@ == old(s)@.with(id as nat, |t: Task| progressed(t, *progress)).telling(
            progress_event(id as nat, *progress),
        ),
        old(s)@.wf() ==> final(s)@.wf(),
{
    let ghost change = |t: Task| progressed(t, *progress);
    if let Some(i) = find_task(&s.tasks, id) {
        let ghost before = s.tasks@;
        note_progress(&mut s.tasks[i], progress);
        proof {
            assert(tasks_view(s.tasks@) =~= tasks_view(before).update(
                i as int,
                change(before[i as int]@),
            ));
        }
    }
    assert(s@ == old(s)@.with(id as nat, change));
    proof {
        if old(s)@.wf() {
            lemma_change_keeps_order(old(s)@, id as nat, change);
        }
    }
    let event = match progress {
        RunProgress::Phase(phase) => DashboardSseEvent::Phase {
            id,
            phase: worker_phase_label(*phase).to_owned(),
        },
        RunProgress::ScriptStarted { script, index, total } => DashboardSseEvent::Script {
            id,
            name: script.clone(),
            index: *index,
            total: *total,
            done: false,
        },
        RunProgress::ScriptFinished { script, index, total } => DashboardSseEvent::Script {
            id,
            name: script.clone(),
            index: *index,
            total: *total,
            done: true,
        },
        RunProgress::VmProgressLine { line } => DashboardSseEvent::VmProgress {
            id,
            line: line.clone(),
        },
        RunProgress::ScriptOutputLine { line } => DashboardSseEvent::ScriptLog {
            id,
            line: line.clone(),
        },
    };
    s.tell(&event)
}

/// What the start of a step does to the task whose chain it belongs to.
pub open spec fn stepped(task: Task, step: ChainStepProgress) -> Task {
    match step {
        ChainStepProgress::StepStarted { step_index, total_steps, task_dir, task_name } =>
        task::with_step(
            task,
            step_index as nat,
            total_steps as nat,
            task_dir@,
            text::opt_view(task_name),
        ),
    }
}

/// The event for the start of a step.
pub open spec fn step_event(id: nat, step: ChainStepProgress) -> Told {
    match step {
        ChainStepProgress::StepStarted { step_index, total_steps, task_dir, task_name } =>
        Told::ChainStep {
            id,
            step_index: step_index as nat,
            total_steps: total_steps as nat,
            task_name: text::opt_view(task_name),
            task_dir: task_dir@,
        },
    }
}

/// Shows which step of a task's chain has been started.
pub fn forward_chain_step(s: &mut DashboardState, id: usize, step: &ChainStepProgress) -> (r: String)
    ensures
        r@ == step_event(id as nat, *step).line(),
        final(s)@ == old(s)@.with(id as nat, |t: Task| stepped(t, *step)).telling(
            step_event(id as nat, *step),
        ),
        old(s)@.wf() ==> final(s)@.wf(),
{
    let ghost change = |t: Task| stepped(t, *step);
    match step {
        ChainStepProgress::StepStarted { step_index, total_steps, task_dir, task_name } => {
            if let Some(i) = find_task(&s.tasks, id) {
                let ghost before = s.tasks@;
                start_chain_step(
                    &mut s.tasks[i],
                    *step_index,
                    *total_steps,
                    task_dir.as_str(),
                    task_name,
                );
                proof {
                    assert(tasks_view(s.tasks@) =~= tasks_view(before).update(
                        i as int,
                        change(before[i as int]@),
                    ));
                }
            }
            assert(s@ == old(s)@.with(id as nat, change));
            proof {
                if old(s)@.wf() {
                    lemma_change_keeps_order(old(s)@, id as nat, change);
                }
            }
            s.tell(
                &DashboardSseEvent::ChainStep {
                    id,
                    step_index: *step_index,
                    total_steps: *total_steps,
                    task_name: task_name.clone(),
                    task_dir: task_dir.clone(),
                },
            )
        },
    }
}

/// The values of several tasks.
pub open spec fn task_values(tasks: Seq<Task>) -> Seq<Json> {
    tasks.map_values(|t: Task| Json::Object(t.members()))
}

/// Writes the queue as an object.
pub fn get_status(s: &DashboardState) -> (r: serde_json::Map<String, serde_json::Value>)
    ensures
        json::members(r) == json::no_members().insert(
            "tasks"@,
            Json::List(task_values(s@.tasks)),
        ).insert("running"@, Json::Flag(s.running)),
{
    let ghost all = tasks_view(s.tasks@);
    let mut out: Vec<serde_json::Value> = Vec::new();
    let total: usize = s.tasks.len();
    let mut i: usize = 0;
    while i < total
        invariant
            i <= total,
            total == s.tasks@.len(),
            all == tasks_view(s.tasks@),
            json::trees(out@) == task_values(all.take(i as int)),
        decreases total - i,
    {
        let object = s.tasks[i].to_object();
        let value = json::object_value(object);
        let ghost before = out@;
        out.push(value);
        proof {
            assert(json::trees(out@) =~= json::trees(before).push(json::tree(value)));
            assert(task_values(all.take(i + 1)) =~= task_values(all.take(i as int)).push(
                Json::Object(all[i as int].members()),
            ));
        }
        i = i + 1;
    }
    assert(all.take(i as int) =~= all);
    let mut object = json::object();
    let list = json::list_value(out);
    json::put(&mut object, "tasks", list);
    json::put_flag(&mut object, "running", s.running);
    object
}

/// The number that the next task gets belongs to none of those in the queue.
pub proof fn law_next_id_is_fresh(board: Board)
    requires
        board.wf(),
    ensures
        position(board.tasks, board.next_id) is None,
{
    lemma_position(board.tasks, board.next_id);
}

/// The queue never grows beyond its limit: a full one takes no task, and stays as it is.
pub proof fn law_queue_stays_within_its_limit(
    board: Board,
    dir: Seq<char>,
    loaded: Result<LoadedTask, String>,
)
    requires
        board.wf(),
    ensures
        added(board, dir, loaded).0.tasks.len() <= MAX_BATCH_TASKS,
        board.tasks.len() == MAX_BATCH_TASKS ==> added(board, dir, loaded).0 == board,
        board.tasks.len() == MAX_BATCH_TASKS ==> added(board, dir, loaded).1 is None,
{
}

/// A task that was queued can be found under its number, and taking it out again leaves the
/// queue as it was.
pub proof fn law_remove_undoes_add(board: Board, dir: Seq<char>, loaded: Result<LoadedTask, String>)
    requires
        board.wf(),
        added(board, dir, loaded).1 is Some,
    ensures
        ({
            let after = added(board, dir, loaded).0;
            &&& position(after.tasks, board.next_id) == Some(board.tasks.len() as int)
            &&& after.tasks.remove(board.tasks.len() as int) == board.tasks
        }),
{
    let after = added(board, dir, loaded).0;
    lemma_position(after.tasks, board.next_id);
    assert(after.tasks.last().id == board.next_id);
    assert forall|i: int| 0 <= i < board.tasks.len() implies #[trigger] after.tasks[i]
        == board.tasks[i] by {}
    assert(after.tasks.remove(board.tasks.len() as int) =~= board.tasks);
}

/// Progress and chain steps never touch another task than the one they belong to.
pub proof fn law_others_stay(
    board: Board,
    id: nat,
    progress: RunProgress,
    step: ChainStepProgress,
    other: int,
)
    requires
        board.wf(),
        0 <= other < board.tasks.len(),
        board.tasks[other].id != id,
    ensures
        board.with(id, |t: Task| progressed(t, progress)).tasks[other] == board.tasks[other],
        board.with(id, |t: Task| stepped(t, step)).tasks[other] == board.tasks[other],
{
    lemma_position(board.tasks, id);
}

/// A run comes to its end with the last of its tasks, and not before.
pub proof fn law_run_ends_with_its_last_task(
    board: Board,
    id: nat,
    task_path: Seq<char>,
    result: Result<ChainRunResult, Error>,
    elapsed_ms: nat,
)
    requires
        board.wf(),
        board.running,
        position(board.tasks, id) is Some,
    ensures
        ({
            let after = board.with(
                id,
                |t: Task| finished(t, task_path, result, elapsed_ms),
            ).settled();
            after.running <==> exists|i: int|
                0 <= i < board.tasks.len() && (#[trigger] board.tasks[i]).id != id
                    && !board.tasks[i].state.done()
        }),
{
    lemma_position(board.tasks, id);
    let change = |t: Task| finished(t, task_path, result, elapsed_ms);
    let after = board.with(id, change);
    let at = position(board.tasks, id)->0;
    assert(after.tasks[at].state.done());
    if !all_done(after.tasks) {
        let i = choose|i: int| 0 <= i < after.tasks.len() && !(#[trigger] after.tasks[i]).state.done();
        assert(i != at);
        assert(board.tasks[i] == after.tasks[i]);
        if i < at {
            assert(board.tasks[i].id != board.tasks[at].id);
        } else {
            assert(board.tasks[at].id != board.tasks[i].id);
        }
    }
    if exists|i: int|
        0 <= i < board.tasks.len() && (#[trigger] board.tasks[i]).id != id
            && !board.tasks[i].state.done() {
        let i = choose|i: int|
            0 <= i < board.tasks.len() && (#[trigger] board.tasks[i]).id != id
                && !board.tasks[i].state.done();
        assert(after.tasks[i] == board.tasks[i]);
    }
}

/// What listeners are told of a task's progress is what the board shows of the task afterwards,
/// and nothing but what they are told changes.
pub proof fn law_board_shows_what_is_told(task: Task, id: nat, progress: RunProgress)
    ensures
        ({
            let after = progressed(task, progress);
            match progress_event(id, progress) {
                Told::Phase { id: told, phase } => told == id && after.phase == Some(phase) && after
                    == (Task { phase: after.phase, ..task }) && progress is Phase,
                Told::Script { id: told, name, index, total, done } => {
                    &&& told == id && after.script_index == index && after.script_total == total
                    &&& done <==> progress is ScriptFinished
                    &&& !done <==> progress is ScriptStarted
                    &&& !done ==> after.current_script == Some(name)
                    &&& done ==> after.current_script == task.current_script
                    &&& after == (Task {
                        script_index: index,
                        script_total: total,
                        current_script: after.current_script,
                        ..task
                    })
                },
                Told::VmProgress { id: told, line } => told == id && after == (Task {
                    vm_progress_lines: task.vm_progress_lines.push(line),
                    ..task
                }) && progress is VmProgressLine,
                Told::ScriptLog { id: told, line } => told == id && after == (Task {
                    script_output_lines: task.script_output_lines.push(line),
                    ..task
                }) && progress is ScriptOutputLine,
                _ => false,
            }
        }),
{
}

/// The end of a task is told as the board shows it: whether it succeeded, how long it took, where
/// its output is or why it failed, and what became of each step of its chain.
pub proof fn law_end_of_a_task_is_told(
    board: Board,
    id: nat,
    task_path: Seq<char>,
    result: Result<ChainRunResult, Error>,
    elapsed_ms: nat,
)
    requires
        position(board.tasks, id) is Some,
    ensures
        ({
            let task = board.tasks[position(board.tasks, id)->0];
            let after = finished(task, task_path, result, elapsed_ms);
            let told = finished_event(board, id, task_path, result, elapsed_ms);
            &&& told is Finished && told->Finished_id == id
            &&& told->success <==> result is Ok
            &&& told->success <==> after.state == TaskState::Succeeded
            &&& !told->success <==> after.state == TaskState::Failed
            &&& told->elapsed_ms == Some(elapsed_ms) && after.elapsed_ms == Some(elapsed_ms)
            &&& told->success ==> told->output == after.output && told->output is Some && told->error is None
            &&& !told->success ==> told->error == after.error && told->error is Some && told->output is None
            &&& told->chain_steps == after.chain_steps
            &&& told->chain_failed_step_index == after.chain_failed_step_index
            &&& after.id == task.id && after.dir == task.dir && after.name == task.name
        }),
{
}

/// The output of a task is that of the last step of its chain.
pub proof fn law_output_is_that_of_the_last_step(task_path: Seq<char>, result: ChainRunResult)
    ensures
        result.steps@.len() > 0 ==> output_of(task_path, result) == result.steps@[result.steps@.len()
            - 1].run_result.output_dir@,
        result.steps@.len() == 0 ==> task_path.is_prefix_of(output_of(task_path, result)) && (
        "output"@).is_suffix_of(output_of(task_path, result)),
{
    reveal_strlit("output");
    path::lemma_joined_ends(task_path, "output"@);
}

/// The start of a chain's step is told as the board shows it.
pub proof fn law_start_of_a_step_is_told(task: Task, id: nat, step: ChainStepProgress)
    ensures
        ({
            let after = stepped(task, step);
            let told = step_event(id, step);
            &&& told is ChainStep && told->ChainStep_id == id
            &&& told->step_index == after.chain_step_index
            &&& told->total_steps == after.chain_step_total
            &&& told->ChainStep_task_name == after.chain_current_task
            &&& 1 <= told->step_index <= told->total_steps
                ==> after.chain_steps[told->step_index - 1].task_dir == Some(
                told->ChainStep_task_dir,
            )
        }),
{
}

/// The tasks that are run are those that wait, in their order.
pub proof fn law_waiting_tasks_are_run(tasks: Seq<Task>, i: int)
    requires
        0 <= i < tasks.len(),
    ensures
        tasks[i].state == TaskState::Queued ==> queued(tasks).contains((tasks[i].id, tasks[i].dir)),
        queued(tasks).len() <= tasks.len(),
        forall|k: int|
            0 <= k < queued(tasks).len() ==> exists|j: int|
                0 <= j < tasks.len() && (#[trigger] tasks[j]).state == TaskState::Queued
                    && #[trigger] queued(tasks)[k] == (tasks[j].id, tasks[j].dir),
    decreases tasks.len(),
{
    let before = tasks.drop_last();
    let list = queued(tasks);
    let last = tasks.last();
    if before.len() > 0 {
        law_waiting_tasks_are_run(
            before,
            if i < before.len() {
                i
            } else {
                0
            },
        );
    } else {
        assert(queued(before).len() == 0);
    }
    if i < before.len() {
        assert(before[i] == tasks[i]);
        if tasks[i].state == TaskState::Queued {
            let k = choose|k: int|
                0 <= k < queued(before).len() && queued(before)[k] == (tasks[i].id, tasks[i].dir);
            assert(list[k] == (tasks[i].id, tasks[i].dir));
        }
    } else if last.state == TaskState::Queued {
        assert(list[list.len() - 1] == (last.id, last.dir));
    }
    assert forall|k: int| 0 <= k < list.len() implies exists|j: int|
        0 <= j < tasks.len() && (#[trigger] tasks[j]).state == TaskState::Queued
            && #[trigger] list[k] == (tasks[j].id, tasks[j].dir) by {
        if k < queued(before).len() {
            assert(list[k] == queued(before)[k]);
            let j = choose|j: int|
                0 <= j < before.len() && (#[trigger] before[j]).state == TaskState::Queued
                    && queued(before)[k] == (before[j].id, before[j].dir);
            assert(tasks[j] == before[j]);
        } else {
            assert(tasks[tasks.len() - 1] == last);
        }
    }
}

/// A task is added exactly if it can be loaded, nothing runs, and there is room: it waits, behind
/// all others, with the name and the description that were loaded, and listeners are told.
pub proof fn law_added_task_waits(board: Board, dir: Seq<char>, loaded: Result<LoadedTask, String>)
    ensures
        ({
            let (after, told) = added(board, dir, loaded);
            &&& told is Some <==> loaded is Ok && !board.running && board.tasks.len() < 4
            &&& told is None ==> after == board
            &&& told matches Some(event) ==> {
                let task = after.tasks.last();
                &&& after.tasks.len() == board.tasks.len() + 1
                &&& after.tasks.drop_last() == board.tasks
                &&& after.next_id == board.next_id + 1
                &&& task.id == board.next_id && task.dir == dir && task.state == TaskState::Queued
                &&& event is Loaded && event->Loaded_id == task.id && event->Loaded_name
                    == task.name && event->description == task.description
                &&& task.name == text::opt_view(loaded->Ok_0.definition.name)
                &&& task.description == text::opt_view(loaded->Ok_0.definition.description)
                &&& after.replay.len() > 0 && after.replay.last() == event.line()
            }
        }),
{
    let (after, told) = added(board, dir, loaded);
    if let Some(event) = told {
        assert(after.tasks.drop_last() =~= board.tasks);
    }
}

/// Whether `reply` is the answer to a request to add a task.
pub open spec fn answers_add(reply: Reply, board: Board, loaded: Result<LoadedTask, String>) -> bool {
    if board.running {
        reply matches Reply::Conflict { error } && error@ == "tasks are already running"@
    } else if board.tasks.len() >= MAX_BATCH_TASKS {
        reply matches Reply::BadRequest { error } && error@ == "queue is full (max 4)"@
    } else {
        match loaded {
            Ok(_) => reply matches Reply::Created { id } && id as nat == board.next_id,
            Err(message) => reply matches Reply::BadRequest { error } && error@ == message@,
        }
    }
}

/// Whether `reply` is the answer to a request to take a task out, with what became of the board.
pub open spec fn answers_removal(reply: Reply, board: Board, after: Board, id: nat) -> bool {
    if board.running {
        &&& reply matches Reply::Conflict { error } && error@ == "cannot remove tasks while running"@
        &&& after == board
    } else {
        match position(board.tasks, id) {
            Some(i) => reply is NoContent && after == (Board {
                tasks: board.tasks.remove(i),
                ..board
            }),
            None => {
                &&& reply matches Reply::NotFound { error } && error@ == "task not found"@
                &&& after == board
            },
        }
    }
}

/// Whether `r` is the answer to a request to run the tasks, with what became of the board.
pub open spec fn answers_run(
    r: Result<Vec<(usize, String)>, Reply>,
    board: Board,
    after: Board,
) -> bool {
    if board.running {
        &&& r matches Err(Reply::Conflict { error }) && error@ == "already running"@
        &&& after == board
    } else if board.tasks.len() == 0 {
        &&& r matches Err(Reply::BadRequest { error }) && error@ == "no tasks in queue"@
        &&& after == board
    } else if queued(board.tasks).len() == 0 {
        &&& r matches Err(Reply::BadRequest { error }) && error@ == "no queued tasks"@
        &&& after == board
    } else {
        &&& r matches Ok(list) && to_run(list@) == queued(board.tasks)
        &&& after == (Board { running: true, ..board })
    }
}

/// A task is added exactly if nothing runs, there is room and it can be loaded, under the number
/// that the board then shows. While tasks run the request is in conflict with them; otherwise a
/// refused request is at fault itself, and one for a task that cannot be loaded is told why.
pub proof fn law_answer_to_an_added_task(
    reply: Reply,
    board: Board,
    dir: Seq<char>,
    loaded: Result<LoadedTask, String>,
)
    requires
        answers_add(reply, board, loaded),
    ensures
        reply is Created <==> added(board, dir, loaded).1 is Some,
        reply is Created ==> reply->id as nat == added(board, dir, loaded).0.tasks.last().id,
        reply is Conflict <==> board.running,
        reply is BadRequest <==> !board.running && (board.tasks.len() >= 4 || loaded is Err),
        !board.running && board.tasks.len() < 4 && loaded is Err ==> reply->BadRequest_error@
            == loaded->Err_0@,
        !(reply is Created) ==> added(board, dir, loaded).0 == board,
{
}

/// A task is taken out exactly if nothing runs and the task is there. Then it is gone and all
/// others stay, in their order; a request that is refused changes nothing.
pub proof fn law_answer_to_a_removal(reply: Reply, board: Board, after: Board, id: nat)
    requires
        board.wf(),
        answers_removal(reply, board, after, id),
    ensures
        reply is Conflict <==> board.running,
        reply is NotFound <==> !board.running && position(board.tasks, id) is None,
        reply is NoContent <==> !board.running && position(board.tasks, id) is Some,
        !(reply is NoContent) ==> after == board,
        reply is NoContent ==> {
            &&& after.tasks.len() == board.tasks.len() - 1
            &&& after.running == board.running && after.next_id == board.next_id
            &&& forall|i: int|
                0 <= i < after.tasks.len() ==> (#[trigger] after.tasks[i]).id != id
            &&& forall|i: int|
                0 <= i < board.tasks.len() && (#[trigger] board.tasks[i]).id != id
                    ==> after.tasks.contains(board.tasks[i])
        },
{
    if reply is NoContent {
        lemma_position(board.tasks, id);
        let at = position(board.tasks, id)->0;
        assert forall|i: int| 0 <= i < after.tasks.len() implies (#[trigger] after.tasks[i]).id
            != id by {
            if i < at {
                assert(after.tasks[i] == board.tasks[i]);
                assert(board.tasks[i].id != board.tasks[at].id);
            } else {
                assert(after.tasks[i] == board.tasks[i + 1]);
                assert(board.tasks[at].id != board.tasks[i + 1].id);
            }
        }
        assert forall|i: int|
            0 <= i < board.tasks.len() && (#[trigger] board.tasks[i]).id
                != id implies after.tasks.contains(board.tasks[i]) by {
            if i < at {
                assert(after.tasks[i] == board.tasks[i]);
            } else {
                assert(after.tasks[i - 1] == board.tasks[i]);
            }
        }
    }
}

/// A run starts exactly if none is under way and a task waits; then every task that waits is run.
/// A request that is refused changes nothing.
pub proof fn law_answer_to_a_run(
    r: Result<Vec<(usize, String)>, Reply>,
    board: Board,
    after: Board,
)
    requires
        answers_run(r, board, after),
    ensures
        r is Ok <==> !board.running && queued(board.tasks).len() > 0,
        r matches Err(reply) ==> after == board && (reply is Conflict <==> board.running) && (
        reply is BadRequest <==> !board.running),
        r matches Ok(list) ==> after.running && after.tasks == board.tasks && list@.len() == queued(
            board.tasks,
        ).len() && forall|k: int|
            0 <= k < list@.len() ==> (#[trigger] list@[k]).0 as nat == queued(board.tasks)[k].0
                && list@[k].1@ == queued(board.tasks)[k].1,
{
    if let Ok(list) = r {
        let all = to_run(list@);
        assert forall|k: int| 0 <= k < list@.len() implies (#[trigger] list@[k]).0 as nat == queued(
            board.tasks,
        )[k].0 && list@[k].1@ == queued(board.tasks)[k].1 by {
            assert(all[k] == (list@[k].0 as nat, list@[k].1@));
        }
    }
    if board.tasks.len() == 0 {
        assert(queued(board.tasks).len() == 0);
    }
}

} // verus!
