//! The dashboard on which jobs are queued, run and watched.

use std::collections::VecDeque;
use vstd::prelude::*;

use crate::batch::error::Error;
use crate::batch::job::JobDefinition;
use crate::batch::result::RunResult;
use crate::batch::runner::RunPhase;
use crate::json;
use crate::json::Json;
use crate::replay;
use crate::replay::SSE_REPLAY_CAPACITY;
use crate::reply::Reply;
use crate::text;

verus! {

/// How many jobs the queue holds.
pub const MAX_QUEUE_JOBS: usize = 4;

/// How many lines of a script's output are shown.
pub const RECENT_LOGS: usize = 10;

#[derive(Debug, Clone, Copy, PartialEq, Eq, Structural)]
pub enum JobState {
    Queued,
    Running,
    Succeeded,
    Failed,
}

impl JobState {
    /// Whether nothing more happens to a job in this state.
    pub open spec fn done(self) -> bool {
        self == JobState::Succeeded || self == JobState::Failed
    }

    /// The name of the state on the dashboard.
    pub open spec fn name(self) -> Seq<char> {
        match self {
            JobState::Queued => "queued"@,
            JobState::Running => "running"@,
            JobState::Succeeded => "succeeded"@,
            JobState::Failed => "failed"@,
        }
    }

    pub fn is_done(&self) -> (r: bool)
        ensures
            r == self.done(),
    {
        matches!(self, JobState::Succeeded | JobState::Failed)
    }

    pub fn label(&self) -> (r: &'static str)
        ensures
            r@ == self.name(),
    {
        match self {
            JobState::Queued => "queued",
            JobState::Running => "running",
            JobState::Succeeded => "succeeded",
            JobState::Failed => "failed",
        }
    }
}

/// How far the run of a job has come.
#[derive(Debug, PartialEq, Eq)]
pub enum RunProgress {
    Phase(RunPhase),
    /// A script was started; its number among all counts from 1.
    ScriptStarted { script: String, index: usize, total: usize },
    ScriptFinished { script: String, index: usize, total: usize },
    LogLine { line: String },
}

/// A job in the queue, as the dashboard shows it.
#[derive(Debug)]
pub struct JobEntry {
    pub id: usize,
    pub dir: String,
    pub name: Option<String>,
    pub description: Option<String>,
    pub state: JobState,
    pub phase: Option<String>,
    pub script_index: usize,
    pub script_total: usize,
    pub current_script: Option<String>,
    pub recent_logs: VecDeque<String>,
    pub elapsed_ms: Option<u64>,
    pub error: Option<String>,
    pub output: Option<String>,
}

/// What a `JobEntry` holds.
#[verifier::ext_equal]
pub struct Job {
    pub id: nat,
    pub dir: Seq<char>,
    pub name: Option<Seq<char>>,
    pub description: Option<Seq<char>>,
    pub state: JobState,
    pub phase: Option<Seq<char>>,
    pub script_index: nat,
    pub script_total: nat,
    pub current_script: Option<Seq<char>>,
    pub recent_logs: Seq<Seq<char>>,
    pub elapsed_ms: Option<u64>,
    pub error: Option<Seq<char>>,
    pub output: Option<Seq<char>>,
}

impl View for JobEntry {
    type V = Job;

    open spec fn view(&self) -> Job {
        Job {
            id: self.id as nat,
            dir: self.dir@,
            name: text::opt_view(self.name),
            description: text::opt_view(self.description),
            state: self.state,
            phase: text::opt_view(self.phase),
            script_index: self.script_index as nat,
            script_total: self.script_total as nat,
            current_script: text::opt_view(self.current_script),
            recent_logs: text::views(self.recent_logs@),
            elapsed_ms: self.elapsed_ms,
            error: text::opt_view(self.error),
            output: text::opt_view(self.output),
        }
    }
}

/// A job that has just been queued.
pub open spec fn queued_job(
    id: nat,
    dir: Seq<char>,
    name: Option<Seq<char>>,
    description: Option<Seq<char>>,
) -> Job {
    Job {
        id,
        dir,
        name,
        description,
        state: JobState::Queued,
        phase: None,
        script_index: 0,
        script_total: 0,
        current_script: None,
        recent_logs: Seq::empty(),
        elapsed_ms: None,
        error: None,
        output: None,
    }
}

pub struct DashboardState {
    pub jobs: Vec<JobEntry>,
    pub next_id: usize,
    pub running: bool,
    /// The last events, which a new subscriber gets first.
    pub replay: VecDeque<String>,
}

/// What a `DashboardState` holds.
#[verifier::ext_equal]
pub struct Board {
    pub jobs: Seq<Job>,
    pub next_id: nat,
    pub running: bool,
    pub replay: Seq<Seq<char>>,
}

/// What several jobs hold.
pub open spec fn jobs_view(entries: Seq<JobEntry>) -> Seq<Job> {
    entries.map_values(|j: JobEntry| j@)
}

impl View for DashboardState {
    type V = Board;

    open spec fn view(&self) -> Board {
        Board {
            jobs: jobs_view(self.jobs@),
            next_id: self.next_id as nat,
            running: self.running,
            replay: text::views(self.replay@),
        }
    }
}

/// Whether nothing more happens to any of these jobs.
pub open spec fn all_done(jobs: Seq<Job>) -> bool {
    forall|i: int| 0 <= i < jobs.len() ==> (#[trigger] jobs[i]).state.done()
}

impl Board {
    /// The queue is never longer than it may be, its jobs have numbers of their own, and no more
    /// events and lines are kept than are shown.
    pub open spec fn wf(self) -> bool {
        &&& self.jobs.len() <= MAX_QUEUE_JOBS
        &&& forall|i: int|
            0 <= i < self.jobs.len() ==> (#[trigger] self.jobs[i]).id < self.next_id
                && self.jobs[i].recent_logs.len() <= RECENT_LOGS
        &&& forall|i: int, j: int|
            0 <= i < j < self.jobs.len() ==> (#[trigger] self.jobs[i]).id != (
            #[trigger] self.jobs[j]).id
        &&& self.replay.len() <= SSE_REPLAY_CAPACITY
    }

    /// The board after an event with these members has been sent.
    pub open spec fn telling(self, members: Map<Seq<char>, Json>) -> Board {
        Board {
            replay: replay::kept(
                self.replay,
                SSE_REPLAY_CAPACITY as nat,
                json::json_text(members),
            ),
            ..self
        }
    }

    /// The board after the first job with a number has changed, if there is one.
    pub open spec fn with(self, id: nat, change: spec_fn(Job) -> Job) -> Board {
        match position(self.jobs, id) {
            Some(i) => Board { jobs: self.jobs.update(i, change(self.jobs[i])), ..self },
            None => self,
        }
    }

    /// The board once it is known whether the run has come to its end.
    pub open spec fn settled(self) -> Board {
        Board { running: self.running && !all_done(self.jobs), ..self }
    }
}

/// The position of the first job with a number.
pub open spec fn position(jobs: Seq<Job>, id: nat) -> Option<int>
    decreases jobs.len(),
{
    if jobs.len() == 0 {
        None
    } else {
        match position(jobs.drop_last(), id) {
            Some(i) => Some(i),
            None => if jobs.last().id == id {
                Some(jobs.len() - 1)
            } else {
                None
            },
        }
    }
}

proof fn lemma_position(jobs: Seq<Job>, id: nat)
    ensures
        match position(jobs, id) {
            Some(i) => 0 <= i < jobs.len() && jobs[i].id == id && (forall|j: int|
                0 <= j < i ==> (#[trigger] jobs[j]).id != id),
            None => forall|j: int| 0 <= j < jobs.len() ==> (#[trigger] jobs[j]).id != id,
        },
    decreases jobs.len(),
{
    if jobs.len() > 0 {
        lemma_position(jobs.drop_last(), id);
        assert forall|j: int| 0 <= j < jobs.len() - 1 implies #[trigger] jobs[j]
            == jobs.drop_last()[j] by {}
    }
}

fn find_job(jobs: &[JobEntry], id: usize) -> (r: Option<usize>)
    ensures
        match r {
            Some(i) => i < jobs@.len() && position(jobs_view(jobs@), id as nat) == Some(i as int),
            None => position(jobs_view(jobs@), id as nat) is None,
        },
{
    let ghost all = jobs_view(jobs@);
    let total: usize = jobs.len();
    let mut i: usize = 0;
    while i < total
        invariant
            i <= total,
            total == jobs@.len(),
            all == jobs_view(jobs@),
            forall|j: int| 0 <= j < i ==> (#[trigger] all[j]).id != id,
        decreases total - i,
    {
        if jobs[i].id == id {
            proof {
                lemma_position(all, id as nat);
                assert(all[i as int].id == id);
            }
            return Some(i);
        }
        i = i + 1;
    }
    proof {
        lemma_position(all, id as nat);
    }
    None
}

/// A change that keeps a job's number, and no more lines than are shown, keeps the board in order.
proof fn lemma_change_keeps_order(board: Board, id: nat, change: spec_fn(Job) -> Job)
    requires
        board.wf(),
        forall|j: Job|
            (#[trigger] change(j)).id == j.id && (j.recent_logs.len() <= RECENT_LOGS ==> change(
                j,
            ).recent_logs.len() <= RECENT_LOGS),
    ensures
        board.with(id, change).wf(),
{
    lemma_position(board.jobs, id);
    let after = board.with(id, change);
    if position(board.jobs, id) is Some {
        assert forall|i: int, j: int| 0 <= i < j < after.jobs.len() implies (
        #[trigger] after.jobs[i]).id != (#[trigger] after.jobs[j]).id by {
            assert(board.jobs[i].id != board.jobs[j].id);
        }
    }
}

impl DashboardState {
    /// A dashboard with an empty queue.
    pub fn new() -> (r: DashboardState)
        ensures
            r@ == (Board {
                jobs: Seq::empty(),
                next_id: 0,
                running: false,
                replay: Seq::empty(),
            }),
            r@.wf(),
    {
        let r = DashboardState {
            jobs: Vec::new(),
            next_id: 0,
            running: false,
            replay: VecDeque::with_capacity(SSE_REPLAY_CAPACITY),
        };
        proof {
            assert(r@.jobs =~= Seq::empty());
            assert(r@.replay =~= Seq::empty());
        }
        r
    }

    /// Keeps an event for new subscribers, and gives the line that the others get.
    pub fn push_event(&mut self, event: serde_json::Map<String, serde_json::Value>) -> (r: String)
        ensures
            r@ == json::json_text(json::members(event)),
            final(self)@ == old(self)@.telling(json::members(event)),
            old(self)@.wf() ==> final(self)@.wf(),
    {
        match json::to_text(&event) {
            Some(line) => {
                replay::keep(&mut self.replay, SSE_REPLAY_CAPACITY, line.clone());
                line
            },
            None => String::new(),
        }
    }
}

/// The members that every event has.
pub open spec fn tagged(tag: Seq<char>, id: nat) -> Map<Seq<char>, Json> {
    json::no_members().insert("type"@, Json::Text(tag)).insert("id"@, Json::Number(id))
}

fn tagged_object(tag: &str, id: usize) -> (r: serde_json::Map<String, serde_json::Value>)
    ensures
        json::members(r) == tagged(tag@, id as nat),
{
    let mut object = json::object();
    json::put_text(&mut object, "type", tag);
    json::put_number(&mut object, "id", id as u64);
    object
}

/// Ends the run once every job is done. With no job at all, every job is done.
pub fn maybe_clear_running(s: &mut DashboardState)
    ensures
        final(s)@ == old(s)@.settled(),
        old(s)@.wf() ==> final(s)@.wf(),
{
    let ghost all = jobs_view(s.jobs@);
    let total: usize = s.jobs.len();
    let mut i: usize = 0;
    while i < total
        invariant
            i <= total,
            total == s.jobs@.len(),
            *s == *old(s),
            all == jobs_view(s.jobs@),
            forall|j: int| 0 <= j < i ==> (#[trigger] all[j]).state.done(),
        decreases total - i,
    {
        if !s.jobs[i].state.is_done() {
            proof {
                assert(!all[i as int].state.done());
            }
            return;
        }
        i = i + 1;
    }
    s.running = false;
}

/// The event for a job that has been queued.
pub open spec fn loaded_members(
    id: nat,
    name: Option<Seq<char>>,
    description: Option<Seq<char>>,
) -> Map<Seq<char>, Json> {
    tagged("loaded"@, id).insert("name"@, json::text_or_null(name)).insert(
        "description"@,
        json::text_or_null(description),
    )
}

/// Queues the job in a directory, given what became of loading it. A run admits no job, and
/// neither does a full queue.
pub fn add_job(
    s: &mut DashboardState,
    dir: String,
    loaded: Result<(JobDefinition, String, String), String>,
) -> (r: (Reply, Option<String>))
    requires
        old(s).next_id < usize::MAX,
    ensures
        answers_add(r.0, old(s)@, final(s)@, dir@, loaded),
        ({
            let board = old(s)@;
            if board.running {
                &&& r.0 matches Reply::Conflict { error } && error@ == "jobs are already running"@
                &&& r.1 is None
                &&& final(s)@ == board
            } else if board.jobs.len() >= MAX_QUEUE_JOBS {
                &&& r.0 matches Reply::BadRequest { error } && error@ == "queue is full (max 4)"@
                &&& r.1 is None
                &&& final(s)@ == board
            } else {
                match loaded {
                    Err(message) => {
                        &&& r.0 matches Reply::BadRequest { error } && error@ == message@
                        &&& r.1 is None
                        &&& final(s)@ == board
                    },
                    Ok(found) => {
                        let name = text::opt_view(found.0.name);
                        let description = text::opt_view(found.0.description);
                        let event = loaded_members(board.next_id, name, description);
                        &&& r.0 == (Reply::Created { id: old(s).next_id })
                        &&& r.1 matches Some(line) && line@ == json::json_text(event)
                        &&& final(s)@ == (Board {
                            jobs: board.jobs.push(
                                queued_job(board.next_id, dir@, name, description),
                            ),
                            next_id: board.next_id + 1,
                            ..board
                        }).telling(event)
                    },
                }
            }
        }),
        old(s)@.wf() ==> final(s)@.wf(),
{
    if s.running {
        return (Reply::Conflict { error: "jobs are already running".to_owned() }, None);
    }
    if s.jobs.len() >= MAX_QUEUE_JOBS {
        return (Reply::BadRequest { error: "queue is full (max 4)".to_owned() }, None);
    }
    let found = match loaded {
        Ok(found) => found,
        Err(error) => {
            return (Reply::BadRequest { error }, None);
        },
    };
    let id: usize = s.next_id;
    s.next_id = id + 1;
    let mut event = tagged_object("loaded", id);
    json::put_text_or_null(&mut event, "name", &found.0.name);
    json::put_text_or_null(&mut event, "description", &found.0.description);
    let entry = JobEntry {
        id,
        dir,
        name: found.0.name.clone(),
        description: found.0.description.clone(),
        state: JobState::Queued,
        phase: None,
        script_index: 0,
        script_total: 0,
        current_script: None,
        recent_logs: VecDeque::new(),
        elapsed_ms: None,
        error: None,
        output: None,
    };
    let ghost before = s.jobs@;
    s.jobs.push(entry);
    proof {
        assert(entry@.recent_logs =~= Seq::empty());
        assert(jobs_view(s.jobs@) =~= jobs_view(before).push(entry@));
    }
    let ghost now = s@;
    proof {
        let board = old(s)@;
        if board.wf() {
            assert forall|i: int, j: int| 0 <= i < j < now.jobs.len() implies (
            #[trigger] now.jobs[i]).id != (#[trigger] now.jobs[j]).id by {
                assert(now.jobs[i] == board.jobs[i]);
                if j < board.jobs.len() {
                    assert(now.jobs[j] == board.jobs[j]);
                }
            }
            assert(now.wf());
        }
    }
    let line = s.push_event(event);
    (Reply::Created { id }, Some(line))
}

/// Takes a job out of the queue. While jobs run none is taken out.
pub fn remove_job(s: &mut DashboardState, id: usize) -> (r: Reply)
    ensures
        answers_removal(r, old(s)@, final(s)@, id as nat),
        ({
            let board = old(s)@;
            if board.running {
                &&& r matches Reply::Conflict { error } && error@
                    == "cannot remove jobs while running"@
                &&& final(s)@ == board
            } else {
                match position(board.jobs, id as nat) {
                    Some(i) => r is NoContent && final(s)@ == (Board {
                        jobs: board.jobs.remove(i),
                        ..board
                    }),
                    None => {
                        &&& r matches Reply::NotFound { error } && error@ == "job not found"@
                        &&& final(s)@ == board
                    },
                }
            }
        }),
        old(s)@.wf() ==> final(s)@.wf(),
{
    if s.running {
        return Reply::Conflict { error: "cannot remove jobs while running".to_owned() };
    }
    match find_job(&s.jobs, id) {
        Some(i) => {
            let ghost before = s.jobs@;
            let _ = s.jobs.remove(i);
            proof {
                assert(jobs_view(s.jobs@) =~= jobs_view(before).remove(i as int));
                let board = old(s)@;
                let now = s@;
                if board.wf() {
                    assert forall|a: int, b: int| 0 <= a < b < now.jobs.len() implies (
                    #[trigger] now.jobs[a]).id != (#[trigger] now.jobs[b]).id by {
                        let a2 = if a < i {
                            a
                        } else {
                            a + 1
                        };
                        let b2 = if b < i {
                            b
                        } else {
                            b + 1
                        };
                        assert(board.jobs[a2].id != board.jobs[b2].id);
                    }
                }
            }
            Reply::NoContent
        },
        None => Reply::NotFound { error: "job not found".to_owned() },
    }
}

/// The queued ones of these jobs, with their directories, in order.
pub open spec fn queued(jobs: Seq<Job>) -> Seq<(nat, Seq<char>)>
    decreases jobs.len(),
{
    if jobs.len() == 0 {
        Seq::empty()
    } else {
        let before = queued(jobs.drop_last());
        if jobs.last().state == JobState::Queued {
            before.push((jobs.last().id, jobs.last().dir))
        } else {
            before
        }
    }
}

/// What a list of jobs to run holds.
pub open spec fn to_run(list: Seq<(usize, String)>) -> Seq<(nat, Seq<char>)> {
    list.map_values(|t: (usize, String)| (t.0 as nat, t.1@))
}

/// Starts a run. Gives the jobs to run, each to be started on its own, or the answer of a
/// dashboard that cannot start one.
pub fn run_jobs(s: &mut DashboardState) -> (r: Result<Vec<(usize, String)>, Reply>)
    ensures
        answers_run(r, old(s)@, final(s)@),
        ({
            let board = old(s)@;
            if board.running {
                &&& r matches Err(Reply::Conflict { error }) && error@ == "already running"@
                &&& final(s)@ == board
            } else if board.jobs.len() == 0 {
                &&& r matches Err(Reply::BadRequest { error }) && error@ == "no jobs in queue"@
                &&& final(s)@ == board
            } else {
                &&& r matches Ok(list) && to_run(list@) == queued(board.jobs)
                &&& final(s)@ == (Board { running: true, ..board })
            }
        }),
        old(s)@.wf() ==> final(s)@.wf(),
{
    if s.running {
        return Err(Reply::Conflict { error: "already running".to_owned() });
    }
    let total: usize = s.jobs.len();
    if total == 0 {
        return Err(Reply::BadRequest { error: "no jobs in queue".to_owned() });
    }
    s.running = true;
    let ghost now = *s;
    let ghost all = jobs_view(s.jobs@);
    let mut out: Vec<(usize, String)> = Vec::new();
    let mut i: usize = 0;
    proof {
        assert(to_run(out@) =~= queued(all.take(0)));
    }
    while i < total
        invariant
            i <= total,
            total == s.jobs@.len(),
            *s == now,
            all == jobs_view(s.jobs@),
            to_run(out@) == queued(all.take(i as int)),
        decreases total - i,
    {
        let ghost before = out@;
        proof {
            assert(all.take(i + 1).drop_last() =~= all.take(i as int));
            assert(all.take(i + 1).last() == all[i as int]);
        }
        if s.jobs[i].state == JobState::Queued {
            out.push((s.jobs[i].id, s.jobs[i].dir.clone()));
            proof {
                assert(to_run(out@) =~= to_run(before).push((all[i as int].id, all[i as int].dir)));
            }
        }
        i = i + 1;
    }
    assert(all.take(i as int) =~= all);
    Ok(out)
}

/// The event for a job that could not be loaded.
pub open spec fn unloaded_members(id: nat, error: Seq<char>) -> Map<Seq<char>, Json> {
    tagged("finished"@, id).insert("success"@, Json::Flag(false)).insert("error"@, Json::Text(error))
}

/// Notes that a job of a run could not be loaded.
pub fn job_not_loaded(s: &mut DashboardState, id: usize, error: &str) -> (r: String)
    ensures
        r@ == json::json_text(unloaded_members(id as nat, error@)),
        final(s)@ == old(s)@.with(
            id as nat,
            |j: Job| Job { state: JobState::Failed, error: Some(error@), ..j },
        ).telling(unloaded_members(id as nat, error@)).settled(),
        old(s)@.wf() ==> final(s)@.wf(),
{
    let ghost change = |j: Job| Job { state: JobState::Failed, error: Some(error@), ..j };
    if let Some(i) = find_job(&s.jobs, id) {
        let ghost before = s.jobs@;
        s.jobs[i].state = JobState::Failed;
        s.jobs[i].error = Some(error.to_owned());
        proof {
            assert(jobs_view(s.jobs@) =~= jobs_view(before).update(
                i as int,
                change(before[i as int]@),
            ));
        }
    }
    assert(s@ == old(s)@.with(id as nat, change));
    proof {
        if old(s)@.wf() {
            lemma_change_keeps_order(old(s)@, id as nat, change);
        }
    }
    let mut event = tagged_object("finished", id);
    json::put_flag(&mut event, "success", false);
    json::put_text(&mut event, "error", error);
    let line = s.push_event(event);
    maybe_clear_running(s);
    line
}

/// The event for a phase of a job's run.
pub open spec fn phase_members(id: nat, phase: Seq<char>) -> Map<Seq<char>, Json> {
    tagged("phase"@, id).insert("phase"@, Json::Text(phase))
}

/// Notes that a job of a run has been started.
pub fn job_started(s: &mut DashboardState, id: usize) -> (r: String)
    ensures
        r@ == json::json_text(phase_members(id as nat, "StartingVm"@)),
        final(s)@ == old(s)@.with(
            id as nat,
            |j: Job| Job { state: JobState::Running, ..j },
        ).telling(phase_members(id as nat, "StartingVm"@)),
        old(s)@.wf() ==> final(s)@.wf(),
{
    let ghost change = |j: Job| Job { state: JobState::Running, ..j };
    if let Some(i) = find_job(&s.jobs, id) {
        let ghost before = s.jobs@;
        s.jobs[i].state = JobState::Running;
        proof {
            assert(jobs_view(s.jobs@) =~= jobs_view(before).update(
                i as int,
                change(before[i as int]@),
            ));
        }
    }
    assert(s@ == old(s)@.with(id as nat, change));
    proof {
        if old(s)@.wf() {
            lemma_change_keeps_order(old(s)@, id as nat, change);
        }
    }
    let mut event = tagged_object("phase", id);
    json::put_text(&mut event, "phase", "StartingVm");
    s.push_event(event)
}

/// A job whose run has come to its end.
pub open spec fn finished(
    job: Job,
    output: Seq<char>,
    result: Result<RunResult, Error>,
    elapsed_ms: u64,
) -> Job {
    match result {
        Ok(_) => Job {
            state: JobState::Succeeded,
            elapsed_ms: Some(elapsed_ms),
            output: Some(output),
            ..job
        },
        Err(err) => Job {
            state: JobState::Failed,
            elapsed_ms: Some(elapsed_ms),
            error: Some(err.text()),
            ..job
        },
    }
}

/// The event for a job whose run has come to its end.
pub open spec fn finished_members(
    id: nat,
    output: Seq<char>,
    result: Result<RunResult, Error>,
    elapsed_ms: u64,
) -> Map<Seq<char>, Json> {
    let m = tagged("finished"@, id).insert("success"@, Json::Flag(result is Ok)).insert(
        "elapsed_ms"@,
        Json::Number(elapsed_ms as nat),
    );
    match result {
        Ok(_) => m.insert("output"@, Json::Text(output)),
        Err(err) => m.insert("error"@, Json::Text(err.text())),
    }
}

/// Notes that the run of a job has come to its end, and whether all have.
pub fn job_finished(
    s: &mut DashboardState,
    id: usize,
    output: &str,
    result: &Result<RunResult, Error>,
    elapsed_ms: u64,
) -> (r: String)
    ensures
        r@ == json::json_text(finished_members(id as nat, output@, *result, elapsed_ms)),
        final(s)@ == old(s)@.with(
            id as nat,
            |j: Job| finished(j, output@, *result, elapsed_ms),
        ).telling(finished_members(id as nat, output@, *result, elapsed_ms)).settled(),
        old(s)@.wf() ==> final(s)@.wf(),
{
    let ghost change = |j: Job| finished(j, output@, *result, elapsed_ms);
    let at: Option<usize> = find_job(&s.jobs, id);
    let ghost before = s.jobs@;
    let mut event = tagged_object("finished", id);
    match result {
        Ok(_) => {
            if let Some(i) = at {
                s.jobs[i].state = JobState::Succeeded;
                s.jobs[i].elapsed_ms = Some(elapsed_ms);
                s.jobs[i].output = Some(output.to_owned());
            }
            json::put_flag(&mut event, "success", true);
            json::put_number(&mut event, "elapsed_ms", elapsed_ms);
            json::put_text(&mut event, "output", output);
        },
        Err(err) => {
            let reason = err.describe();
            json::put_flag(&mut event, "success", false);
            json::put_number(&mut event, "elapsed_ms", elapsed_ms);
            json::put_text(&mut event, "error", reason.as_str());
            if let Some(i) = at {
                s.jobs[i].state = JobState::Failed;
                s.jobs[i].elapsed_ms = Some(elapsed_ms);
                s.jobs[i].error = Some(reason);
            }
        },
    }
    proof {
        if let Some(i) = at {
            assert(jobs_view(s.jobs@) =~= jobs_view(before).update(
                i as int,
                change(before[i as int]@),
            ));
        }
        assert(s@ == old(s)@.with(id as nat, change));
        if old(s)@.wf() {
            lemma_change_keeps_order(old(s)@, id as nat, change);
        }
    }
    let line = s.push_event(event);
    maybe_clear_running(s);
    line
}

/// The name of a phase on the dashboard.
pub open spec fn phase_name(phase: RunPhase) -> Seq<char> {
    match phase {
        RunPhase::ValidatingPaths => "ValidatingPaths"@,
        RunPhase::StartingVm => "StartingVm"@,
        RunPhase::PreparingVm => "PreparingVm"@,
        RunPhase::RunningScripts => "RunningScripts"@,
        RunPhase::CollectingOutput => "CollectingOutput"@,
        RunPhase::CleaningUp => "CleaningUp"@,
    }
}

fn phase_label(phase: RunPhase) -> (r: &'static str)
    ensures
        r@ == phase_name(phase),
{
    match phase {
        RunPhase::ValidatingPaths => "ValidatingPaths",
        RunPhase::StartingVm => "StartingVm",
        RunPhase::PreparingVm => "PreparingVm",
        RunPhase::RunningScripts => "RunningScripts",
        RunPhase::CollectingOutput => "CollectingOutput",
        RunPhase::CleaningUp => "CleaningUp",
    }
}

/// What a run's progress does to its job. A new script starts with no lines shown.
pub open spec fn progressed(job: Job, progress: RunProgress) -> Job {
    match progress {
        RunProgress::Phase(phase) => Job { phase: Some(phase_name(phase)), ..job },
        RunProgress::ScriptStarted { script, index, total } => Job {
            current_script: Some(script@),
            script_index: index as nat,
            script_total: total as nat,
            recent_logs: Seq::empty(),
            ..job
        },
        RunProgress::ScriptFinished { index, total, .. } => Job {
            script_index: index as nat,
            script_total: total as nat,
            ..job
        },
        RunProgress::LogLine { line } => Job {
            recent_logs: replay::kept(job.recent_logs, RECENT_LOGS as nat, line@),
            ..job
        },
    }
}

/// The event for a run's progress.
pub open spec fn progress_members(id: nat, progress: RunProgress) -> Map<Seq<char>, Json> {
    match progress {
        RunProgress::Phase(phase) => phase_members(id, phase_name(phase)),
        RunProgress::ScriptStarted { script, index, total } => script_members(
            id,
            script@,
            index as nat,
            total as nat,
            false,
        ),
        RunProgress::ScriptFinished { script, index, total } => script_members(
            id,
            script@,
            index as nat,
            total as nat,
            true,
        ),
        RunProgress::LogLine { line } => tagged("log"@, id).insert("line"@, Json::Text(line@)),
    }
}

/// The event for a script that was started, or is done.
pub open spec fn script_members(
    id: nat,
    name: Seq<char>,
    index: nat,
    total: nat,
    done: bool,
) -> Map<Seq<char>, Json> {
    tagged("script"@, id).insert("name"@, Json::Text(name)).insert(
        "index"@,
        Json::Number(index),
    ).insert("total"@, Json::Number(total)).insert("done"@, Json::Flag(done))
}

fn script_object(id: usize, name: &str, index: usize, total: usize, done: bool) -> (r:
    serde_json::Map<String, serde_json::Value>)
    ensures
        json::members(r) == script_members(id as nat, name@, index as nat, total as nat, done),
{
    let mut event = tagged_object("script", id);
    json::put_text(&mut event, "name", name);
    json::put_number(&mut event, "index", index as u64);
    json::put_number(&mut event, "total", total as u64);
    json::put_flag(&mut event, "done", done);
    event
}

fn note_progress(entry: &mut JobEntry, progress: &RunProgress)
    ensures
        final(entry)@ == progressed(old(entry)@, *progress),
{
    match progress {
        RunProgress::Phase(phase) => {
            entry.phase = Some(phase_label(*phase).to_owned());
        },
        RunProgress::ScriptStarted { script, index, total } => {
            entry.current_script = Some(script.clone());
            entry.script_index = *index;
            entry.script_total = *total;
            entry.recent_logs.clear();
            assert(text::views(entry.recent_logs@) =~= Seq::empty());
        },
        RunProgress::ScriptFinished { script: _, index, total } => {
            entry.script_index = *index;
            entry.script_total = *total;
        },
        RunProgress::LogLine { line } => {
            replay::keep(&mut entry.recent_logs, RECENT_LOGS, line.clone());
        },
    }
}

/// Shows how far the run of a job has come. A job that is not in the queue is passed over, but
/// the event is sent all the same.
pub fn forward_progress(s: &mut DashboardState, id: usize, progress: &RunProgress) -> (r: String)
    ensures
        r@ == json::json_text(progress_members(id as nat, *progress)),
        final(s)@ == old(s)@.with(id as nat, |j: Job| progressed(j, *progress)).telling(
            progress_members(id as nat, *progress),
        ),
        old(s)@.wf() ==> final(s)@.wf(),
{
    let ghost change = |j: Job| progressed(j, *progress);
    if let Some(i) = find_job(&s.jobs, id) {
        let ghost before = s.jobs@;
        note_progress(&mut s.jobs[i], progress);
        proof {
            assert(jobs_view(s.jobs@) =~= jobs_view(before).update(
                i as int,
                change(before[i as int]@),
            ));
        }
    }
    assert(s@ == old(s)@.with(id as nat, change));
    proof {
        if old(s)@.wf() {
            lemma_change_keeps_order(old(s)@, id as nat, change);
        }
    }
    let event = match progress {
        RunProgress::Phase(phase) => {
            let mut event = tagged_object("phase", id);
            json::put_text(&mut event, "phase", phase_label(*phase));
            event
        },
        RunProgress::ScriptStarted { script, index, total } => script_object(
            id,
            script.as_str(),
            *index,
            *total,
            false,
        ),
        RunProgress::ScriptFinished { script, index, total } => script_object(
            id,
            script.as_str(),
            *index,
            *total,
            true,
        ),
        RunProgress::LogLine { line } => {
            let mut event = tagged_object("log", id);
            json::put_text(&mut event, "line", line.as_str());
            event
        },
    };
    s.push_event(event)
}

impl Job {
    /// The members of the job's object. What a job has not is null.
    pub open spec fn members(self) -> Map<Seq<char>, Json> {
        let m = json::no_members().insert("id"@, Json::Number(self.id));
        let m = m.insert("dir"@, Json::Text(self.dir));
        let m = m.insert("name"@, json::text_or_null(self.name));
        let m = m.insert("description"@, json::text_or_null(self.description));
        let m = m.insert("state"@, Json::Text(self.state.name()));
        let m = m.insert("phase"@, json::text_or_null(self.phase));
        let m = m.insert("script_index"@, Json::Number(self.script_index));
        let m = m.insert("script_total"@, Json::Number(self.script_total));
        let m = m.insert("current_script"@, json::text_or_null(self.current_script));
        let m = m.insert("recent_logs"@, Json::List(json::line_values(self.recent_logs)));
        let m = m.insert("elapsed_ms"@, json::number_or_null(json::opt_ms(self.elapsed_ms)));
        let m = m.insert("error"@, json::text_or_null(self.error));
        m.insert("output"@, json::text_or_null(self.output))
    }
}

fn logs_value(lines: &VecDeque<String>) -> (r: serde_json::Value)
    ensures
        json::tree(r) == Json::List(json::line_values(text::views(lines@))),
{
    let mut out: Vec<serde_json::Value> = Vec::new();
    let total: usize = lines.len();
    let mut i: usize = 0;
    while i < total
        invariant
            i <= total,
            total == lines@.len(),
            json::trees(out@) == json::line_values(text::views(lines@.take(i as int))),
        decreases total - i,
    {
        let value = json::text_value(lines[i].as_str());
        let ghost before = out@;
        out.push(value);
        proof {
            assert(json::trees(out@) =~= json::trees(before).push(json::tree(value)));
            assert(json::line_values(text::views(lines@.take(i + 1))) =~= json::line_values(
                text::views(lines@.take(i as int)),
            ).push(Json::Text(lines@[i as int]@)));
        }
        i = i + 1;
    }
    assert(lines@.take(i as int) =~= lines@);
    json::list_value(out)
}

impl JobEntry {
    /// Writes the job as an object.
    pub fn to_object(&self) -> (r: serde_json::Map<String, serde_json::Value>)
        ensures
            json::members(r) == self@.members(),
    {
        let mut object = json::object();
        json::put_number(&mut object, "id", self.id as u64);
        json::put_text(&mut object, "dir", self.dir.as_str());
        json::put_text_or_null(&mut object, "name", &self.name);
        json::put_text_or_null(&mut object, "description", &self.description);
        json::put_text(&mut object, "state", self.state.label());
        json::put_text_or_null(&mut object, "phase", &self.phase);
        json::put_number(&mut object, "script_index", self.script_index as u64);
        json::put_number(&mut object, "script_total", self.script_total as u64);
        json::put_text_or_null(&mut object, "current_script", &self.current_script);
        let logs = logs_value(&self.recent_logs);
        json::put(&mut object, "recent_logs", logs);
        json::put_number_or_null(&mut object, "elapsed_ms", self.elapsed_ms);
        json::put_text_or_null(&mut object, "error", &self.error);
        json::put_text_or_null(&mut object, "output", &self.output);
        object
    }
}

/// The values of several jobs.
pub open spec fn job_values(jobs: Seq<Job>) -> Seq<Json> {
    jobs.map_values(|j: Job| Json::Object(j.members()))
}

/// Writes the queue as an object.
pub fn get_status(s: &DashboardState) -> (r: serde_json::Map<String, serde_json::Value>)
    ensures
        json::members(r) == json::no_members().insert(
            "jobs"@,
            Json::List(job_values(s@.jobs)),
        ).insert("running"@, Json::Flag(s.running)),
{
    let ghost all = jobs_view(s.jobs@);
    let mut out: Vec<serde_json::Value> = Vec::new();
    let total: usize = s.jobs.len();
    let mut i: usize = 0;
    while i < total
        invariant
            i <= total,
            total == s.jobs@.len(),
            all == jobs_view(s.jobs@),
            json::trees(out@) == job_values(all.take(i as int)),
        decreases total - i,
    {
        let object = s.jobs[i].to_object();
        let value = json::object_value(object);
        let ghost before = out@;
        out.push(value);
        proof {
            assert(json::trees(out@) =~= json::trees(before).push(json::tree(value)));
            assert(job_values(all.take(i + 1)) =~= job_values(all.take(i as int)).push(
                Json::Object(all[i as int].members()),
            ));
        }
        i = i + 1;
    }
    assert(all.take(i as int) =~= all);
    let mut object = json::object();
    let list = json::list_value(out);
    json::put(&mut object, "jobs", list);
    json::put_flag(&mut object, "running", s.running);
    object
}

/// The number that the next job gets belongs to none of those in the queue.
pub proof fn law_next_id_is_fresh(board: Board)
    requires
        board.wf(),
    ensures
        position(board.jobs, board.next_id) is None,
{
    lemma_position(board.jobs, board.next_id);
}

/// Progress never touches another job than the one it belongs to.
pub proof fn law_others_stay(board: Board, id: nat, progress: RunProgress, other: int)
    requires
        board.wf(),
        0 <= other < board.jobs.len(),
        board.jobs[other].id != id,
    ensures
        board.with(id, |j: Job| progressed(j, progress)).jobs[other] == board.jobs[other],
{
    lemma_position(board.jobs, id);
}

/// The names of the phases differ.
pub proof fn law_phases_are_told_apart(a: RunPhase, b: RunPhase)
    ensures
        phase_name(a) == phase_name(b) <==> a == b,
{
    reveal_strlit("ValidatingPaths");
    reveal_strlit("StartingVm");
    reveal_strlit("PreparingVm");
    reveal_strlit("RunningScripts");
    reveal_strlit("CollectingOutput");
    reveal_strlit("CleaningUp");
    assert("StartingVm"@[0] == 'S' && "CleaningUp"@[0] == 'C');
    assert("StartingVm"@.len() == 10 && "PreparingVm"@.len() == 11 && "RunningScripts"@.len() == 14);
    assert("CollectingOutput"@.len() == 16 && "CleaningUp"@.len() == 10);
    assert("ValidatingPaths"@.len() == 15);
}

/// A script that starts is shown as the current one, with nothing in its log yet; a script that
/// ends leaves its log; and a line of the log is the last that is shown.
pub proof fn law_progress_of_a_job(job: Job, progress: RunProgress)
    ensures
        ({
            let after = progressed(job, progress);
            match progress {
                RunProgress::Phase(phase) => after == (Job {
                    phase: Some(phase_name(phase)),
                    ..job
                }),
                RunProgress::ScriptStarted { script, index, total } => {
                    &&& after.current_script == Some(script@) && after.recent_logs.len() == 0
                    &&& after.script_index == index && after.script_total == total
                    &&& after.state == job.state && after.phase == job.phase
                },
                RunProgress::ScriptFinished { script, index, total } => {
                    &&& after.current_script == job.current_script
                    &&& after.recent_logs == job.recent_logs
                    &&& after.script_index == index && after.script_total == total
                },
                RunProgress::LogLine { line } => {
                    &&& after.recent_logs.len() > 0 && after.recent_logs.last() == line@
                    &&& after.script_index == job.script_index
                    &&& after.current_script == job.current_script
                },
            }
        }),
{
}

/// A job ends well exactly if its run did: then it shows where its output is, and otherwise why it
/// failed.
pub proof fn law_end_of_a_job(
    job: Job,
    output: Seq<char>,
    result: Result<RunResult, Error>,
    elapsed_ms: u64,
)
    ensures
        ({
            let after = finished(job, output, result, elapsed_ms);
            &&& after.state.done()
            &&& after.state == JobState::Succeeded <==> result is Ok
            &&& after.state == JobState::Failed <==> result is Err
            &&& result is Ok ==> after.output == Some(output) && after.error == job.error
            &&& result matches Err(err) ==> after.error == Some(err.text()) && after.output
                == job.output
            &&& after.elapsed_ms == Some(elapsed_ms)
            &&& after.id == job.id && after.dir == job.dir && after.name == job.name
        }),
{
}

/// The jobs that are run are those that wait, in their order.
pub proof fn law_waiting_jobs_are_run(jobs: Seq<Job>, i: int)
    requires
        0 <= i < jobs.len(),
    ensures
        jobs[i].state == JobState::Queued ==> queued(jobs).contains((jobs[i].id, jobs[i].dir)),
        queued(jobs).len() <= jobs.len(),
        forall|k: int|
            0 <= k < queued(jobs).len() ==> exists|j: int|
                0 <= j < jobs.len() && (#[trigger] jobs[j]).state == JobState::Queued
                    && #[trigger] queued(jobs)[k] == (jobs[j].id, jobs[j].dir),
    decreases jobs.len(),
{
    let before = jobs.drop_last();
    let list = queued(jobs);
    let last = jobs.last();
    if before.len() > 0 {
        law_waiting_jobs_are_run(
            before,
            if i < before.len() {
                i
            } else {
                0
            },
        );
    } else {
        assert(queued(before).len() == 0);
    }
    if i < before.len() {
        assert(before[i] == jobs[i]);
        if jobs[i].state == JobState::Queued {
            let k = choose|k: int|
                0 <= k < queued(before).len() && queued(before)[k] == (jobs[i].id, jobs[i].dir);
            assert(list[k] == (jobs[i].id, jobs[i].dir));
        }
    } else if last.state == JobState::Queued {
        assert(list[list.len() - 1] == (last.id, last.dir));
    }
    assert forall|k: int| 0 <= k < list.len() implies exists|j: int|
        0 <= j < jobs.len() && (#[trigger] jobs[j]).state == JobState::Queued
            && #[trigger] list[k] == (jobs[j].id, jobs[j].dir) by {
        if k < queued(before).len() {
            assert(list[k] == queued(before)[k]);
            let j = choose|j: int|
                0 <= j < before.len() && (#[trigger] before[j]).state == JobState::Queued
                    && queued(before)[k] == (before[j].id, before[j].dir);
            assert(jobs[j] == before[j]);
        } else {
            assert(jobs[jobs.len() - 1] == last);
        }
    }
}

/// Whether `reply` is the answer to a request to add a job, with what became of the board.
pub open spec fn answers_add(
    reply: Reply,
    board: Board,
    after: Board,
    dir: Seq<char>,
    loaded: Result<(JobDefinition, String, String), String>,
) -> bool {
    if board.running {
        &&& reply matches Reply::Conflict { error } && error@ == "jobs are already running"@
        &&& after == board
    } else if board.jobs.len() >= MAX_QUEUE_JOBS {
        &&& reply matches Reply::BadRequest { error } && error@ == "queue is full (max 4)"@
        &&& after == board
    } else {
        match loaded {
            Err(message) => {
                &&& reply matches Reply::BadRequest { error } && error@ == message@
                &&& after == board
            },
            Ok(found) => {
                let name = text::opt_view(found.0.name);
                let description = text::opt_view(found.0.description);
                &&& reply matches Reply::Created { id } && id as nat == board.next_id
                &&& after == (Board {
                    jobs: board.jobs.push(queued_job(board.next_id, dir, name, description)),
                    next_id: board.next_id + 1,
                    ..board
                }).telling(loaded_members(board.next_id, name, description))
            },
        }
    }
}

/// Whether `reply` is the answer to a request to take a job out, with what became of the board.
pub open spec fn answers_removal(reply: Reply, board: Board, after: Board, id: nat) -> bool {
    if board.running {
        &&& reply matches Reply::Conflict { error } && error@ == "cannot remove jobs while running"@
        &&& after == board
    } else {
        match position(board.jobs, id) {
            Some(i) => reply is NoContent && after == (Board {
                jobs: board.jobs.remove(i),
                ..board
            }),
            None => {
                &&& reply matches Reply::NotFound { error } && error@ == "job not found"@
                &&& after == board
            },
        }
    }
}

/// Whether `r` is the answer to a request to run the jobs, with what became of the board.
pub open spec fn answers_run(
    r: Result<Vec<(usize, String)>, Reply>,
    board: Board,
    after: Board,
) -> bool {
    if board.running {
        &&& r matches Err(Reply::Conflict { error }) && error@ == "already running"@
        &&& after == board
    } else if board.jobs.len() == 0 {
        &&& r matches Err(Reply::BadRequest { error }) && error@ == "no jobs in queue"@
        &&& after == board
    } else {
        &&& r matches Ok(list) && to_run(list@) == queued(board.jobs)
        &&& after == (Board { running: true, ..board })
    }
}

/// A job is added exactly if nothing runs, there is room and it can be loaded: it waits behind all
/// others, under the number of the answer, with what was loaded of it. A request that is refused
/// changes nothing.
pub proof fn law_answer_to_an_added_job(
    reply: Reply,
    board: Board,
    after: Board,
    dir: Seq<char>,
    loaded: Result<(JobDefinition, String, String), String>,
)
    requires
        answers_add(reply, board, after, dir, loaded),
    ensures
        reply is Created <==> !board.running && board.jobs.len() < 4 && loaded is Ok,
        reply is Conflict <==> board.running,
        reply is BadRequest <==> !board.running && (board.jobs.len() >= 4 || loaded is Err),
        !board.running && board.jobs.len() < 4 && loaded is Err ==> reply->BadRequest_error@
            == loaded->Err_0@,
        !(reply is Created) ==> after == board,
        reply is Created ==> {
            let job = after.jobs.last();
            &&& after.jobs.len() == board.jobs.len() + 1 && after.jobs.drop_last() == board.jobs
            &&& job.id == reply->id as nat && job.id == board.next_id && job.dir == dir
            &&& job.state == JobState::Queued && job.error is None && job.output is None
            &&& job.name == text::opt_view((loaded->Ok_0).0.name)
            &&& job.description == text::opt_view((loaded->Ok_0).0.description)
            &&& after.next_id == board.next_id + 1 && !after.running
        },
{
    if reply is Created {
        assert(after.jobs.drop_last() =~= board.jobs);
    }
}

/// A job is taken out exactly if nothing runs and the job is there. Then it is gone and all others
/// stay; a request that is refused changes nothing.
pub proof fn law_answer_to_a_removal(reply: Reply, board: Board, after: Board, id: nat)
    requires
        board.wf(),
        answers_removal(reply, board, after, id),
    ensures
        reply is Conflict <==> board.running,
        reply is NotFound <==> !board.running && position(board.jobs, id) is None,
        reply is NoContent <==> !board.running && position(board.jobs, id) is Some,
        !(reply is NoContent) ==> after == board,
        reply is NoContent ==> {
            &&& after.jobs.len() == board.jobs.len() - 1
            &&& forall|i: int| 0 <= i < after.jobs.len() ==> (#[trigger] after.jobs[i]).id != id
            &&& forall|i: int|
                0 <= i < board.jobs.len() && (#[trigger] board.jobs[i]).id != id
                    ==> after.jobs.contains(board.jobs[i])
        },
{
    if reply is NoContent {
        lemma_position(board.jobs, id);
        let at = position(board.jobs, id)->0;
        assert forall|i: int| 0 <= i < after.jobs.len() implies (#[trigger] after.jobs[i]).id
            != id by {
            if i < at {
                assert(after.jobs[i] == board.jobs[i]);
                assert(board.jobs[i].id != board.jobs[at].id);
            } else {
                assert(after.jobs[i] == board.jobs[i + 1]);
                assert(board.jobs[at].id != board.jobs[i + 1].id);
            }
        }
        assert forall|i: int|
            0 <= i < board.jobs.len() && (#[trigger] board.jobs[i]).id
                != id implies after.jobs.contains(board.jobs[i]) by {
            if i < at {
                assert(after.jobs[i] == board.jobs[i]);
            } else {
                assert(after.jobs[i - 1] == board.jobs[i]);
            }
        }
    }
}

/// A run starts exactly if none is under way and there are jobs; then every job that waits is run.
/// A request that is refused changes nothing.
pub proof fn law_answer_to_a_run(
    r: Result<Vec<(usize, String)>, Reply>,
    board: Board,
    after: Board,
)
    requires
        answers_run(r, board, after),
    ensures
        r is Ok <==> !board.running && board.jobs.len() > 0,
        r matches Err(reply) ==> after == board && (reply is Conflict <==> board.running) && (
        reply is BadRequest <==> !board.running),
        r matches Ok(list) ==> after.running && after.jobs == board.jobs && list@.len() == queued(
            board.jobs,
        ).len() && forall|k: int|
            0 <= k < list@.len() ==> (#[trigger] list@[k]).0 as nat == queued(board.jobs)[k].0
                && list@[k].1@ == queued(board.jobs)[k].1,
{
    if let Ok(list) = r {
        let all = to_run(list@);
        assert forall|k: int| 0 <= k < list@.len() implies (#[trigger] list@[k]).0 as nat == queued(
            board.jobs,
        )[k].0 && list@[k].1@ == queued(board.jobs)[k].1 by {
            assert(all[k] == (list@[k].0 as nat, list@[k].1@));
        }
    }
}

/// The log of a script is kept to its last ten lines.
pub proof fn law_last_lines_of_a_script_are_kept(board: Board, i: int)
    requires
        board.wf(),
        0 <= i < board.jobs.len(),
    ensures
        board.jobs[i].recent_logs.len() <= 10,
        board.jobs.len() <= 4,
        board.replay.len() <= 100,
{
}

/// What listeners are told of a job: the start of a script as not done, its end as done, with its
/// name, its number and how many there are; the end of a job with whether it succeeded and how
/// long it took, and with where its output is or why it failed.
pub proof fn law_events_of_a_job(
    id: nat,
    name: Seq<char>,
    index: nat,
    total: nat,
    done: bool,
    output: Seq<char>,
    result: Result<RunResult, Error>,
    elapsed_ms: u64,
    progress: RunProgress,
)
    ensures
        ({
            let m = script_members(id, name, index, total, done);
            &&& m["type"@] == Json::Text("script"@) && m["id"@] == Json::Number(id)
            &&& m["name"@] == Json::Text(name) && m["index"@] == Json::Number(index)
            &&& m["total"@] == Json::Number(total) && m["done"@] == Json::Flag(done)
        }),
        ({
            let m = finished_members(id, output, result, elapsed_ms);
            &&& m["type"@] == Json::Text("finished"@) && m["id"@] == Json::Number(id)
            &&& m["success"@] == Json::Flag(result is Ok)
            &&& m["elapsed_ms"@] == Json::Number(elapsed_ms as nat)
            &&& result is Ok ==> m["output"@] == Json::Text(output)
            &&& result is Ok <==> !m.dom().contains("error"@)
            &&& result matches Err(err) ==> m["error"@] == Json::Text(err.text())
            &&& result is Err <==> !m.dom().contains("output"@)
        }),
        progress is ScriptStarted ==> progress_members(id, progress)["done"@] == Json::Flag(false),
        progress is ScriptFinished ==> progress_members(id, progress)["done"@] == Json::Flag(true),
        progress matches RunProgress::LogLine { line } ==> progress_members(id, progress)["line"@]
            == Json::Text(line@) && progress_members(id, progress)["type"@] == Json::Text("log"@),
        progress matches RunProgress::Phase(phase) ==> progress_members(id, progress)["phase"@]
            == Json::Text(phase_name(phase)) && progress_members(id, progress)["type"@]
            == Json::Text("phase"@),
{
    reveal_strlit("type");
    reveal_strlit("id");
    reveal_strlit("name");
    reveal_strlit("index");
    reveal_strlit("total");
    reveal_strlit("done");
    reveal_strlit("line");
    reveal_strlit("phase");
    reveal_strlit("success");
    reveal_strlit("elapsed_ms");
    reveal_strlit("output");
    reveal_strlit("error");
    assert("type"@[0] == 't' && "name"@[0] == 'n' && "done"@[0] == 'd' && "line"@[0] == 'l');
    assert("index"@[0] == 'i' && "total"@[0] == 't' && "phase"@[0] == 'p' && "error"@[0] == 'e');
    assert("type"@ != "name"@ && "type"@ != "done"@ && "name"@ != "done"@ && "type"@ != "line"@);
    assert("index"@ != "total"@);
    assert("id"@.len() == 2 && "type"@.len() == 4 && "index"@.len() == 5 && "output"@.len() == 6);
    assert("success"@.len() == 7 && "elapsed_ms"@.len() == 10 && "error"@.len() == 5);
}

} // verus!
