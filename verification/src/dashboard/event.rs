//! The events that the dashboard sends to its subscribers.

use vstd::prelude::*;

use crate::json;
use crate::json::Json;
use crate::text;

verus! {

/// The version of the events' shape.
pub const DASHBOARD_EVENT_PROTOCOL_VERSION: u8 = 1;

#[derive(Debug, Clone, Copy, PartialEq, Eq, Structural)]
pub enum ChainStepState {
    Queued,
    Running,
    Succeeded,
    Failed,
}

impl ChainStepState {
    /// The name of the state in events.
    pub open spec fn name(self) -> Seq<char> {
        match self {
            ChainStepState::Queued => "queued"@,
            ChainStepState::Running => "running"@,
            ChainStepState::Succeeded => "succeeded"@,
            ChainStepState::Failed => "failed"@,
        }
    }

    pub fn label(&self) -> (r: &'static str)
        ensures
            r@ == self.name(),
    {
        match self {
            ChainStepState::Queued => "queued",
            ChainStepState::Running => "running",
            ChainStepState::Succeeded => "succeeded",
            ChainStepState::Failed => "failed",
        }
    }
}

/// A task of a chain, as the dashboard shows it.
#[derive(Debug, PartialEq, Eq)]
pub struct ChainStepEntry {
    /// The number of the task in its chain, from 1.
    pub index: usize,
    pub task_name: Option<String>,
    pub task_dir: Option<String>,
    pub state: ChainStepState,
    pub error: Option<String>,
}

/// What a `ChainStepEntry` holds.
pub struct Step {
    pub index: nat,
    pub task_name: Option<Seq<char>>,
    pub task_dir: Option<Seq<char>>,
    pub state: ChainStepState,
    pub error: Option<Seq<char>>,
}

impl View for ChainStepEntry {
    type V = Step;

    open spec fn view(&self) -> Step {
        Step {
            index: self.index as nat,
            task_name: text::opt_view(self.task_name),
            task_dir: text::opt_view(self.task_dir),
            state: self.state,
            error: text::opt_view(self.error),
        }
    }
}

/// What several steps hold.
pub open spec fn steps(entries: Seq<ChainStepEntry>) -> Seq<Step> {
    entries.map_values(|e: ChainStepEntry| e@)
}

impl Clone for ChainStepEntry {
    fn clone(&self) -> (r: Self)
        ensures
            r@ == self@,
    {
        ChainStepEntry {
            index: self.index,
            task_name: self.task_name.clone(),
            task_dir: self.task_dir.clone(),
            state: self.state,
            error: self.error.clone(),
        }
    }
}

pub fn copy_steps(entries: &[ChainStepEntry]) -> (r: Vec<ChainStepEntry>)
    ensures
        steps(r@) == steps(entries@),
{
    let mut out: Vec<ChainStepEntry> = Vec::new();
    let total: usize = entries.len();
    let mut i: usize = 0;
    while i < total
        invariant
            i <= total,
            total == entries@.len(),
            steps(out@) == steps(entries@.take(i as int)),
        decreases total - i,
    {
        let ghost before = out@;
        out.push(entries[i].clone());
        proof {
            assert(steps(out@) =~= steps(before).push(entries@[i as int]@));
            assert(steps(entries@.take(i + 1)) =~= steps(entries@.take(i as int)).push(
                entries@[i as int]@,
            ));
        }
        i = i + 1;
    }
    assert(entries@.take(i as int) =~= entries@);
    out
}

/// The members of a step. What a step has not is left out.
pub open spec fn step_members(step: Step) -> Map<Seq<char>, Json> {
    let m = json::no_members().insert("index"@, Json::Number(step.index));
    let m = json::with_text(m, "task_name"@, step.task_name);
    let m = json::with_text(m, "task_dir"@, step.task_dir);
    let m = m.insert("state"@, Json::Text(step.state.name()));
    json::with_text(m, "error"@, step.error)
}

/// The values of several steps.
pub open spec fn step_values(list: Seq<Step>) -> Seq<Json> {
    list.map_values(|s: Step| Json::Object(step_members(s)))
}

/// Writes the steps of a chain as a value.
pub fn steps_value(entries: &[ChainStepEntry]) -> (r: serde_json::Value)
    ensures
        json::tree(r) == Json::List(step_values(steps(entries@))),
{
    let mut out: Vec<serde_json::Value> = Vec::new();
    let total: usize = entries.len();
    let mut i: usize = 0;
    while i < total
        invariant
            i <= total,
            total == entries@.len(),
            json::trees(out@) == step_values(steps(entries@.take(i as int))),
        decreases total - i,
    {
        let step = &entries[i];
        let mut object = json::object();
        json::put_number(&mut object, "index", step.index as u64);
        json::put_some_text(&mut object, "task_name", &step.task_name);
        json::put_some_text(&mut object, "task_dir", &step.task_dir);
        json::put_text(&mut object, "state", step.state.label());
        json::put_some_text(&mut object, "error", &step.error);
        assert(json::members(object) == step_members(step@));
        let value = json::object_value(object);
        let ghost before = out@;
        out.push(value);
        proof {
            assert(json::trees(out@) =~= json::trees(before).push(json::tree(value)));
            assert(step_values(steps(entries@.take(i + 1))) =~= step_values(
                steps(entries@.take(i as int)),
            ).push(Json::Object(step_members(step@))));
        }
        i = i + 1;
    }
    assert(entries@.take(i as int) =~= entries@);
    json::list_value(out)
}

#[derive(Debug)]
#[allow(inconsistent_fields)]
pub enum DashboardSseEvent {
    Loaded { id: usize, name: Option<String>, description: Option<String> },
    Phase { id: usize, phase: String },
    Script { id: usize, name: String, index: usize, total: usize, done: bool },
    VmProgress { id: usize, line: String },
    ScriptLog { id: usize, line: String },
    ChainStep {
        id: usize,
        step_index: usize,
        total_steps: usize,
        task_name: Option<String>,
        task_dir: String,
    },
    Finished {
        id: usize,
        success: bool,
        elapsed_ms: Option<u64>,
        output: Option<String>,
        error: Option<String>,
        chain_steps: Vec<ChainStepEntry>,
        chain_failed_step_index: Option<usize>,
    },
}

/// What an event says.
#[allow(inconsistent_fields)]
pub enum Told {
    Loaded { id: nat, name: Option<Seq<char>>, description: Option<Seq<char>> },
    Phase { id: nat, phase: Seq<char> },
    Script { id: nat, name: Seq<char>, index: nat, total: nat, done: bool },
    VmProgress { id: nat, line: Seq<char> },
    ScriptLog { id: nat, line: Seq<char> },
    ChainStep {
        id: nat,
        step_index: nat,
        total_steps: nat,
        task_name: Option<Seq<char>>,
        task_dir: Seq<char>,
    },
    Finished {
        id: nat,
        success: bool,
        elapsed_ms: Option<nat>,
        output: Option<Seq<char>>,
        error: Option<Seq<char>>,
        chain_steps: Seq<Step>,
        chain_failed_step_index: Option<nat>,
    },
}

pub open spec fn opt_nat(n: Option<usize>) -> Option<nat> {
    match n {
        Some(n) => Some(n as nat),
        None => None,
    }
}

impl View for DashboardSseEvent {
    type V = Told;

    open spec fn view(&self) -> Told {
        match *self {
            DashboardSseEvent::Loaded { id, name, description } => Told::Loaded {
                id: id as nat,
                name: text::opt_view(name),
                description: text::opt_view(description),
            },
            DashboardSseEvent::Phase { id, phase } => Told::Phase { id: id as nat, phase: phase@ },
            DashboardSseEvent::Script { id, name, index, total, done } => Told::Script {
                id: id as nat,
                name: name@,
                index: index as nat,
                total: total as nat,
                done,
            },
            DashboardSseEvent::VmProgress { id, line } => Told::VmProgress {
                id: id as nat,
                line: line@,
            },
            DashboardSseEvent::ScriptLog { id, line } => Told::ScriptLog {
                id: id as nat,
                line: line@,
            },
            DashboardSseEvent::ChainStep { id, step_index, total_steps, task_name, task_dir } =>
            Told::ChainStep {
                id: id as nat,
                step_index: step_index as nat,
                total_steps: total_steps as nat,
                task_name: text::opt_view(task_name),
                task_dir: task_dir@,
            },
            DashboardSseEvent::Finished {
                id,
                success,
                elapsed_ms,
                output,
                error,
                chain_steps,
                chain_failed_step_index,
            } => Told::Finished {
                id: id as nat,
                success,
                elapsed_ms: json::opt_ms(elapsed_ms),
                output: text::opt_view(output),
                error: text::opt_view(error),
                chain_steps: steps(chain_steps@),
                chain_failed_step_index: opt_nat(chain_failed_step_index),
            },
        }
    }
}

/// The members that every event has.
pub open spec fn tagged(tag: Seq<char>, id: nat) -> Map<Seq<char>, Json> {
    json::no_members().insert("type"@, Json::Text(tag)).insert("id"@, Json::Number(id))
}

impl Told {
    /// The members of the event's object. What an event has not is left out.
    pub open spec fn members(self) -> Map<Seq<char>, Json> {
        match self {
            Told::Loaded { id, name, description } => json::with_text(
                json::with_text(tagged("loaded"@, id), "name"@, name),
                "description"@,
                description,
            ),
            Told::Phase { id, phase } => tagged("phase"@, id).insert("phase"@, Json::Text(phase)),
            Told::Script { id, name, index, total, done } => tagged("script"@, id).insert(
                "name"@,
                Json::Text(name),
            ).insert("index"@, Json::Number(index)).insert("total"@, Json::Number(total)).insert(
                "done"@,
                Json::Flag(done),
            ),
            Told::VmProgress { id, line } => tagged("vm_progress"@, id).insert(
                "line"@,
                Json::Text(line),
            ),
            Told::ScriptLog { id, line } => tagged("script_log"@, id).insert(
                "line"@,
                Json::Text(line),
            ),
            Told::ChainStep { id, step_index, total_steps, task_name, task_dir } =>
            json::with_text(
                tagged("chain_step"@, id).insert("step_index"@, Json::Number(step_index)).insert(
                    "total_steps"@,
                    Json::Number(total_steps),
                ),
                "task_name"@,
                task_name,
            ).insert("task_dir"@, Json::Text(task_dir)),
            Told::Finished {
                id,
                success,
                elapsed_ms,
                output,
                error,
                chain_steps,
                chain_failed_step_index,
            } => {
                let m = tagged("finished"@, id).insert("success"@, Json::Flag(success));
                let m = json::with_number(m, "elapsed_ms"@, elapsed_ms);
                let m = json::with_text(m, "output"@, output);
                let m = json::with_text(m, "error"@, error);
                let m = if chain_steps.len() == 0 {
                    m
                } else {
                    m.insert("chain_steps"@, Json::List(step_values(chain_steps)))
                };
                json::with_number(m, "chain_failed_step_index"@, chain_failed_step_index)
            },
        }
    }

    /// The line that subscribers get.
    pub open spec fn line(self) -> Seq<char> {
        versioned(self.members())
    }
}

/// The text of an object that also says which version it has.
pub open spec fn versioned(members: Map<Seq<char>, Json>) -> Seq<char> {
    json::json_text(
        members.insert("protocol_version"@, Json::Number(DASHBOARD_EVENT_PROTOCOL_VERSION as nat)),
    )
}

fn tagged_object(tag: &str, id: usize) -> (r: serde_json::Map<String, serde_json::Value>)
    ensures
        json::members(r) == tagged(tag@, id as nat),
{
    let mut object = json::object();
    json::put_text(&mut object, "type", tag);
    json::put_number(&mut object, "id", id as u64);
    object
}

impl DashboardSseEvent {
    /// Writes the event as an object.
    pub fn to_object(&self) -> (r: serde_json::Map<String, serde_json::Value>)
        ensures
            json::members(r) == self@.members(),
    {
        match self {
            DashboardSseEvent::Loaded { id, name, description } => {
                let mut object = tagged_object("loaded", *id);
                json::put_some_text(&mut object, "name", name);
                json::put_some_text(&mut object, "description", description);
                object
            },
            DashboardSseEvent::Phase { id, phase } => {
                let mut object = tagged_object("phase", *id);
                json::put_text(&mut object, "phase", phase.as_str());
                object
            },
            DashboardSseEvent::Script { id, name, index, total, done } => {
                let mut object = tagged_object("script", *id);
                json::put_text(&mut object, "name", name.as_str());
                json::put_number(&mut object, "index", *index as u64);
                json::put_number(&mut object, "total", *total as u64);
                json::put_flag(&mut object, "done", *done);
                object
            },
            DashboardSseEvent::VmProgress { id, line } => {
                let mut object = tagged_object("vm_progress", *id);
                json::put_text(&mut object, "line", line.as_str());
                object
            },
            DashboardSseEvent::ScriptLog { id, line } => {
                let mut object = tagged_object("script_log", *id);
                json::put_text(&mut object, "line", line.as_str());
                object
            },
            DashboardSseEvent::ChainStep { id, step_index, total_steps, task_name, task_dir } => {
                let mut object = tagged_object("chain_step", *id);
                json::put_number(&mut object, "step_index", *step_index as u64);
                json::put_number(&mut object, "total_steps", *total_steps as u64);
                json::put_some_text(&mut object, "task_name", task_name);
                json::put_text(&mut object, "task_dir", task_dir.as_str());
                object
            },
            DashboardSseEvent::Finished {
                id,
                success,
                elapsed_ms,
                output,
                error,
                chain_steps,
                chain_failed_step_index,
            } => {
                let mut object = tagged_object("finished", *id);
                json::put_flag(&mut object, "success", *success);
                if let Some(ms) = elapsed_ms {
                    json::put_number(&mut object, "elapsed_ms", *ms);
                }
                json::put_some_text(&mut object, "output", output);
                json::put_some_text(&mut object, "error", error);
                if chain_steps.len() > 0 {
                    let value = steps_value(chain_steps);
                    json::put(&mut object, "chain_steps", value);
                }
                if let Some(index) = chain_failed_step_index {
                    json::put_number(&mut object, "chain_failed_step_index", *index as u64);
                }
                object
            },
        }
    }
}

/// What an event says is what its members say: what sort of event it is and whose it is, and each
/// of its parts under the name of the part. What an event does not have it does not mention.
pub proof fn law_members_say_what_is_told(told: Told)
    ensures
        match told {
            Told::Loaded { id, name, description } => {
                let m = told.members();
                &&& m["type"@] == Json::Text("loaded"@) && m["id"@] == Json::Number(id)
                &&& m.dom().contains("name"@) <==> name is Some
                &&& name matches Some(n) ==> m["name"@] == Json::Text(n)
                &&& m.dom().contains("description"@) <==> description is Some
                &&& description matches Some(d) ==> m["description"@] == Json::Text(d)
            },
            Told::Phase { id, phase } => {
                let m = told.members();
                &&& m["type"@] == Json::Text("phase"@) && m["id"@] == Json::Number(id)
                &&& m["phase"@] == Json::Text(phase)
            },
            Told::Script { id, name, index, total, done } => {
                let m = told.members();
                &&& m["type"@] == Json::Text("script"@) && m["id"@] == Json::Number(id)
                &&& m["name"@] == Json::Text(name) && m["index"@] == Json::Number(index)
                &&& m["total"@] == Json::Number(total) && m["done"@] == Json::Flag(done)
            },
            Told::VmProgress { id, line } => {
                let m = told.members();
                &&& m["type"@] == Json::Text("vm_progress"@) && m["id"@] == Json::Number(id)
                &&& m["line"@] == Json::Text(line)
            },
            Told::ScriptLog { id, line } => {
                let m = told.members();
                &&& m["type"@] == Json::Text("script_log"@) && m["id"@] == Json::Number(id)
                &&& m["line"@] == Json::Text(line)
            },
            Told::ChainStep { id, step_index, total_steps, task_name, task_dir } => {
                let m = told.members();
                &&& m["type"@] == Json::Text("chain_step"@) && m["id"@] == Json::Number(id)
                &&& m["step_index"@] == Json::Number(step_index)
                &&& m["total_steps"@] == Json::Number(total_steps)
                &&& m["task_dir"@] == Json::Text(task_dir)
                &&& m.dom().contains("task_name"@) <==> task_name is Some
                &&& task_name matches Some(n) ==> m["task_name"@] == Json::Text(n)
            },
            Told::Finished {
                id,
                success,
                elapsed_ms,
                output,
                error,
                chain_steps,
                chain_failed_step_index,
            } => {
                let m = told.members();
                &&& m["type"@] == Json::Text("finished"@) && m["id"@] == Json::Number(id)
                &&& m["success"@] == Json::Flag(success)
                &&& m.dom().contains("elapsed_ms"@) <==> elapsed_ms is Some
                &&& elapsed_ms matches Some(n) ==> m["elapsed_ms"@] == Json::Number(n)
                &&& m.dom().contains("output"@) <==> output is Some
                &&& output matches Some(o) ==> m["output"@] == Json::Text(o)
                &&& m.dom().contains("error"@) <==> error is Some
                &&& error matches Some(e) ==> m["error"@] == Json::Text(e)
                &&& m.dom().contains("chain_steps"@) <==> chain_steps.len() > 0
                &&& m.dom().contains("chain_failed_step_index"@)
                    <==> chain_failed_step_index is Some
                &&& chain_failed_step_index matches Some(n) ==> m["chain_failed_step_index"@]
                    == Json::Number(n)
            },
        },
{
    reveal_strlit("type");
    reveal_strlit("id");
    reveal_strlit("name");
    reveal_strlit("description");
    reveal_strlit("phase");
    reveal_strlit("index");
    reveal_strlit("total");
    reveal_strlit("done");
    reveal_strlit("line");
    reveal_strlit("step_index");
    reveal_strlit("total_steps");
    reveal_strlit("task_name");
    reveal_strlit("task_dir");
    reveal_strlit("success");
    reveal_strlit("elapsed_ms");
    reveal_strlit("output");
    reveal_strlit("error");
    reveal_strlit("chain_steps");
    reveal_strlit("chain_failed_step_index");
    assert("type"@[0] == 't' && "name"@[0] == 'n' && "done"@[0] == 'd' && "line"@[0] == 'l');
    assert("index"@[0] == 'i' && "total"@[0] == 't' && "phase"@[0] == 'p' && "error"@[0] == 'e');
    assert("type"@ != "name"@ && "type"@ != "done"@ && "name"@ != "done"@ && "type"@ != "line"@);
    assert("index"@ != "total"@);
    assert("id"@.len() == 2 && "type"@.len() == 4 && "name"@.len() == 4 && "line"@.len() == 4);
    assert("done"@.len() == 4 && "phase"@.len() == 5 && "index"@.len() == 5 && "total"@.len() == 5);
    assert("description"@.len() == 11 && "step_index"@.len() == 10 && "total_steps"@.len() == 11);
    assert("task_name"@.len() == 9 && "task_dir"@.len() == 8 && "success"@.len() == 7);
    assert("elapsed_ms"@.len() == 10 && "output"@.len() == 6 && "error"@.len() == 5);
    assert("chain_steps"@.len() == 11 && "chain_failed_step_index"@.len() == 23);
    match told {
        Told::Loaded { id, name, description } => {
            let a = tagged("loaded"@, id);
            json::lemma_with_text(a, "name"@, name);
            json::lemma_with_text(
                json::with_text(a, "name"@, name),
                "description"@,
                description,
            );
        },
        Told::ChainStep { id, step_index, total_steps, task_name, task_dir } => {
            let a = tagged("chain_step"@, id).insert(
                "step_index"@,
                Json::Number(step_index),
            ).insert("total_steps"@, Json::Number(total_steps));
            json::lemma_with_text(a, "task_name"@, task_name);
        },
        Told::Finished {
            id,
            success,
            elapsed_ms,
            output,
            error,
            chain_steps,
            chain_failed_step_index,
        } => {
            let a = tagged("finished"@, id).insert("success"@, Json::Flag(success));
            let b = json::with_number(a, "elapsed_ms"@, elapsed_ms);
            let c = json::with_text(b, "output"@, output);
            let d = json::with_text(c, "error"@, error);
            let e = if chain_steps.len() == 0 {
                d
            } else {
                d.insert("chain_steps"@, Json::List(step_values(chain_steps)))
            };
            json::lemma_with_number(a, "elapsed_ms"@, elapsed_ms);
            json::lemma_with_text(b, "output"@, output);
            json::lemma_with_text(c, "error"@, error);
            json::lemma_with_number(e, "chain_failed_step_index"@, chain_failed_step_index);
        },
        _ => {},
    }
}

/// Every step of a chain is told with its number and its state, and with its name, its directory
/// and its error where it has them.
pub proof fn law_members_of_a_step(step: Step)
    ensures
        ({
            let m = step_members(step);
            &&& m["index"@] == Json::Number(step.index)
            &&& m["state"@] == Json::Text(step.state.name())
            &&& m.dom().contains("task_name"@) <==> step.task_name is Some
            &&& step.task_name matches Some(n) ==> m["task_name"@] == Json::Text(n)
            &&& m.dom().contains("task_dir"@) <==> step.task_dir is Some
            &&& step.task_dir matches Some(d) ==> m["task_dir"@] == Json::Text(d)
            &&& m.dom().contains("error"@) <==> step.error is Some
            &&& step.error matches Some(e) ==> m["error"@] == Json::Text(e)
        }),
        step.state == ChainStepState::Queued <==> step.state.name() == "queued"@,
        step.state == ChainStepState::Running <==> step.state.name() == "running"@,
        step.state == ChainStepState::Succeeded <==> step.state.name() == "succeeded"@,
        step.state == ChainStepState::Failed <==> step.state.name() == "failed"@,
{
    reveal_strlit("index");
    reveal_strlit("state");
    reveal_strlit("error");
    reveal_strlit("task_name");
    reveal_strlit("task_dir");
    assert("index"@[0] == 'i' && "state"@[0] == 's' && "error"@[0] == 'e');
    assert("index"@ != "state"@ && "index"@ != "error"@ && "state"@ != "error"@);
    assert("index"@.len() == 5 && "state"@.len() == 5 && "error"@.len() == 5);
    assert("task_name"@.len() == 9 && "task_dir"@.len() == 8);
    let a = json::no_members().insert("index"@, Json::Number(step.index));
    let b = json::with_text(a, "task_name"@, step.task_name);
    let c = json::with_text(b, "task_dir"@, step.task_dir);
    let d = c.insert("state"@, Json::Text(step.state.name()));
    json::lemma_with_text(a, "task_name"@, step.task_name);
    json::lemma_with_text(b, "task_dir"@, step.task_dir);
    json::lemma_with_text(d, "error"@, step.error);
    reveal_strlit("queued");
    reveal_strlit("running");
    reveal_strlit("succeeded");
    reveal_strlit("failed");
    assert("queued"@[0] == 'q' && "failed"@[0] == 'f');
    assert("running"@.len() == 7 && "succeeded"@.len() == 9 && "queued"@.len() == 6);
}

} // verus!
