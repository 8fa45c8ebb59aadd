use serde_json::Value;
use vmize::dashboard::candidate::{
    detect_workspace_root, discover_task_candidates, get_task_candidates, task_candidates_dir,
    FoundEntry,
};
use vmize::dashboard::event::{ChainStepEntry, ChainStepState, DashboardSseEvent};
use vmize::dashboard::state::{
    add_task, forward_chain_step, forward_progress, get_status, maybe_clear_running, remove_task,
    run_reply, run_tasks, serialize_and_push_event, task_finished, task_not_started, task_started,
    DashboardState,
};
use vmize::dashboard::task::{
    ensure_chain_steps, mark_chain_failure, mark_prior_running_steps_succeeded,
    sync_chain_steps_from_result, worker_phase_label, TaskEntry, TaskState,
};
use vmize::path::PathKind;
use vmize::replay::SSE_REPLAY_CAPACITY;
use vmize::reply::Reply;
use vmize::task::{LoadedTask, TaskDefinition};
use vmize::worker::error::Error;
use vmize::worker::progress::{ChainStepProgress, RunPhase, RunProgress};
use vmize::worker::result::{ChainRunResult, ChainStepResult, RunResult};

fn object(members: Vec<(&str, Value)>) -> serde_json::Map<String, Value> {
    let mut out = serde_json::Map::new();
    for (key, value) in members {
        out.insert(key.to_string(), value);
    }
    out
}

fn parsed(line: &str) -> Value {
    serde_json::from_str(line).unwrap()
}

fn make_task(id: usize, state: TaskState) -> TaskEntry {
    TaskEntry {
        id,
        dir: format!("/tasks/{id}"),
        name: Some(format!("task-{id}")),
        description: None,
        state,
        phase: None,
        script_index: 0,
        script_total: 0,
        current_script: None,
        chain_step_index: 0,
        chain_step_total: 0,
        chain_current_task: None,
        chain_steps: Vec::new(),
        chain_failed_step_index: None,
        vm_progress_lines: Vec::new(),
        script_output_lines: Vec::new(),
        elapsed_ms: None,
        error: None,
        output: None,
    }
}

fn make_step(index: usize, name: Option<&str>, state: ChainStepState) -> ChainStepEntry {
    ChainStepEntry {
        index,
        task_name: name.map(|n| n.to_string()),
        task_dir: name.map(|_| format!("/tmp/task-{index}")),
        state,
        error: None,
    }
}

fn loaded(name: Option<&str>, description: Option<&str>) -> Result<LoadedTask, String> {
    Ok(LoadedTask {
        definition: TaskDefinition {
            name: name.map(|n| n.to_string()),
            description: description.map(|d| d.to_string()),
            disk_size: None,
            commands: Vec::new(),
            artifacts: None,
            next_task_dir: None,
            vm: None,
        },
        input_dir: "/t/input".to_string(),
        output_dir: "/t/output".to_string(),
        logs_dir: "/t/output/logs".to_string(),
    })
}

fn chain(names: Vec<&str>) -> ChainRunResult {
    let mut steps = Vec::new();
    for name in names {
        steps.push(ChainStepResult {
            task_dir: format!("/chain/{name}"),
            task_name: Some(name.to_string()),
            handoff_artifacts: Vec::new(),
            run_result: RunResult::new("vm0", &format!("/chain/{name}/output"), "/logs"),
        });
    }
    ChainRunResult { steps }
}

#[test]
fn lib_new_state_is_empty_and_not_running() {
    let s = DashboardState::new();
    assert!(s.tasks.is_empty());
    assert!(!s.running);
    assert_eq!(s.next_id, 0);
    assert!(s.replay.is_empty());
}

#[test]
fn lib_push_event_records_to_replay_and_broadcasts() {
    let mut s = DashboardState::new();
    let received = s.push_event(object(vec![("type", Value::from("test")), ("v", Value::from(1))]));

    assert_eq!(s.replay.len(), 1);
    assert!(s.replay[0].contains("\"type\":\"test\""));
    assert!(received.contains("\"type\":\"test\""));
}

#[test]
fn lib_push_event_evicts_oldest_when_at_capacity() {
    let mut s = DashboardState::new();

    for i in 0..SSE_REPLAY_CAPACITY {
        s.push_event(object(vec![("seq", Value::from(i))]));
    }
    assert_eq!(s.replay.len(), SSE_REPLAY_CAPACITY);

    s.push_event(object(vec![("seq", Value::from("newest"))]));

    assert_eq!(s.replay.len(), SSE_REPLAY_CAPACITY, "capacity must not grow");
    assert!(!s.replay[0].contains("\"seq\":0"), "oldest event should be evicted, front = {}", s.replay[0]);
    assert!(s.replay.back().unwrap().contains("newest"), "newest event should be at the back");
}

#[test]
fn push_event_includes_protocol_version() {
    let mut s = DashboardState::new();
    let event = DashboardSseEvent::Loaded {
        id: 3,
        name: Some("task-x".into()),
        description: Some("desc".into()),
    };
    let evt = parsed(&s.push_event(event.to_object()));
    assert_eq!(evt["type"], "loaded");
    assert_eq!(evt["protocol_version"], 1);
}

#[test]
fn forward_progress_phase_emits_protocol_version() {
    let mut s = DashboardState::new();
    s.tasks.push(make_task(0, TaskState::Running));

    let line = forward_progress(&mut s, 0, &RunProgress::Phase(RunPhase::StartingVm));

    let evt = parsed(&line);
    assert_eq!(evt["type"], "phase");
    assert_eq!(evt["id"], 0);
    assert_eq!(evt["protocol_version"], 1);
}

#[test]
fn forward_chain_step_updates_task_and_broadcasts_event() {
    let mut s = DashboardState::new();
    s.tasks.push(make_task(0, TaskState::Running));

    let line = forward_chain_step(
        &mut s,
        0,
        &ChainStepProgress::StepStarted {
            step_index: 2,
            total_steps: 3,
            task_dir: "/tmp/task-2".to_string(),
            task_name: Some("task-two".to_string()),
        },
    );

    assert_eq!(s.tasks[0].chain_step_index, 2);
    assert_eq!(s.tasks[0].chain_step_total, 3);
    assert_eq!(s.tasks[0].chain_current_task, Some("task-two".to_string()));
    assert_eq!(s.tasks[0].phase, Some("ChainStep 2/3".to_string()));
    assert_eq!(s.tasks[0].chain_steps.len(), 3);
    assert_eq!(s.tasks[0].chain_steps[1].state, ChainStepState::Running);
    assert_eq!(s.tasks[0].chain_steps[1].task_name.as_deref(), Some("task-two"));

    let evt = parsed(&line);
    assert_eq!(evt["type"], "chain_step");
    assert_eq!(evt["id"], 0);
    assert_eq!(evt["step_index"], 2);
    assert_eq!(evt["total_steps"], 3);
    assert_eq!(evt["task_name"], "task-two");
    assert_eq!(evt["task_dir"], "/tmp/task-2");
}

#[test]
fn forward_chain_step_marks_previous_running_step_succeeded() {
    let mut s = DashboardState::new();
    let mut task = make_task(0, TaskState::Running);
    task.chain_steps = vec![
        make_step(1, Some("task-one"), ChainStepState::Running),
        make_step(2, None, ChainStepState::Queued),
    ];
    task.chain_step_total = 2;
    task.chain_step_index = 1;
    s.tasks.push(task);

    forward_chain_step(
        &mut s,
        0,
        &ChainStepProgress::StepStarted {
            step_index: 2,
            total_steps: 2,
            task_dir: "/tmp/task-2".to_string(),
            task_name: Some("task-two".to_string()),
        },
    );

    assert_eq!(s.tasks[0].chain_steps[0].state, ChainStepState::Succeeded);
    assert_eq!(s.tasks[0].chain_steps[1].state, ChainStepState::Running);
}

#[test]
fn mark_chain_failure_marks_running_step_as_failed() {
    let mut task = make_task(0, TaskState::Running);
    task.chain_steps = vec![
        make_step(1, Some("task-one"), ChainStepState::Succeeded),
        make_step(2, Some("task-two"), ChainStepState::Running),
    ];
    task.chain_step_total = 2;
    task.chain_step_index = 2;

    mark_chain_failure(&mut task, "boom");

    assert_eq!(task.chain_failed_step_index, Some(2));
    assert_eq!(task.chain_steps[1].state, ChainStepState::Failed);
    assert_eq!(task.chain_steps[1].error.as_deref(), Some("boom"));
}

#[test]
fn maybe_clear_running_clears_when_all_tasks_terminal() {
    let mut s = DashboardState::new();
    s.running = true;
    s.tasks.push(make_task(0, TaskState::Succeeded));
    s.tasks.push(make_task(1, TaskState::Failed));

    maybe_clear_running(&mut s);

    assert!(!s.running);
}

#[test]
fn lib_maybe_clear_running_keeps_true_while_any_running() {
    let mut s = DashboardState::new();
    s.running = true;
    s.tasks.push(make_task(0, TaskState::Succeeded));
    s.tasks.push(make_task(1, TaskState::Running));

    maybe_clear_running(&mut s);

    assert!(s.running);
}

#[test]
fn lib_maybe_clear_running_keeps_true_while_any_queued() {
    let mut s = DashboardState::new();
    s.running = true;
    s.tasks.push(make_task(0, TaskState::Succeeded));
    s.tasks.push(make_task(1, TaskState::Queued));

    maybe_clear_running(&mut s);

    assert!(s.running);
}

#[test]
fn maybe_clear_running_does_not_set_false_when_no_tasks() {
    let mut s = DashboardState::new();
    s.running = true;
    maybe_clear_running(&mut s);
    assert!(!s.running);
}

#[test]
fn forward_progress_phase_updates_task_and_broadcasts_event() {
    let mut s = DashboardState::new();
    s.tasks.push(make_task(0, TaskState::Running));

    let line = forward_progress(&mut s, 0, &RunProgress::Phase(RunPhase::RunningScripts));

    assert_eq!(s.tasks[0].phase, Some("RunningScripts".to_string()));
    let evt = parsed(&line);
    assert_eq!(evt["type"], "phase");
    assert_eq!(evt["id"], 0);
    assert_eq!(evt["phase"], "RunningScripts");
}

#[test]
fn forward_progress_script_started_keeps_logs_and_sets_current() {
    let mut s = DashboardState::new();
    let mut task = make_task(0, TaskState::Running);
    task.vm_progress_lines.push("vm progress".to_string());
    task.script_output_lines.push("script output".to_string());
    s.tasks.push(task);

    forward_progress(
        &mut s,
        0,
        &RunProgress::ScriptStarted { script: "10_build.sh".to_string(), index: 1, total: 3 },
    );

    assert_eq!(s.tasks[0].vm_progress_lines, vec!["vm progress".to_string()]);
    assert_eq!(s.tasks[0].script_output_lines, vec!["script output".to_string()]);
    assert_eq!(s.tasks[0].current_script, Some("10_build.sh".to_string()));
    assert_eq!(s.tasks[0].script_index, 1);
    assert_eq!(s.tasks[0].script_total, 3);
}

#[test]
fn lib_forward_progress_script_finished_updates_counters() {
    let mut s = DashboardState::new();
    s.tasks.push(make_task(0, TaskState::Running));

    let line = forward_progress(
        &mut s,
        0,
        &RunProgress::ScriptFinished { script: "10_build.sh".to_string(), index: 1, total: 3 },
    );

    assert_eq!(s.tasks[0].script_index, 1);
    assert_eq!(s.tasks[0].script_total, 3);
    assert_eq!(parsed(&line)["done"], true);
}

#[test]
fn forward_progress_vm_progress_line_appends_without_cap() {
    let mut s = DashboardState::new();
    s.tasks.push(make_task(0, TaskState::Running));

    let mut first = None;
    for i in 0..12usize {
        let line =
            forward_progress(&mut s, 0, &RunProgress::VmProgressLine { line: format!("line {i}") });
        first.get_or_insert(line);
    }

    assert_eq!(s.tasks[0].vm_progress_lines.len(), 12);
    assert_eq!(s.tasks[0].vm_progress_lines.first().unwrap(), "line 0", "first entry should be preserved");
    assert_eq!(s.tasks[0].vm_progress_lines.last().unwrap(), "line 11", "newest entry should be line 11");
    assert_eq!(parsed(&first.unwrap())["type"], "vm_progress");
}

#[test]
fn forward_progress_script_output_line_appends_without_cap() {
    let mut s = DashboardState::new();
    s.tasks.push(make_task(0, TaskState::Running));

    let mut first = None;
    for i in 0..12usize {
        let line = forward_progress(
            &mut s,
            0,
            &RunProgress::ScriptOutputLine { line: format!("output {i}") },
        );
        first.get_or_insert(line);
    }

    assert_eq!(s.tasks[0].script_output_lines.len(), 12);
    assert_eq!(s.tasks[0].script_output_lines.first().unwrap(), "output 0", "first entry should be preserved");
    assert_eq!(s.tasks[0].script_output_lines.last().unwrap(), "output 11", "newest entry should be output 11");
    assert_eq!(parsed(&first.unwrap())["type"], "script_log");
}

#[test]
fn forward_progress_ignores_unknown_task_id_silently() {
    let mut s = DashboardState::new();
    forward_progress(&mut s, 99, &RunProgress::Phase(RunPhase::StartingVm));
    assert!(s.tasks.is_empty());
}

#[test]
fn get_status_returns_empty_initial_state() {
    let s = DashboardState::new();
    let body = Value::from(get_status(&s));
    assert_eq!(body["running"], false);
    assert!(body["tasks"].as_array().unwrap().is_empty());
}

fn entry(path: &str, name: Option<&str>) -> FoundEntry {
    FoundEntry {
        path: path.to_string(),
        kind: PathKind::Directory,
        definition: PathKind::File,
        loaded: loaded(name, None),
        canonical: None,
    }
}

#[test]
fn get_task_candidates_returns_workspace_tasks_sorted() {
    let mut no_file = entry("/w/tasks/no_file", Some("aaa"));
    no_file.definition = PathKind::Missing;
    let mut not_dir = entry("/w/tasks/not_dir", Some("aab"));
    not_dir.kind = PathKind::File;
    let mut broken = entry("/w/tasks/broken", None);
    broken.loaded = Err("Invalid JSON".to_string());
    let mut canonical = entry("/w/tasks/link", Some("beta"));
    canonical.canonical = Some("/w/tasks/a".to_string());
    let found = vec![
        entry("/w/tasks/zeta", Some("Zeta")),
        no_file,
        entry("/w/tasks/b2", Some("Beta")),
        not_dir,
        canonical,
        broken,
        entry("/w/tasks/alpha", None),
    ];

    let tasks = discover_task_candidates(&found);

    let names: Vec<&str> = tasks.iter().map(|t| t.name.as_str()).collect();
    assert_eq!(names, vec!["alpha", "beta", "Beta", "Zeta"]);
    assert_eq!(tasks[1].dir, "/w/tasks/a");
    assert_eq!(tasks[2].dir, "/w/tasks/b2");
    let root = format!("{}/", task_candidates_dir("/w"));
    for task in &tasks {
        assert!(!task.name.is_empty());
        assert!(task.dir.starts_with(&root));
    }
    let lower: Vec<String> = tasks.iter().map(|t| t.name.to_lowercase()).collect();
    let mut sorted = lower.clone();
    sorted.sort();
    assert_eq!(lower, sorted);

    let body = Value::from(get_task_candidates(&tasks));
    assert_eq!(body["tasks"][0]["name"], "alpha");
    assert_eq!(body["tasks"][0]["dir"], "/w/tasks/alpha");
    assert_eq!(body["tasks"][0]["description"], Value::Null);
}

#[test]
fn candidates_ignore_case_beyond_ascii() {
    let found = vec![entry("/a", Some("Ö1")), entry("/b", Some("ö0"))];
    let tasks = discover_task_candidates(&found);
    assert_eq!(tasks[0].name, "ö0");
    assert_eq!(tasks[1].name, "Ö1");
}

#[test]
fn candidates_that_tie_keep_their_order() {
    let mut first = entry("/a", Some("x"));
    first.loaded = loaded(Some("x"), Some("one"));
    let mut second = entry("/a", Some("X"));
    second.loaded = loaded(Some("X"), Some("two"));
    let tasks = discover_task_candidates(&[first, second]);
    assert_eq!(tasks[0].description.as_deref(), Some("one"));
    assert_eq!(tasks[1].description.as_deref(), Some("two"));
}

#[test]
fn workspace_of_the_dashboard() {
    assert_eq!(detect_workspace_root("/w/dashboard"), "/w");
    assert_eq!(detect_workspace_root("/"), "/");
    assert_eq!(task_candidates_dir("/w"), "/w/tasks");
}

#[test]
fn add_task_with_valid_dir_returns_201_and_appears_in_status() {
    let mut s = DashboardState::new();
    let (reply, line) =
        add_task(&mut s, "/tasks/one".to_string(), loaded(Some("one"), Some("first")));
    assert_eq!(reply.status(), 201);
    assert_eq!(Value::from(reply.body().unwrap())["id"], 0);
    let evt = parsed(&line.unwrap());
    assert_eq!(evt["type"], "loaded");
    assert_eq!(evt["name"], "one");
    assert_eq!(evt["description"], "first");
    let body = Value::from(get_status(&s));
    assert_eq!(body["tasks"].as_array().unwrap().len(), 1);
    assert_eq!(body["tasks"][0]["dir"], "/tasks/one");
    assert_eq!(body["tasks"][0]["state"], "queued");
    assert_eq!(body["tasks"][0]["name"], "one");
    assert_eq!(body["tasks"][0]["phase"], Value::Null);
    assert_eq!(s.next_id, 1);
}

#[test]
fn add_task_with_invalid_dir_returns_400_with_error_field() {
    let mut s = DashboardState::new();
    let (reply, line) =
        add_task(&mut s, "/nope".to_string(), Err("Cannot read /nope/task.json".to_string()));
    assert_eq!(reply.status(), 400);
    assert_eq!(Value::from(reply.body().unwrap())["error"], "Cannot read /nope/task.json");
    assert!(line.is_none());
    assert!(s.tasks.is_empty());
    assert_eq!(s.next_id, 0);
}

#[test]
fn add_five_tasks_returns_400_on_fifth() {
    let mut s = DashboardState::new();
    for i in 0..4 {
        let (reply, _) = add_task(&mut s, format!("/tasks/{i}"), loaded(None, None));
        assert_eq!(reply.status(), 201);
    }
    let (reply, line) = add_task(&mut s, "/tasks/4".to_string(), loaded(None, None));
    assert_eq!(reply.status(), 400);
    let body = Value::from(reply.body().unwrap());
    assert!(body["error"].as_str().unwrap().contains("full"));
    assert_eq!(body["error"], "queue is full (max 4)");
    assert!(line.is_none());
    assert_eq!(s.tasks.len(), 4);
}

#[test]
fn remove_queued_task_returns_204_and_disappears_from_status() {
    let mut s = DashboardState::new();
    add_task(&mut s, "/tasks/a".to_string(), loaded(None, None));
    add_task(&mut s, "/tasks/b".to_string(), loaded(None, None));
    let reply = remove_task(&mut s, 0);
    assert_eq!(reply.status(), 204);
    assert!(reply.body().is_none());
    assert_eq!(s.tasks.len(), 1);
    assert_eq!(s.tasks[0].dir, "/tasks/b");
}

#[test]
fn remove_nonexistent_task_returns_404() {
    let mut s = DashboardState::new();
    let reply = remove_task(&mut s, 99);
    assert_eq!(reply.status(), 404);
    assert_eq!(Value::from(reply.body().unwrap())["error"], "task not found");
}

#[test]
fn run_with_empty_queue_returns_400() {
    let mut s = DashboardState::new();
    let reply = run_tasks(&mut s).unwrap_err();
    assert_eq!(reply, Reply::BadRequest { error: "no tasks in queue".to_string() });
    assert_eq!(reply.status(), 400);
}

#[test]
fn run_starts_tasks_and_sets_running_true() {
    let mut s = DashboardState::new();
    add_task(&mut s, "/tasks/a".to_string(), loaded(None, None));
    let list = run_tasks(&mut s).unwrap();
    assert_eq!(list, vec![(0, "/tasks/a".to_string())]);
    assert!(s.running);
    let reply = run_reply(&mut s, true);
    assert_eq!(reply.status(), 202);
    assert_eq!(Value::from(reply.body().unwrap())["status"], "started");
    assert!(s.running);
}

#[test]
fn run_twice_returns_409_on_second_call() {
    let mut s = DashboardState::new();
    add_task(&mut s, "/tasks/a".to_string(), loaded(None, None));
    run_tasks(&mut s).unwrap();
    let reply = run_tasks(&mut s).unwrap_err();
    assert_eq!(reply.status(), 409);
    assert_eq!(Value::from(reply.body().unwrap())["error"], "already running");
}

#[test]
fn a_run_admits_neither_new_tasks_nor_removals() {
    let mut s = DashboardState::new();
    add_task(&mut s, "/tasks/a".to_string(), loaded(None, None));
    run_tasks(&mut s).unwrap();
    let (reply, line) = add_task(&mut s, "/tasks/b".to_string(), loaded(None, None));
    assert_eq!(reply, Reply::Conflict { error: "tasks are already running".to_string() });
    assert!(line.is_none());
    let reply = remove_task(&mut s, 0);
    assert_eq!(reply, Reply::Conflict { error: "cannot remove tasks while running".to_string() });
    assert_eq!(s.tasks.len(), 1);
}

#[test]
fn run_without_queued_tasks_is_refused() {
    let mut s = DashboardState::new();
    s.tasks.push(make_task(0, TaskState::Succeeded));
    let reply = run_tasks(&mut s).unwrap_err();
    assert_eq!(reply, Reply::BadRequest { error: "no queued tasks".to_string() });
    assert!(!s.running);
}

#[test]
fn run_lists_only_queued_tasks_in_order() {
    let mut s = DashboardState::new();
    s.tasks.push(make_task(0, TaskState::Queued));
    s.tasks.push(make_task(1, TaskState::Failed));
    s.tasks.push(make_task(2, TaskState::Queued));
    let list = run_tasks(&mut s).unwrap();
    assert_eq!(list, vec![(0, "/tasks/0".to_string()), (2, "/tasks/2".to_string())]);
}

#[test]
fn a_number_is_never_given_twice() {
    let mut s = DashboardState::new();
    add_task(&mut s, "/tasks/a".to_string(), loaded(None, None));
    remove_task(&mut s, 0);
    let (reply, _) = add_task(&mut s, "/tasks/b".to_string(), loaded(None, None));
    assert_eq!(reply, Reply::Created { id: 1 });
}

#[test]
fn tasks_that_cannot_be_started_end_the_run() {
    let mut s = DashboardState::new();
    add_task(&mut s, "/tasks/a".to_string(), loaded(None, None));
    run_tasks(&mut s).unwrap();
    let evt = parsed(&task_not_started(&mut s, 0, "no threads"));
    assert_eq!(evt["type"], "finished");
    assert_eq!(evt["success"], false);
    assert_eq!(evt["error"], "failed to spawn task worker thread: no threads");
    assert!(evt.get("elapsed_ms").is_none());
    assert!(evt.get("chain_steps").is_none());
    assert_eq!(s.tasks[0].state, TaskState::Failed);
    assert!(!s.running);
    let reply = run_reply(&mut s, false);
    assert_eq!(reply.status(), 500);
    assert_eq!(
        Value::from(reply.body().unwrap())["error"],
        "failed to start task worker threads"
    );
}

#[test]
fn a_task_runs_from_start_to_success() {
    let mut s = DashboardState::new();
    add_task(&mut s, "/tasks/a".to_string(), loaded(None, None));
    run_tasks(&mut s).unwrap();
    let evt = parsed(&task_started(&mut s, 0));
    assert_eq!(evt["type"], "phase");
    assert_eq!(evt["phase"], "StartingVm");
    assert_eq!(s.tasks[0].state, TaskState::Running);

    let result = Ok(chain(vec!["one", "two"]));
    let evt = parsed(&task_finished(&mut s, 0, "/tasks/a", &result, 1234));

    assert_eq!(evt["type"], "finished");
    assert_eq!(evt["success"], true);
    assert_eq!(evt["elapsed_ms"], 1234);
    assert_eq!(evt["output"], "/chain/two/output");
    assert_eq!(evt["chain_steps"][1]["task_name"], "two");
    assert_eq!(evt["chain_steps"][1]["state"], "succeeded");
    assert!(evt.get("error").is_none());
    assert_eq!(s.tasks[0].state, TaskState::Succeeded);
    assert_eq!(s.tasks[0].chain_step_index, 2);
    assert_eq!(s.tasks[0].chain_current_task.as_deref(), Some("two"));
    assert!(!s.running, "the last task ends the run");
}

#[test]
fn a_chain_without_steps_leaves_its_output_with_the_task() {
    let mut s = DashboardState::new();
    let mut task = make_task(0, TaskState::Running);
    task.chain_steps = vec![make_step(1, Some("x"), ChainStepState::Running)];
    s.tasks.push(task);
    let evt = parsed(&task_finished(&mut s, 0, "/tasks/a", &Ok(chain(vec![])), 5));
    assert_eq!(evt["output"], "/tasks/a/output");
    assert!(s.tasks[0].chain_steps.is_empty());
    assert_eq!(s.tasks[0].chain_step_total, 0);
}

#[test]
fn a_failed_chain_names_its_step() {
    let mut s = DashboardState::new();
    s.running = true;
    let mut task = make_task(7, TaskState::Running);
    task.chain_steps = vec![
        make_step(1, Some("one"), ChainStepState::Succeeded),
        make_step(2, Some("two"), ChainStepState::Running),
    ];
    s.tasks.push(task);
    s.tasks.push(make_task(8, TaskState::Running));
    let result = Err(Error::Runtime { message: "boom".to_string() });
    let evt = parsed(&task_finished(&mut s, 7, "/tasks/a", &result, 9));
    assert_eq!(evt["success"], false);
    assert_eq!(evt["error"], "Runtime error: boom");
    assert_eq!(evt["chain_failed_step_index"], 2);
    assert_eq!(evt["chain_steps"][1]["state"], "failed");
    assert_eq!(evt["chain_steps"][1]["error"], "Runtime error: boom");
    assert_eq!(s.tasks[0].chain_current_task.as_deref(), Some("two"));
    assert!(s.running, "another task still runs");
    assert_eq!(s.tasks[1].state, TaskState::Running);
}

#[test]
fn a_failure_without_a_running_step_goes_to_the_last_started_one() {
    let mut task = make_task(0, TaskState::Running);
    task.chain_steps = vec![
        make_step(1, Some("one"), ChainStepState::Queued),
        make_step(2, Some("two"), ChainStepState::Queued),
    ];
    task.chain_step_index = 2;
    mark_chain_failure(&mut task, "boom");
    assert_eq!(task.chain_failed_step_index, Some(2));
    assert_eq!(task.chain_steps[0].state, ChainStepState::Queued);

    let mut done = make_task(0, TaskState::Running);
    done.chain_steps = vec![make_step(1, Some("one"), ChainStepState::Succeeded)];
    done.chain_step_index = 1;
    done.chain_failed_step_index = Some(4);
    mark_chain_failure(&mut done, "boom");
    assert_eq!(done.chain_failed_step_index, None);
    assert_eq!(done.chain_steps[0].state, ChainStepState::Succeeded);
}

#[test]
fn chain_steps_grow_and_are_settled() {
    let mut task = make_task(0, TaskState::Running);
    ensure_chain_steps(&mut task, 2);
    assert_eq!(task.chain_steps.len(), 2);
    assert_eq!(task.chain_steps[1].index, 2);
    assert_eq!(task.chain_steps[1].state, ChainStepState::Queued);
    ensure_chain_steps(&mut task, 1);
    assert_eq!(task.chain_steps.len(), 2);
    task.chain_steps[0].state = ChainStepState::Running;
    task.chain_steps[0].error = Some("old".to_string());
    task.chain_steps[1].state = ChainStepState::Running;
    mark_prior_running_steps_succeeded(&mut task, 2);
    assert_eq!(task.chain_steps[0].state, ChainStepState::Succeeded);
    assert_eq!(task.chain_steps[0].error, None);
    assert_eq!(task.chain_steps[1].state, ChainStepState::Running);
    sync_chain_steps_from_result(&mut task, &chain(vec!["only"]));
    assert_eq!(task.chain_steps.len(), 1);
    assert_eq!(task.chain_steps[0].task_dir.as_deref(), Some("/chain/only"));
}

#[test]
fn every_phase_has_its_name() {
    assert_eq!(worker_phase_label(RunPhase::StartingVm), "StartingVm");
    assert_eq!(worker_phase_label(RunPhase::PreparingVm), "PreparingVm");
    assert_eq!(worker_phase_label(RunPhase::RunningScripts), "RunningScripts");
    assert_eq!(worker_phase_label(RunPhase::CollectingOutput), "CollectingOutput");
    assert_eq!(worker_phase_label(RunPhase::CleaningUp), "CleaningUp");
}

#[test]
fn an_event_is_written_with_sorted_members_and_escapes() {
    let event = DashboardSseEvent::ScriptLog { id: 5, line: "say \"hi\"\n".to_string() };
    let mut replay = std::collections::VecDeque::new();
    let line = serialize_and_push_event(&mut replay, event.to_object()).unwrap();
    assert_eq!(
        line,
        "{\"id\":5,\"line\":\"say \\\"hi\\\"\\n\",\"protocol_version\":1,\"type\":\"script_log\"}"
    );
    assert_eq!(replay[0], line);
}

#[test]
fn an_event_leaves_out_what_it_has_not() {
    let event = DashboardSseEvent::Loaded { id: 1, name: None, description: None };
    let value = Value::from(event.to_object());
    assert!(value.get("name").is_none());
    assert!(value.get("description").is_none());
    let event = DashboardSseEvent::ChainStep {
        id: 1,
        step_index: 1,
        total_steps: 1,
        task_name: None,
        task_dir: "/t".to_string(),
    };
    assert!(Value::from(event.to_object()).get("task_name").is_none());
    let script = DashboardSseEvent::Script {
        id: 1,
        name: "a.sh".to_string(),
        index: 1,
        total: 2,
        done: false,
    };
    let value = Value::from(script.to_object());
    assert_eq!(value["type"], "script");
    assert_eq!(value["done"], false);
    assert_eq!(value["total"], 2);
}

#[test]
fn a_task_is_written_with_all_its_members() {
    let mut s = DashboardState::new();
    let mut task = make_task(3, TaskState::Failed);
    task.chain_steps = vec![make_step(1, None, ChainStepState::Queued)];
    task.vm_progress_lines.push("vm".to_string());
    task.elapsed_ms = Some(7);
    task.chain_failed_step_index = Some(1);
    s.tasks.push(task);
    let body = Value::from(get_status(&s));
    let written = &body["tasks"][0];
    assert_eq!(written.as_object().unwrap().len(), 19);
    assert_eq!(written["state"], "failed");
    assert_eq!(written["elapsed_ms"], 7);
    assert_eq!(written["chain_failed_step_index"], 1);
    assert_eq!(written["vm_progress_lines"][0], "vm");
    assert_eq!(written["script_output_lines"].as_array().unwrap().len(), 0);
    assert_eq!(written["chain_steps"][0]["index"], 1);
    assert!(written["chain_steps"][0].get("task_dir").is_none());
    assert_eq!(written["output"], Value::Null);
}
