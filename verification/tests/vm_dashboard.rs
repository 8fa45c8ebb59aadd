use std::collections::VecDeque;

use serde_json::Value;
use vmize::batch::error::Error;
use vmize::batch::job::JobDefinition;
use vmize::batch::result::RunResult;
use vmize::batch::runner::RunPhase;
use vmize::replay::SSE_REPLAY_CAPACITY;
use vmize::reply::Reply;
use vmize::vm_dashboard::{
    add_job, forward_progress, get_status, job_finished, job_not_loaded, job_started,
    maybe_clear_running, remove_job, run_jobs, DashboardState, JobEntry, JobState, RunProgress,
};

fn parsed(line: &str) -> Value {
    serde_json::from_str(line).unwrap()
}

fn object(key: &str, value: Value) -> serde_json::Map<String, Value> {
    let mut out = serde_json::Map::new();
    out.insert(key.to_string(), value);
    out
}

fn make_job(id: usize, state: JobState) -> JobEntry {
    JobEntry {
        id,
        dir: format!("/jobs/{id}"),
        name: Some(format!("job-{id}")),
        description: None,
        state,
        phase: None,
        script_index: 0,
        script_total: 0,
        current_script: None,
        recent_logs: VecDeque::new(),
        elapsed_ms: None,
        error: None,
        output: None,
    }
}

fn loaded(name: Option<&str>) -> Result<(JobDefinition, String, String), String> {
    Ok((
        JobDefinition {
            name: name.map(|n| n.to_string()),
            description: None,
            disk_size: None,
        },
        "/j/scripts".to_string(),
        "/j/output".to_string(),
    ))
}

#[test]
fn main_new_state_is_empty_and_not_running() {
    let s = DashboardState::new();
    assert!(s.jobs.is_empty());
    assert!(!s.running);
    assert_eq!(s.next_id, 0);
    assert!(s.replay.is_empty());
}

#[test]
fn main_push_event_records_to_replay_and_broadcasts() {
    let mut s = DashboardState::new();
    let mut event = object("type", Value::from("test"));
    event.insert("v".to_string(), Value::from(1));
    let received = s.push_event(event);

    assert_eq!(s.replay.len(), 1);
    assert!(s.replay[0].contains("\"type\":\"test\""));
    assert!(received.contains("\"type\":\"test\""));
}

#[test]
fn main_push_event_evicts_oldest_when_at_capacity() {
    let mut s = DashboardState::new();

    for i in 0..SSE_REPLAY_CAPACITY {
        s.push_event(object("seq", Value::from(i)));
    }
    assert_eq!(s.replay.len(), SSE_REPLAY_CAPACITY);

    s.push_event(object("seq", Value::from("newest")));

    assert_eq!(s.replay.len(), SSE_REPLAY_CAPACITY, "capacity must not grow");
    assert!(!s.replay[0].contains("\"seq\":0"), "oldest event should be evicted, front = {}", s.replay[0]);
    assert!(s.replay.back().unwrap().contains("newest"), "newest event should be at the back");
}

#[test]
fn maybe_clear_running_clears_when_all_jobs_terminal() {
    let mut s = DashboardState::new();
    s.running = true;
    s.jobs.push(make_job(0, JobState::Succeeded));
    s.jobs.push(make_job(1, JobState::Failed));

    maybe_clear_running(&mut s);

    assert!(!s.running);
}

#[test]
fn main_maybe_clear_running_keeps_true_while_any_running() {
    let mut s = DashboardState::new();
    s.running = true;
    s.jobs.push(make_job(0, JobState::Succeeded));
    s.jobs.push(make_job(1, JobState::Running));

    maybe_clear_running(&mut s);

    assert!(s.running);
}

#[test]
fn main_maybe_clear_running_keeps_true_while_any_queued() {
    let mut s = DashboardState::new();
    s.running = true;
    s.jobs.push(make_job(0, JobState::Succeeded));
    s.jobs.push(make_job(1, JobState::Queued));

    maybe_clear_running(&mut s);

    assert!(s.running);
}

#[test]
fn maybe_clear_running_does_not_set_false_when_no_jobs() {
    let mut s = DashboardState::new();
    s.running = true;
    maybe_clear_running(&mut s);
    assert!(!s.running);
}

#[test]
fn forward_progress_phase_updates_job_and_broadcasts_event() {
    let mut s = DashboardState::new();
    s.jobs.push(make_job(0, JobState::Running));

    let line = forward_progress(&mut s, 0, &RunProgress::Phase(RunPhase::RunningScripts));

    assert_eq!(s.jobs[0].phase, Some("RunningScripts".to_string()));
    let evt = parsed(&line);
    assert_eq!(evt["type"], "phase");
    assert_eq!(evt["id"], 0);
    assert_eq!(evt["phase"], "RunningScripts");
    assert!(evt.get("protocol_version").is_none());
}

#[test]
fn forward_progress_script_started_clears_logs_and_sets_current() {
    let mut s = DashboardState::new();
    let mut job = make_job(0, JobState::Running);
    job.recent_logs.push_back("old log".to_string());
    s.jobs.push(job);

    forward_progress(
        &mut s,
        0,
        &RunProgress::ScriptStarted { script: "10_build.sh".to_string(), index: 1, total: 3 },
    );

    assert!(s.jobs[0].recent_logs.is_empty(), "logs must be cleared on ScriptStarted");
    assert_eq!(s.jobs[0].current_script, Some("10_build.sh".to_string()));
    assert_eq!(s.jobs[0].script_index, 1);
    assert_eq!(s.jobs[0].script_total, 3);
}

#[test]
fn main_forward_progress_script_finished_updates_counters() {
    let mut s = DashboardState::new();
    s.jobs.push(make_job(0, JobState::Running));

    let line = forward_progress(
        &mut s,
        0,
        &RunProgress::ScriptFinished { script: "10_build.sh".to_string(), index: 1, total: 3 },
    );

    assert_eq!(s.jobs[0].script_index, 1);
    assert_eq!(s.jobs[0].script_total, 3);
    assert_eq!(parsed(&line)["done"], true);
}

#[test]
fn forward_progress_log_line_appends_and_caps_at_ten() {
    let mut s = DashboardState::new();
    s.jobs.push(make_job(0, JobState::Running));

    for i in 0..12usize {
        forward_progress(&mut s, 0, &RunProgress::LogLine { line: format!("line {i}") });
    }

    assert_eq!(s.jobs[0].recent_logs.len(), 10, "must cap at 10 entries");
    assert_eq!(s.jobs[0].recent_logs.front().unwrap(), "line 2", "oldest surviving entry should be line 2");
    assert_eq!(s.jobs[0].recent_logs.back().unwrap(), "line 11", "newest entry should be line 11");
}

#[test]
fn forward_progress_ignores_unknown_job_id_silently() {
    let mut s = DashboardState::new();
    forward_progress(&mut s, 99, &RunProgress::Phase(RunPhase::StartingVm));
    assert!(s.jobs.is_empty());
}

#[test]
fn jobs_are_queued_and_removed() {
    let mut s = DashboardState::new();
    let (reply, line) = add_job(&mut s, "/jobs/a".to_string(), loaded(Some("a")));
    assert_eq!(reply, Reply::Created { id: 0 });
    let evt = parsed(&line.unwrap());
    assert_eq!(evt["type"], "loaded");
    assert_eq!(evt["name"], "a");
    assert_eq!(evt["description"], Value::Null);
    let (reply, line) = add_job(&mut s, "/jobs/b".to_string(), Err("Cannot read".to_string()));
    assert_eq!(reply, Reply::BadRequest { error: "Cannot read".to_string() });
    assert!(line.is_none());
    assert_eq!(remove_job(&mut s, 5), Reply::NotFound { error: "job not found".to_string() });
    assert_eq!(remove_job(&mut s, 0), Reply::NoContent);
    assert!(s.jobs.is_empty());
}

#[test]
fn the_queue_holds_four_jobs() {
    let mut s = DashboardState::new();
    for i in 0..4 {
        assert_eq!(add_job(&mut s, format!("/jobs/{i}"), loaded(None)).0.status(), 201);
    }
    let (reply, _) = add_job(&mut s, "/jobs/4".to_string(), loaded(None));
    assert_eq!(reply, Reply::BadRequest { error: "queue is full (max 4)".to_string() });
}

#[test]
fn a_run_of_jobs_goes_from_start_to_end() {
    let mut s = DashboardState::new();
    assert_eq!(
        run_jobs(&mut s).unwrap_err(),
        Reply::BadRequest { error: "no jobs in queue".to_string() }
    );
    add_job(&mut s, "/jobs/a".to_string(), loaded(None));
    add_job(&mut s, "/jobs/b".to_string(), loaded(None));
    add_job(&mut s, "/jobs/c".to_string(), loaded(None));
    assert_eq!(
        run_jobs(&mut s).unwrap(),
        vec![
            (0, "/jobs/a".to_string()),
            (1, "/jobs/b".to_string()),
            (2, "/jobs/c".to_string())
        ]
    );
    assert_eq!(
        run_jobs(&mut s).unwrap_err(),
        Reply::Conflict { error: "already running".to_string() }
    );
    assert_eq!(
        add_job(&mut s, "/jobs/d".to_string(), loaded(None)).0,
        Reply::Conflict { error: "jobs are already running".to_string() }
    );
    assert_eq!(
        remove_job(&mut s, 0),
        Reply::Conflict { error: "cannot remove jobs while running".to_string() }
    );

    let evt = parsed(&job_not_loaded(&mut s, 0, "Invalid JSON"));
    assert_eq!(evt["type"], "finished");
    assert_eq!(evt["error"], "Invalid JSON");
    assert!(evt.get("elapsed_ms").is_none());
    assert_eq!(s.jobs[0].state, JobState::Failed);

    let evt = parsed(&job_started(&mut s, 1));
    assert_eq!(evt["phase"], "StartingVm");
    assert_eq!(s.jobs[1].state, JobState::Running);

    let done = Ok(RunResult::new("vm0", "/j/output"));
    let evt = parsed(&job_finished(&mut s, 1, "/j/output", &done, 42));
    assert_eq!(evt["success"], true);
    assert_eq!(evt["elapsed_ms"], 42);
    assert_eq!(evt["output"], "/j/output");
    assert!(s.running);

    let failed = Err(Error::NoScripts { path: "/j/scripts".to_string() });
    let evt = parsed(&job_finished(&mut s, 2, "/j/output", &failed, 7));
    assert_eq!(evt["success"], false);
    assert_eq!(evt["error"], "No files were found in /j/scripts");
    assert!(!s.running);
}

#[test]
fn a_job_is_written_with_all_its_members() {
    let mut s = DashboardState::new();
    let mut job = make_job(2, JobState::Succeeded);
    job.recent_logs.push_back("a line".to_string());
    job.elapsed_ms = Some(3);
    s.jobs.push(job);
    let body = Value::from(get_status(&s));
    assert_eq!(body["running"], false);
    let written = &body["jobs"][0];
    assert_eq!(written.as_object().unwrap().len(), 13);
    assert_eq!(written["recent_logs"][0], "a line");
    assert_eq!(written["elapsed_ms"], 3);
    assert_eq!(written["state"], "succeeded");
    assert_eq!(written["phase"], Value::Null);
}
