use vmize::cli::{check_batch_size, done_line, format_task_error, print_chain_steps};
use vmize::path::PathKind;
use vmize::shell::shell_quote;
use vmize::task::{
    LoadedTask, TaskDefinition, TaskVmBoot, TaskVmConfig, TaskVmMount, TaskVmMountMode,
};
use vmize::worker::chain::{
    create_overlay_input_dir, handoff_paths, next_overlay_input_dir, unsupported_artifact,
    ChainPlanner, ChainRun, ChainStage, ChainStep, ChainStepPlan, HandoffArtifact,
};
use vmize::worker::error::{combine_errors, Error};
use vmize::worker::kernel_config::{
    collect_kernel_config_mismatches, parse_kernel_config_requirement, parse_kernel_config_text,
    KernelConfigValue,
};
use vmize::worker::launch::{
    clone_failed, next_rootfs_clone_path, plan_task_run, resize_rootfs_image, sanitize_for_path,
    LaunchFacts, ResizeOutcome, TaskRunOptions, TempMarks,
};
use vmize::worker::paths::{
    parse_artifact_relative_path, parse_next_task_relative_path, path_to_str,
};
use vmize::worker::progress::{send_progress, ChainStepProgress, RunPhase, RunProgress};
use vmize::worker::result::{ChainRunResult, ChainStepResult, RunResult};
use vmize::worker::runner::{
    perform, run_loaded_task_with_ops, RunAction, VM_LOGS_DIR, VM_OUTPUT_DIR,
};
use vmize::worker::vm_ops::{mock_vm_record, MockVmOps, VmOps, VmOptions};
use vmize::worker::MAX_BATCH_TASKS;

fn strings(list: &[&str]) -> Vec<String> {
    list.iter().map(|s| s.to_string()).collect()
}

fn create_test_loaded_task(commands: &[&str]) -> LoadedTask {
    LoadedTask {
        definition: TaskDefinition {
            name: Some("test".to_string()),
            description: None,
            disk_size: None,
            commands: strings(commands),
            artifacts: None,
            next_task_dir: None,
            vm: None,
        },
        input_dir: "/work/task/input".to_string(),
        output_dir: "/work/task/output".to_string(),
        logs_dir: "/work/task/output/logs".to_string(),
    }
}

fn facts() -> LaunchFacts {
    LaunchFacts {
        mounts: vec![PathKind::Directory],
        kernel: PathKind::File,
        rootfs: PathKind::File,
    }
}

fn custom_vm(clone_rootfs: bool) -> TaskVmConfig {
    TaskVmConfig {
        boot: TaskVmBoot::Custom,
        kernel: Some("bzImage".to_string()),
        rootfs: Some("rootfs.qcow2".to_string()),
        clone_rootfs,
        ..TaskVmConfig::default()
    }
}

struct Outcome {
    result: Result<RunResult, Error>,
    events: Vec<RunProgress>,
    cleared: Vec<String>,
}

/// Plans and runs a task on a stand-in machine. Files of the host are taken to be there.
fn run_with(
    mock: &mut MockVmOps,
    task: LoadedTask,
    options: TaskRunOptions,
    facts: &LaunchFacts,
    kernel_config: &str,
) -> Outcome {
    let contents = Ok(kernel_config.to_string());
    let (requirements, mut plan) =
        match plan_task_run(&task, &options, PathKind::File, &contents, facts) {
            Ok(planned) => planned,
            Err(err) => {
                return Outcome { result: Err(err), events: Vec::new(), cleared: Vec::new() }
            }
        };
    if plan.clone_from.is_some() {
        plan.use_clone("/tmp/clone.qcow2");
    }
    let (mut run, mut action) =
        run_loaded_task_with_ops(task, requirements, plan.vm_options, true);
    let mut events = Vec::new();
    let mut cleared = Vec::new();
    loop {
        events.append(&mut run.take_progress());
        action = match action {
            RunAction::Finish => break,
            RunAction::ClearPath { path } => {
                cleared.push(path);
                run.artifact_cleared(Ok(()))
            }
            RunAction::CheckPath { .. } => run.artifact_checked(true),
            other => perform(&mut run, mock, other),
        };
    }
    Outcome { result: run.finish(12), events, cleared }
}

fn run(mock: &mut MockVmOps, task: LoadedTask) -> Outcome {
    run_with(mock, task, TaskRunOptions::default(), &facts(), "")
}

// Reading requirements and paths.

#[test]
fn parse_kernel_config_text_parses_yes_module_and_not_set_values() {
    let parsed = parse_kernel_config_text(
        r#"
            CONFIG_DM_VERITY=y
            CONFIG_BLK_DEV_LOOP=m
            # CONFIG_USER_NS is not set
            "#,
    );

    assert_eq!(parsed.get("CONFIG_DM_VERITY"), Some(KernelConfigValue::Yes));
    assert_eq!(parsed.get("CONFIG_BLK_DEV_LOOP"), Some(KernelConfigValue::Module));
    assert_eq!(parsed.get("CONFIG_USER_NS"), Some(KernelConfigValue::No));
    assert_eq!(parsed.get("CONFIG_OTHER"), None);
}

#[test]
fn parse_kernel_config_requirement_rejects_config_prefix_only() {
    let err = parse_kernel_config_requirement("CONFIG_=y").unwrap_err();
    match err {
        Error::Runtime { message } => {
            assert!(message.contains("Invalid vm.required_kernel_config symbol"))
        }
        other => panic!("Expected Runtime error, got: {other:?}"),
    }
}

#[test]
fn a_later_line_of_a_kernel_config_counts() {
    let parsed = parse_kernel_config_text("CONFIG_A=y\nCONFIG_A=m\n");
    let wanted = vec![parse_kernel_config_requirement("CONFIG_A=y").unwrap()];
    assert_eq!(
        collect_kernel_config_mismatches(&parsed, &wanted),
        strings(&["CONFIG_A expected=y actual=m"])
    );
}

#[test]
fn shell_quote_wraps_in_single_quotes() {
    assert_eq!(shell_quote("hello"), "'hello'");
}

#[test]
fn shell_quote_escapes_embedded_single_quotes() {
    assert_eq!(shell_quote("it's"), "'it'\"'\"'s'");
}

#[test]
fn shell_quote_handles_empty_string() {
    assert_eq!(shell_quote(""), "''");
}

#[test]
fn shell_quote_handles_special_chars() {
    assert_eq!(shell_quote("$HOME"), "'$HOME'");
    assert_eq!(shell_quote("echo `cmd`"), "'echo `cmd`'");
    assert_eq!(shell_quote("a\\b"), "'a\\b'");
}

#[test]
fn combine_errors_formats_both_messages() {
    let primary = Error::ScriptFailed {
        script: "test.sh".to_string(),
        message: "exit code 1".to_string(),
    };
    let cleanup =
        Error::CleanupFailed { vm_id: "vm0".to_string(), message: "timeout".to_string() };

    let result = combine_errors(primary, cleanup);

    match result {
        Error::Runtime { message } => {
            assert!(message.contains("test.sh"));
            assert!(message.contains("exit code 1"));
            assert!(message.contains("vm0"));
            assert!(message.contains("timeout"));
            assert!(message.contains("additionally"));
        }
        err => panic!("Expected Runtime error, got: {err:?}"),
    }
}

#[test]
fn path_to_str_returns_str_for_valid_utf8_path() {
    let path = "/tmp/test/dir".to_string();
    let result = path_to_str(&path).unwrap();
    assert_eq!(result, "/tmp/test/dir");
}

#[test]
fn send_progress_sends_event_when_channel_present() {
    let mut listener = Some(Vec::new());

    send_progress(&mut listener, RunProgress::Phase(RunPhase::StartingVm));

    let received = listener.unwrap().remove(0);
    assert_eq!(received, RunProgress::Phase(RunPhase::StartingVm));
}

#[test]
fn send_progress_does_nothing_when_channel_is_none() {
    let mut listener: Option<Vec<RunProgress>> = None;
    send_progress(&mut listener, RunProgress::Phase(RunPhase::StartingVm));
    assert!(listener.is_none());
}

#[test]
fn run_result_new_initializes_correctly() {
    let result = RunResult::new("vm0", "/tmp/output", "/tmp/output/logs");

    assert_eq!(result.vm_id, "vm0");
    assert_eq!(result.output_dir, "/tmp/output");
    assert_eq!(result.logs_dir, "/tmp/output/logs");
    assert!(result.executed_commands.is_empty());
    assert!(result.collected_artifacts.is_empty());
    assert_eq!(result.exit_code, 0);
    assert_eq!(result.elapsed_ms, 0);
}

#[test]
fn task_run_options_default() {
    let options = TaskRunOptions::default();
    assert!(options.disk_size.is_none());
    assert!(options.show_progress);
}

#[test]
fn parse_next_task_relative_path_accepts_nested_relative_paths() {
    let parsed = parse_next_task_relative_path("next/task2").unwrap();
    assert_eq!(parsed, "next/task2");
}

#[test]
fn parse_next_task_relative_path_allows_parent_component() {
    let parsed = parse_next_task_relative_path("../task2").unwrap();
    assert_eq!(parsed, "../task2");
}

#[test]
fn parse_artifact_relative_path_rejects_parent_component() {
    let err = parse_artifact_relative_path("../handoff.txt").unwrap_err();
    match err {
        Error::Runtime { message } => assert!(message.contains("must not contain")),
        other => panic!("Expected Runtime error, got: {other:?}"),
    }
}

// Chains.

fn handoff(relative: &str) -> HandoffArtifact {
    HandoffArtifact {
        relative_path: relative.to_string(),
        source_path: format!("/work/task/output/{relative}"),
    }
}

#[test]
fn create_overlay_input_dir_copies_input_and_handoff_artifacts() {
    let place =
        create_overlay_input_dir("/tmp/overlay", &handoff("nested/handoff.txt"), false).unwrap();
    assert_eq!(place, "/tmp/overlay/nested/handoff.txt");
}

#[test]
fn create_overlay_input_dir_fails_on_conflict() {
    let err = create_overlay_input_dir("/tmp/overlay", &handoff("handoff.txt"), true).unwrap_err();
    match err {
        Error::Runtime { message } => assert!(message.contains("handoff conflict")),
        other => panic!("Expected Runtime error, got: {other:?}"),
    }
}

fn task_named(name: &str, next: Option<&str>, artifacts: Option<Vec<String>>) -> LoadedTask {
    let mut task = create_test_loaded_task(&[]);
    task.definition.name = Some(name.to_string());
    task.definition.next_task_dir = next.map(|n| n.to_string());
    task.definition.artifacts = artifacts;
    task
}

#[test]
fn resolve_chain_steps_expands_linear_chain() {
    let mut planner =
        ChainPlanner::resolve_chain_steps("task1", Ok("/t/task1".to_string())).unwrap();
    let step = planner.task_loaded(Ok(task_named("one", Some("../task2"), None))).unwrap();
    match step {
        ChainStep::Resolve { candidate } => assert_eq!(candidate, "/t/task1/../task2"),
        other => panic!("unexpected step {other:?}"),
    }
    planner.resolve_next_task_dir("../task2", Ok("/t/task2".to_string()), true).unwrap();
    let step = planner.task_loaded(Ok(task_named("two", None, None))).unwrap();
    assert!(matches!(step, ChainStep::Complete));

    let steps = planner.steps;
    assert_eq!(steps.len(), 2);
    assert_eq!(steps[0].loaded.definition.name.as_deref(), Some("one"));
    assert_eq!(steps[1].loaded.definition.name.as_deref(), Some("two"));
    assert_eq!(steps[1].task_dir, "/t/task2");
}

#[test]
fn resolve_chain_steps_rejects_cycle() {
    let mut planner =
        ChainPlanner::resolve_chain_steps("task1", Ok("/t/task1".to_string())).unwrap();
    planner.task_loaded(Ok(task_named("one", Some("../task2"), None))).unwrap();
    planner.resolve_next_task_dir("../task2", Ok("/t/task2".to_string()), true).unwrap();
    planner.task_loaded(Ok(task_named("two", Some("../task1"), None))).unwrap();
    let err = planner
        .resolve_next_task_dir("../task1", Ok("/t/task1".to_string()), true)
        .unwrap_err();

    match err {
        Error::Runtime { message } => assert!(message.contains("cycle")),
        other => panic!("Expected Runtime error, got: {other:?}"),
    }
}

#[test]
fn a_chain_that_cannot_be_followed_fails() {
    let err = ChainPlanner::resolve_chain_steps("t", Err("gone".to_string())).unwrap_err();
    assert_eq!(err.describe(), "Runtime error: Failed to resolve task directory t: gone");
    let mut planner = ChainPlanner::resolve_chain_steps("t", Ok("/t".to_string())).unwrap();
    let err = planner.task_loaded(Err("bad json".to_string())).unwrap_err();
    assert_eq!(err.describe(), "Runtime error: Failed to load task /t: bad json");
    let mut planner = ChainPlanner::resolve_chain_steps("t", Ok("/t".to_string())).unwrap();
    planner.task_loaded(Ok(task_named("one", Some("next"), None))).unwrap();
    let err = planner.resolve_next_task_dir("next", Ok("/t/next".to_string()), false).unwrap_err();
    assert_eq!(
        err.describe(),
        "Runtime error: Resolved next task directory /t/next does not contain task.json"
    );
    let err = planner.resolve_next_task_dir("next", Err("gone".to_string()), true).unwrap_err();
    assert_eq!(
        err.describe(),
        "Runtime error: Failed to resolve next_task_dir 'next' from /t: gone"
    );
}

fn two_steps(artifacts: Option<Vec<String>>) -> Vec<ChainStepPlan> {
    vec![
        ChainStepPlan {
            task_dir: "/t/one".to_string(),
            loaded: task_named("one", Some("../two"), artifacts),
        },
        ChainStepPlan { task_dir: "/t/two".to_string(), loaded: task_named("two", None, None) },
    ]
}

#[test]
fn a_chain_hands_artifacts_to_its_next_task() {
    let steps = two_steps(Some(strings(&["data/out.txt"])));
    assert_eq!(handoff_paths(&steps[0].loaded), strings(&["/work/task/output/data/out.txt"]));
    let mut chain = ChainRun::run_task_chain_blocking_with_progress(steps, true);
    assert_eq!(chain.stage, ChainStage::Running);
    let first = chain.task_to_run();
    assert_eq!(first.input_dir, chain.steps[0].loaded.input_dir);
    chain.task_ran(Ok(RunResult::new("vm0", "/o1", "/l1"))).unwrap();
    assert_eq!(chain.stage, ChainStage::HandingOff);
    chain.handed_off(&[PathKind::File]).unwrap();
    assert_eq!(chain.stage, ChainStage::Overlaying);
    let handed = chain.handoff.as_ref().unwrap();
    assert_eq!(handed.len(), 1);
    assert_eq!(handed[0].relative_path, "data/out.txt");
    assert_eq!(handed[0].source_path, "/work/task/output/data/out.txt");
    let lost = Error::Runtime { message: "disk full".to_string() };
    assert_eq!(
        chain.overlay_made(Err(lost)).unwrap_err().describe(),
        "Runtime error: disk full"
    );
    chain.overlay_made(Ok("/tmp/overlay".to_string())).unwrap();
    assert_eq!(chain.stage, ChainStage::Running);
    let second = chain.task_to_run();
    assert_eq!(second.input_dir, "/tmp/overlay");
    assert_eq!(second.output_dir, chain.steps[1].loaded.output_dir);
    assert_eq!(second.definition.name.as_deref(), Some("two"));
    chain.task_ran(Ok(RunResult::new("vm1", "/o2", "/l2"))).unwrap();
    assert_eq!(chain.stage, ChainStage::Finished);
    let events = chain.take_progress();
    assert_eq!(events.len(), 2);
    match &events[1] {
        ChainStepProgress::StepStarted { step_index, total_steps, task_dir, task_name } => {
            assert_eq!((*step_index, *total_steps), (2, 2));
            assert_eq!(task_dir, "/t/two");
            assert_eq!(task_name.as_deref(), Some("two"));
        }
    }
    assert_eq!(chain.result.steps.len(), 2);
    assert_eq!(chain.result.steps[0].handoff_artifacts, strings(&["data/out.txt"]));
    assert_eq!(chain.result.steps[1].run_result.output_dir, "/o2");
}

#[test]
fn run_task_chain_fails_when_handoff_artifact_is_missing() {
    let mut chain = ChainRun::run_task_chain_blocking_with_progress(
        two_steps(Some(strings(&["handoff.txt"]))),
        false,
    );
    chain.task_ran(Ok(RunResult::new("vm0", "/o1", "/l1"))).unwrap();
    let err = chain.handed_off(&[PathKind::Missing]).unwrap_err();
    match err {
        Error::MissingArtifact { file } => assert_eq!(file, "handoff.txt"),
        other => panic!("Expected MissingArtifact error, got: {other:?}"),
    }
}

#[test]
fn a_chain_needs_artifacts_to_hand_off() {
    let mut chain = ChainRun::run_task_chain_blocking_with_progress(two_steps(None), false);
    chain.task_ran(Ok(RunResult::new("vm0", "/o1", "/l1"))).unwrap();
    let err = chain.handed_off(&[]).unwrap_err();
    assert!(err.describe().contains("declares next_task_dir but has no artifacts to hand off"));
}

#[test]
fn a_failed_task_ends_its_chain() {
    let mut chain = ChainRun::run_task_chain_blocking_with_progress(two_steps(None), false);
    let err =
        chain.task_ran(Err(Error::VmStart { message: "no kvm".to_string() })).unwrap_err();
    assert_eq!(
        err.describe(),
        "Runtime error: Task chain failed at /t/one: Failed to start VM: no kvm"
    );
}

#[test]
fn temporary_names_tell_their_maker() {
    let marks =
        TempMarks { temp_dir: "/tmp".to_string(), pid: 7, nanos: 1234567890123, counter: 3 };
    assert_eq!(next_overlay_input_dir(&marks), "/tmp/vmize-chain-input-7-1234567890123-3");
    assert_eq!(
        next_rootfs_clone_path("/r/root.qcow2", Some("my task"), &marks),
        "/tmp/vmize-rootfs-my-task-7-1234567890123-3.qcow2"
    );
    assert_eq!(
        next_rootfs_clone_path("/r/root", None, &marks),
        "/tmp/vmize-rootfs-task-7-1234567890123-3.img"
    );
    assert_eq!(sanitize_for_path("a/b.c"), "a-b-c");
    assert_eq!(
        unsupported_artifact("/s").describe(),
        "Runtime error: Unsupported artifact type at /s"
    );
}

// Collecting output.

#[test]
fn collect_output_with_ops_replaces_existing_file_and_directory_artifacts() {
    let mut task = create_test_loaded_task(&[]);
    task.definition.artifacts = Some(strings(&["artifact.txt", "rootfs"]));
    let mut mock = MockVmOps::new().with_run_ok("vm0").with_ssh_ok("");

    let outcome = run(&mut mock, task);

    let result = outcome.result.unwrap();
    assert_eq!(result.collected_artifacts, strings(&["artifact.txt", "rootfs"]));
    assert_eq!(
        outcome.cleared,
        strings(&["/work/task/output/artifact.txt", "/work/task/output/rootfs"])
    );
    let calls = &mock.cp_from_calls;
    assert!(calls.iter().any(|(_, remote, _, recursive)| {
        remote == &format!("{}/artifact.txt", VM_OUTPUT_DIR) && *recursive
    }));
    assert!(calls.iter().any(|(_, remote, _, recursive)| {
        remote == &format!("{}/rootfs", VM_OUTPUT_DIR) && *recursive
    }));
}

#[test]
fn collect_output_with_ops_rejects_invalid_artifact_path_before_copying_artifact() {
    let mut task = create_test_loaded_task(&[]);
    task.definition.artifacts = Some(strings(&["../escape.txt"]));
    let mut mock = MockVmOps::new().with_run_ok("vm0").with_ssh_ok("");

    let outcome = run(&mut mock, task);

    match outcome.result.expect_err("expected invalid artifact path error") {
        Error::Runtime { message } => {
            assert!(message.contains("artifact path"));
            assert!(message.contains(".."));
        }
        other => panic!("Expected Runtime error, got: {other:?}"),
    }
    assert_eq!(mock.cp_from_calls.len(), 1);
    assert_eq!(mock.cp_from_calls[0].1, format!("{}/*", VM_LOGS_DIR));
}

#[test]
fn an_artifact_that_did_not_come_is_missing() {
    let mut task = create_test_loaded_task(&[]);
    task.definition.artifacts = Some(strings(&["a.txt"]));
    let mut mock = MockVmOps::new().with_run_ok("vm0").with_ssh_ok("");
    let (mut run, mut action) =
        run_loaded_task_with_ops(task, Vec::new(), VmOptions::default(), false);
    loop {
        action = match action {
            RunAction::Finish => break,
            RunAction::ClearPath { .. } => run.artifact_cleared(Ok(())),
            RunAction::CheckPath { .. } => run.artifact_checked(false),
            other => perform(&mut run, &mut mock, other),
        };
    }
    match run.finish(0).unwrap_err() {
        Error::MissingArtifact { file } => assert_eq!(file, "a.txt"),
        other => panic!("Expected MissingArtifact error, got: {other:?}"),
    }
    assert_eq!(mock.rm_calls(), &strings(&["vm0"]));
}

// Runs on a stand-in.

#[test]
fn run_loaded_task_with_ops_returns_success_on_happy_path() {
    let task = create_test_loaded_task(&["00_first.sh", "10_second.sh"]);

    let mut mock = MockVmOps::new()
        .with_run_ok("test-vm")
        .with_ssh_ok("")
        .with_stream_outputs(strings(&["first output"]))
        .with_stream_outputs(strings(&["second output"]));

    let outcome = run(&mut mock, task);
    let lines: Vec<&str> = outcome
        .events
        .iter()
        .filter_map(|event| match event {
            RunProgress::ScriptOutputLine { line } => Some(line.as_str()),
            _ => None,
        })
        .collect();
    assert_eq!(lines, vec!["first output", "second output"]);
    let result = outcome.result.unwrap();

    assert_eq!(result.vm_id, "test-vm");
    assert_eq!(result.exit_code, 0);
    assert_eq!(result.executed_commands, vec!["00_first.sh", "10_second.sh"]);
    assert_eq!(result.elapsed_ms, 12);
    assert_eq!(mock.rm_calls(), &vec!["test-vm"]);
}

#[test]
fn run_loaded_task_with_ops_fails_on_vm_start_error() {
    let task = create_test_loaded_task(&["00_first.sh"]);
    let mut mock = MockVmOps::new().with_run_err("QEMU failed to start");

    let result = run(&mut mock, task).result;

    assert!(result.is_err());
    match result.unwrap_err() {
        Error::VmStart { message } => assert!(message.contains("QEMU failed")),
        err => panic!("Expected VmStart error, got: {err:?}"),
    }
}

#[test]
fn run_loaded_task_with_ops_fails_on_prepare_vm_error() {
    let task = create_test_loaded_task(&["00_first.sh"]);
    let mut mock =
        MockVmOps::new().with_run_ok("test-vm").with_ssh_err("SSH connection failed");

    let result = run(&mut mock, task).result;

    assert!(result.is_err());
    match result.unwrap_err() {
        Error::VmCommand { message } => assert!(message.contains("SSH connection failed")),
        err => panic!("Expected VmCommand error, got: {err:?}"),
    }
    assert_eq!(mock.rm_calls(), &vec!["test-vm"]);
}

#[test]
fn run_loaded_task_with_ops_fails_on_cp_to_error() {
    let task = create_test_loaded_task(&["00_first.sh"]);
    let mut mock =
        MockVmOps::new().with_run_ok("test-vm").with_ssh_ok("").with_cp_to_err("copy failed");

    let result = run(&mut mock, task).result;

    assert!(result.is_err());
    match result.unwrap_err() {
        Error::CopyToVm { message } => assert!(message.contains("copy failed")),
        err => panic!("Expected CopyToVm error, got: {err:?}"),
    }
    assert_eq!(mock.rm_calls(), &vec!["test-vm"]);
}

#[test]
fn a_run_that_fails_says_what_it_turns_to_next() {
    let collecting = RunProgress::Phase(RunPhase::CollectingOutput);
    let cleaning = RunProgress::Phase(RunPhase::CleaningUp);
    let mut prepare = MockVmOps::new().with_run_ok("test-vm").with_ssh_err("down");
    let mut copy = MockVmOps::new().with_run_ok("test-vm").with_cp_to_err("lost");
    for mock in [&mut prepare, &mut copy] {
        let events = run(mock, create_test_loaded_task(&["00_first.sh"])).events;
        let start = events.len() - 2;
        assert_eq!(events[start], collecting);
        assert_eq!(events[start + 1], cleaning);
    }

    let mut task = create_test_loaded_task(&[]);
    task.definition.artifacts = Some(strings(&["a.txt", "b.txt"]));
    let mut mock = MockVmOps::new().with_run_ok("test-vm");
    let events = run(&mut mock, task).events;
    assert_eq!(events.iter().filter(|event| **event == collecting).count(), 1);
    assert_eq!(events.last(), Some(&cleaning));
}

#[test]
fn run_loaded_task_with_ops_cleans_up_on_vm_start_failure() {
    let task = create_test_loaded_task(&["00_first.sh"]);
    let mut mock = MockVmOps::new().with_run_err("failed");

    let _ = run(&mut mock, task);

    assert!(mock.rm_calls().is_empty());
}

#[test]
fn run_loaded_task_with_ops_sends_progress_events() {
    let task = create_test_loaded_task(&["00_first.sh"]);
    let mut mock = MockVmOps::new()
        .with_run_ok("test-vm")
        .with_ssh_ok("")
        .with_stream_outputs(strings(&["output"]));

    let events = run(&mut mock, task).events;

    assert!(events.iter().any(|e| matches!(e, RunProgress::Phase(RunPhase::StartingVm))));
    assert!(events.iter().any(|e| matches!(e, RunProgress::Phase(RunPhase::PreparingVm))));
    assert!(events.iter().any(|e| matches!(e, RunProgress::Phase(RunPhase::RunningScripts))));
    assert!(events.iter().any(|e| matches!(e, RunProgress::Phase(RunPhase::CollectingOutput))));
    assert!(events.iter().any(|e| matches!(e, RunProgress::Phase(RunPhase::CleaningUp))));
    assert!(events.iter().any(|e| matches!(e, RunProgress::ScriptStarted { .. })));
    assert!(events.iter().any(|e| matches!(e, RunProgress::ScriptFinished { .. })));
    assert!(events.contains(&RunProgress::ScriptOutputLine { line: "output".to_string() }));
}

#[test]
fn run_loaded_task_with_ops_handles_cleanup_failure() {
    let task = create_test_loaded_task(&["00_first.sh"]);
    let mut mock = MockVmOps::new()
        .with_run_ok("test-vm")
        .with_ssh_ok("")
        .with_stream_outputs(strings(&["output"]))
        .with_rm_err("cleanup failed");

    let result = run(&mut mock, task).result;

    assert!(result.is_err());
    match result.unwrap_err() {
        Error::CleanupFailed { vm_id, message } => {
            assert_eq!(vm_id, "test-vm");
            assert!(message.contains("cleanup failed"));
        }
        err => panic!("Expected CleanupFailed error, got: {err:?}"),
    }
}

#[test]
fn run_loaded_task_with_ops_records_ssh_commands() {
    let task = create_test_loaded_task(&["00_first.sh"]);
    let mut mock = MockVmOps::new()
        .with_run_ok("test-vm")
        .with_ssh_ok("")
        .with_stream_outputs(strings(&["output"]));

    let _ = run(&mut mock, task);

    assert!(mock.ssh_commands().iter().any(|(_, cmd)| cmd.contains("mkdir")));
    assert!(mock.stream_commands.iter().any(|cmd| cmd.contains("/bin/bash")));
}

#[test]
fn run_loaded_task_with_ops_uses_task_definition_disk_size_when_option_missing() {
    let mut task = create_test_loaded_task(&["00_first.sh"]);
    task.definition.disk_size = Some("20G".to_string());
    let mut mock = MockVmOps::new()
        .with_run_ok("test-vm")
        .with_ssh_ok("")
        .with_stream_outputs(strings(&["output"]));

    let _ = run(&mut mock, task).result.unwrap();

    let run_calls = mock.run_calls();
    assert_eq!(run_calls.len(), 1);
    assert_eq!(run_calls[0].disk_size, Some("20G".to_string()));
}

#[test]
fn run_loaded_task_with_ops_prefers_option_disk_size_over_task_definition() {
    let mut task = create_test_loaded_task(&["00_first.sh"]);
    task.definition.disk_size = Some("20G".to_string());
    let mut mock = MockVmOps::new()
        .with_run_ok("test-vm")
        .with_ssh_ok("")
        .with_stream_outputs(strings(&["output"]));

    let options = TaskRunOptions { disk_size: Some("30G".to_string()), ..Default::default() };
    let _ = run_with(&mut mock, task, options, &facts(), "").result.unwrap();

    let run_calls = mock.run_calls();
    assert_eq!(run_calls.len(), 1);
    assert_eq!(run_calls[0].disk_size, Some("30G".to_string()));
}

#[test]
fn run_loaded_task_with_ops_uses_custom_vm_kernel_and_rootfs() {
    let mut task = create_test_loaded_task(&["00_first.sh"]);
    let mut vm = custom_vm(false);
    vm.kernel = Some("kernel/bzImage".to_string());
    task.definition.vm = Some(vm);
    let mut mock = MockVmOps::new()
        .with_run_ok("test-vm")
        .with_ssh_ok("")
        .with_stream_outputs(strings(&["output"]));

    let _ = run(&mut mock, task).result.unwrap();

    let run_calls = mock.run_calls();
    assert_eq!(run_calls.len(), 1);
    assert_eq!(run_calls[0].disk_size, None);
    assert_eq!(run_calls[0].kernel.as_deref(), Some("/work/task/kernel/bzImage"));
    assert_eq!(run_calls[0].rootfs.as_deref(), Some("/work/task/rootfs.qcow2"));
}

fn mounting(host: &str) -> TaskVmConfig {
    TaskVmConfig {
        mounts: vec![TaskVmMount {
            host: host.to_string(),
            guest: "/mnt/vigilo".to_string(),
            mode: TaskVmMountMode::ReadOnly,
        }],
        ..TaskVmConfig::default()
    }
}

#[test]
fn run_loaded_task_with_ops_passes_vm_mounts_to_run_options() {
    let mut task = create_test_loaded_task(&["00_first.sh"]);
    task.definition.vm = Some(mounting("vigilo"));
    let mut mock = MockVmOps::new()
        .with_run_ok("test-vm")
        .with_ssh_ok("")
        .with_stream_outputs(strings(&["output"]));

    let _ = run(&mut mock, task).result.unwrap();

    let run_calls = mock.run_calls();
    assert_eq!(run_calls.len(), 1);
    assert_eq!(run_calls[0].mounts.len(), 1);
    assert_eq!(run_calls[0].mounts[0].host_path, "/work/task/vigilo");
    assert_eq!(run_calls[0].mounts[0].guest_path, "/mnt/vigilo");
}

#[test]
fn run_loaded_task_with_ops_fails_when_vm_mount_host_missing() {
    let mut task = create_test_loaded_task(&["00_first.sh"]);
    task.definition.vm = Some(mounting("missing-dir"));
    let mut mock = MockVmOps::new().with_run_ok("test-vm");
    let mut facts = facts();
    facts.mounts = vec![PathKind::Missing];

    let err = run_with(&mut mock, task, TaskRunOptions::default(), &facts, "").result.unwrap_err();

    match err {
        Error::Runtime { message } => {
            assert!(message.contains("vm.mounts[0].host"));
            assert!(message.contains("does not exist"));
        }
        other => panic!("Expected Runtime error, got: {other:?}"),
    }
    assert!(mock.run_calls().is_empty());
}

#[test]
fn run_loaded_task_with_ops_clones_custom_rootfs_when_enabled() {
    let mut task = create_test_loaded_task(&["00_first.sh"]);
    task.definition.vm = Some(custom_vm(true));
    let mut mock = MockVmOps::new()
        .with_run_ok("test-vm")
        .with_ssh_ok("")
        .with_stream_outputs(strings(&["output"]));

    let _ = run(&mut mock, task).result.unwrap();

    let run_calls = mock.run_calls();
    assert_eq!(run_calls.len(), 1);
    assert_ne!(run_calls[0].rootfs.as_deref(), Some("/work/task/rootfs.qcow2"));
}

#[test]
fn run_loaded_task_with_ops_rejects_disk_resize_without_rootfs_clone() {
    let mut task = create_test_loaded_task(&["00_first.sh"]);
    task.definition.vm = Some(custom_vm(false));
    let mut mock = MockVmOps::new().with_run_ok("test-vm");

    let options = TaskRunOptions { disk_size: Some("12G".to_string()), ..Default::default() };
    let err = run_with(&mut mock, task, options, &facts(), "").result.unwrap_err();

    match err {
        Error::Runtime { message } => assert!(message.contains("vm.clone_rootfs=true")),
        other => panic!("Expected Runtime error, got: {other:?}"),
    }
    assert!(mock.run_calls().is_empty());
}

fn requiring_kernel() -> TaskVmConfig {
    let mut vm = custom_vm(false);
    vm.kernel_config = Some("kernel.config".to_string());
    vm.required_kernel_config = Some(strings(&["CONFIG_DM_VERITY=y"]));
    vm
}

#[test]
fn run_loaded_task_with_ops_fails_static_kernel_config_preflight_before_vm_start() {
    let mut task = create_test_loaded_task(&["00_first.sh"]);
    task.definition.vm = Some(requiring_kernel());
    let mut mock = MockVmOps::new().with_run_ok("test-vm");

    let err = run_with(
        &mut mock,
        task,
        TaskRunOptions::default(),
        &facts(),
        "CONFIG_DM_VERITY=m\n",
    )
    .result
    .unwrap_err();

    match err {
        Error::Runtime { message } => {
            assert!(message.contains("Kernel config preflight failed"));
            assert!(message.contains("CONFIG_DM_VERITY expected=y actual=m"));
        }
        other => panic!("Expected Runtime error, got: {other:?}"),
    }
    assert!(mock.run_calls().is_empty());
}

#[test]
fn run_loaded_task_with_ops_fails_runtime_kernel_config_check_before_scripts() {
    let mut task = create_test_loaded_task(&["00_first.sh"]);
    task.definition.vm = Some(requiring_kernel());
    let mut mock = MockVmOps::new()
        .with_run_ok("test-vm")
        .with_ssh_ok("")
        .with_ssh_ok("CONFIG_DM_VERITY=m\n");

    let err = run_with(
        &mut mock,
        task,
        TaskRunOptions::default(),
        &facts(),
        "CONFIG_DM_VERITY=y\n",
    )
    .result
    .unwrap_err();

    match err {
        Error::Runtime { message } => {
            assert!(message.contains("Runtime kernel config check failed"));
            assert!(message.contains("CONFIG_DM_VERITY expected=y actual=m"));
        }
        other => panic!("Expected Runtime error, got: {other:?}"),
    }

    assert_eq!(mock.run_calls().len(), 1);
    assert_eq!(mock.rm_calls(), &vec!["test-vm"]);
    assert!(mock.stream_commands.is_empty());
}

#[test]
fn clones_and_sizes_fail_with_their_reason() {
    assert_eq!(
        clone_failed("/r", "/c", "full").describe(),
        "Runtime error: Failed to clone custom rootfs /r to /c: full"
    );
    assert!(resize_rootfs_image("/r", "9G", &ResizeOutcome::Resized).is_ok());
    let failed = ResizeOutcome::Failed { stderr: "bad size\n".to_string() };
    assert!(resize_rootfs_image("/r", "9G", &failed).unwrap_err().describe().contains("bad size"));
    let not_run = ResizeOutcome::NotRun { reason: "no qemu-img".to_string() };
    assert!(resize_rootfs_image("/r", "9G", &not_run)
        .unwrap_err()
        .describe()
        .contains("no qemu-img"));
}

// The stand-in itself.

#[test]
fn mock_vm_ops_run_returns_configured_result() {
    let mut mock = MockVmOps::new().with_run_ok("test-vm");
    let result = mock.run(VmOptions::default()).unwrap();
    assert_eq!(result.id, "test-vm");
}

#[test]
fn mock_vm_ops_run_returns_error() {
    let mut mock = MockVmOps::new().with_run_err("failed to start");
    let result = mock.run(VmOptions::default());
    assert!(result.is_err());
    assert!(result.unwrap_err().contains("failed to start"));
}

#[test]
fn mock_vm_ops_ssh_records_commands() {
    let mut mock = MockVmOps::new().with_ssh_ok("output1").with_ssh_ok("output2");

    let r1 = mock.ssh("vm0", "ls").unwrap();
    let r2 = mock.ssh("vm0", "pwd").unwrap();

    assert_eq!(r1, "output1");
    assert_eq!(r2, "output2");
    let commands = mock.ssh_commands();
    assert_eq!(commands.len(), 2);
    assert_eq!(commands[0], ("vm0".to_string(), "ls".to_string()));
    assert_eq!(commands[1], ("vm0".to_string(), "pwd".to_string()));
}

#[test]
fn mock_vm_ops_cp_to_records_calls() {
    let mut mock = MockVmOps::new();

    mock.cp_to("vm0", "/local/path", "/remote/path", true).unwrap();

    let calls = &mock.cp_to_calls;
    assert_eq!(calls.len(), 1);
    assert_eq!(
        calls[0],
        ("vm0".to_string(), "/local/path".to_string(), "/remote/path".to_string(), true)
    );
}

#[test]
fn mock_vm_ops_rm_records_calls() {
    let mut mock = MockVmOps::new();

    mock.rm("vm0").unwrap();
    mock.rm("vm1").unwrap();

    let calls = mock.rm_calls();
    assert_eq!(calls, &vec!["vm0", "vm1"]);
}

#[test]
fn mock_vm_ops_ssh_stream_outputs_lines() {
    let mut mock = MockVmOps::new().with_stream_outputs(strings(&["line1", "line2", "line3"]));
    let record = mock_vm_record("vm0");

    let (collected, outcome) = mock.ssh_stream(&record, "echo test");
    assert!(outcome.is_ok());

    assert_eq!(collected, vec!["line1", "line2", "line3"]);
}

#[test]
fn a_stand_in_forgets_its_calls() {
    let mut mock = MockVmOps::new().with_cp_from_err("lost");
    assert_eq!(mock.cp_from("vm0", "/r", "/l", false), Err("lost".to_string()));
    mock.rm("vm0").unwrap();
    mock.clear_calls();
    assert!(mock.rm_calls().is_empty());
    assert!(mock.cp_from_calls.is_empty());
}

// What the command line tool says.

#[test]
fn batches_are_limited() {
    assert!(check_batch_size(MAX_BATCH_TASKS).is_ok());
    assert_eq!(
        check_batch_size(5),
        Err("--batch supports up to 4 tasks, but 5 were provided".to_string())
    );
}

#[test]
fn chains_are_told_step_by_step() {
    let result = ChainRunResult {
        steps: vec![
            ChainStepResult {
                task_dir: "/t/one".to_string(),
                task_name: Some("one".to_string()),
                handoff_artifacts: strings(&["a.txt", "b"]),
                run_result: RunResult::new("vm0", "/o1", "/l1"),
            },
            ChainStepResult {
                task_dir: "/t/two".to_string(),
                task_name: None,
                handoff_artifacts: Vec::new(),
                run_result: RunResult::new("vm1", "/o2", "/l2"),
            },
        ],
    };
    assert_eq!(
        print_chain_steps(&result),
        "  step 1: one (/t/one)\n    handoff artifacts: a.txt, b\n  step 2: /t/two (/t/two)\n"
    );
    assert_eq!(done_line("/t/one", &result), "[done]  /t/one -> /o2");
    assert_eq!(done_line("/t/one", &ChainRunResult::default()), "[done]  /t/one");
    assert_eq!(
        format_task_error("one", &Error::BlockingInAsyncContext),
        "Failed to execute one: Blocking mode is not allowed from within an async runtime"
    );
}
