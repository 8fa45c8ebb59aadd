use vmize::batch::cli::{
    check_concurrent_size, format_task_error, running_line, task_name, MAX_CONCURRENT_TASKS,
};
use vmize::batch::error::{combine_errors, Error};
use vmize::batch::job::{load_job, JobDefinition};
use vmize::batch::result::RunResult;
use vmize::batch::runner::{
    list_scripts, run_task_with_progress, validate_input_directory, validate_output_directory,
    vm_progress_line, RunAction, RunPhase, RunProgress, ScriptRun, TaskRunOptions,
};
use vmize::batch::task::{
    load_task, output_dir_message, DefinitionFile, LoadedTask, TaskDefinition,
};
use vmize::path::PathKind;
use vmize::worker::vm_ops::mock_vm_record;

fn strings(list: &[&str]) -> Vec<String> {
    list.iter().map(|s| s.to_string()).collect()
}

// Loading definitions.

fn file(json: &str) -> DefinitionFile<TaskDefinition> {
    let value: serde_json::Value = match serde_json::from_str(json) {
        Ok(value) => value,
        Err(err) => return DefinitionFile::Malformed { reason: err.to_string() },
    };
    if !value.is_object() {
        return DefinitionFile::Malformed { reason: "expected an object".to_string() };
    }
    let text = |key: &str| value.get(key).and_then(|v| v.as_str()).map(|s| s.to_string());
    DefinitionFile::Parsed {
        definition: TaskDefinition {
            name: text("name"),
            description: text("description"),
            disk_size: text("disk_size"),
        },
    }
}

fn load(json: &str) -> Result<LoadedTask, String> {
    load_task("/work/task", file(json))
}

#[test]
fn task_load_task_parses_valid_json_with_all_fields() {
    let result =
        load(r#"{"name": "test-task", "description": "A test", "disk_size": "10G"}"#).unwrap();

    assert_eq!(result.definition.name, Some("test-task".to_string()));
    assert_eq!(result.definition.description, Some("A test".to_string()));
    assert_eq!(result.definition.disk_size, Some("10G".to_string()));
    assert_eq!(result.input_dir, "/work/task/scripts");
    assert_eq!(result.output_dir, "/work/task/output");
}

#[test]
fn load_task_parses_valid_json_with_optional_fields() {
    let result = load(r#"{"name": "minimal"}"#).unwrap();

    assert_eq!(result.definition.name, Some("minimal".to_string()));
    assert!(result.definition.description.is_none());
    assert!(result.definition.disk_size.is_none());
}

#[test]
fn load_task_parses_empty_json_object() {
    let result = load(r#"{}"#).unwrap();

    assert!(result.definition.name.is_none());
    assert!(result.definition.description.is_none());
    assert!(result.definition.disk_size.is_none());
}

#[test]
fn task_load_task_fails_for_missing_file() {
    let missing = DefinitionFile::Unreadable { reason: "No such file".to_string() };
    let err = load_task("/work/task", missing).unwrap_err();
    assert!(err.contains("Cannot read"));
    assert!(err.contains("task.json"));
}

#[test]
fn task_load_task_fails_for_invalid_json() {
    let err = load(r#"not valid json"#).unwrap_err();
    assert!(err.contains("Invalid JSON"));
}

#[test]
fn load_task_fails_for_json_array_instead_of_object() {
    let err = load(r#"[1, 2, 3]"#).unwrap_err();
    assert!(err.contains("Invalid JSON"));
}

#[test]
fn load_task_creates_output_directory() {
    let result = load(r#"{"name": "test"}"#).unwrap();
    assert_eq!(result.output_dir, "/work/task/output");
    assert_eq!(
        output_dir_message("/work/task/output", "denied"),
        "Cannot create output dir /work/task/output: denied"
    );
}

#[test]
fn load_task_sets_input_dir_to_scripts_subdirectory() {
    let result = load(r#"{"name": "test"}"#).unwrap();
    assert_eq!(result.input_dir, "/work/task/scripts");
}

#[test]
fn task_load_task_handles_unicode_in_name() {
    let result = load(r#"{"name": "테스트-タスク-🔥", "description": "한글 설명"}"#).unwrap();

    assert_eq!(result.definition.name, Some("테스트-タスク-🔥".to_string()));
    assert_eq!(result.definition.description, Some("한글 설명".to_string()));
}

#[test]
fn load_task_handles_multiline_description() {
    let result =
        load(r#"{"name": "test", "description": "Line 1\nLine 2\nLine 3"}"#).unwrap();

    assert_eq!(result.definition.description, Some("Line 1\nLine 2\nLine 3".to_string()));
}

#[test]
fn jobs_are_loaded_from_their_own_file() {
    let definition = JobDefinition {
        name: Some("job".to_string()),
        description: None,
        disk_size: Some("9G".to_string()),
    };
    let (loaded, input, output) =
        load_job("/jobs/a", DefinitionFile::Parsed { definition }).unwrap();
    assert_eq!(loaded.name.as_deref(), Some("job"));
    assert_eq!(loaded.disk_size.as_deref(), Some("9G"));
    assert_eq!(input, "/jobs/a/scripts");
    assert_eq!(output, "/jobs/a/output");
    let err =
        load_job("/jobs/a", DefinitionFile::Unreadable { reason: "gone".to_string() }).unwrap_err();
    assert_eq!(err, "Cannot read /jobs/a/job.json: gone");
    let err =
        load_job("/jobs/a", DefinitionFile::Malformed { reason: "bad".to_string() }).unwrap_err();
    assert_eq!(err, "Invalid JSON in /jobs/a/job.json: bad");
}

// Before a run.

#[test]
fn input_and_output_must_be_directories() {
    assert!(validate_input_directory("/in", PathKind::Directory).is_ok());
    assert_eq!(
        validate_input_directory("/in", PathKind::Missing).unwrap_err().describe(),
        "Input path does not exist: /in"
    );
    assert_eq!(
        validate_input_directory("/in", PathKind::File).unwrap_err().describe(),
        "Input path is not a directory: /in"
    );
    assert!(!validate_output_directory(PathKind::Directory).unwrap());
    assert!(validate_output_directory(PathKind::Missing).unwrap());
    assert!(matches!(validate_output_directory(PathKind::File), Err(Error::Io { .. })));
}

#[test]
fn scripts_are_the_files_in_order() {
    let entries = vec![
        ("b.sh".to_string(), true),
        ("dir".to_string(), false),
        ("a.sh".to_string(), true),
        ("B.sh".to_string(), true),
    ];
    assert_eq!(list_scripts(entries), strings(&["B.sh", "a.sh", "b.sh"]));
}

// A run.

fn start(scripts: &[&str]) -> (ScriptRun, RunAction) {
    let options = TaskRunOptions { disk_size: Some("20G".to_string()), show_progress: false };
    let (mut run, _) = run_task_with_progress("/tasks/one/scripts", "/out", options);
    run.input_seen(PathKind::Directory);
    run.output_seen(PathKind::Directory);
    let action = run.scripts_listed(Ok(files(scripts)));
    (run, action)
}

fn files(names: &[&str]) -> Vec<(String, bool)> {
    names.iter().map(|name| (name.to_string(), true)).collect()
}

#[test]
fn paths_are_checked_one_after_the_other() {
    let (mut run, action) = run_task_with_progress("/in", "/out", TaskRunOptions::default());
    assert_eq!(run.take_progress(), vec![RunProgress::Phase(RunPhase::ValidatingPaths)]);
    match action {
        RunAction::LookAt { path } => assert_eq!(path, "/in"),
        other => panic!("unexpected {other:?}"),
    }
    match run.input_seen(PathKind::Directory) {
        RunAction::LookAt { path } => assert_eq!(path, "/out"),
        other => panic!("unexpected {other:?}"),
    }
    match run.output_seen(PathKind::Missing) {
        RunAction::MakeDir { path } => assert_eq!(path, "/out"),
        other => panic!("unexpected {other:?}"),
    }
    match run.output_created(Ok(())) {
        RunAction::List { dir } => assert_eq!(dir, "/in"),
        other => panic!("unexpected {other:?}"),
    }
    let mut entries = files(&["b.sh", "a.sh"]);
    entries.push(("dir".to_string(), false));
    assert!(matches!(run.scripts_listed(Ok(entries)), RunAction::Run { .. }));
    assert_eq!(run.scripts, strings(&["a.sh", "b.sh"]));
    assert_eq!(run.take_progress(), vec![RunProgress::Phase(RunPhase::StartingVm)]);
}

#[test]
fn a_run_whose_paths_are_refused_starts_no_machine() {
    let begin = || run_task_with_progress("/in", "/out", TaskRunOptions::default()).0;
    let mut run = begin();
    assert!(matches!(run.input_seen(PathKind::Missing), RunAction::Finish));
    assert_eq!(run.finish(0).unwrap_err().describe(), "Input path does not exist: /in");
    let mut run = begin();
    run.input_seen(PathKind::File);
    assert_eq!(run.finish(0).unwrap_err().describe(), "Input path is not a directory: /in");
    let mut run = begin();
    run.input_seen(PathKind::Directory);
    run.output_seen(PathKind::File);
    assert_eq!(run.finish(0).unwrap_err().describe(), "output path must be a directory");
    let mut run = begin();
    run.input_seen(PathKind::Directory);
    run.output_seen(PathKind::Missing);
    run.output_created(Err("read-only".to_string()));
    assert_eq!(run.finish(0).unwrap_err().describe(), "read-only");
    let mut run = begin();
    run.input_seen(PathKind::Directory);
    run.output_seen(PathKind::Directory);
    let lost = Error::ScriptDiscovery { path: "/in".to_string(), reason: "gone".to_string() };
    assert!(matches!(run.scripts_listed(Err(lost)), RunAction::Finish));
    assert_eq!(
        run.finish(0).unwrap_err().describe(),
        "Failed to discover scripts in /in: gone"
    );
}

fn ssh(action: RunAction) -> String {
    match action {
        RunAction::Ssh { command } => command,
        other => panic!("unexpected {other:?}"),
    }
}

fn stream(action: RunAction) -> String {
    match action {
        RunAction::SshStream { command } => command,
        other => panic!("unexpected {other:?}"),
    }
}

#[test]
fn scripts_run_one_after_the_other() {
    let (mut run, action) = start(&["00.sh", "10.sh"]);
    match action {
        RunAction::Run { options } => {
            assert_eq!(options.disk_size.as_deref(), Some("20G"));
            assert!(!options.show_progress);
        }
        other => panic!("unexpected {other:?}"),
    }
    let action = run.vm_started(Ok(mock_vm_record("vm3")));
    assert_eq!(ssh(action), "mkdir -p '/tmp/batch/work' '/tmp/batch/out'");
    match run.dirs_made(Ok(String::new())) {
        RunAction::CpTo { local, remote } => {
            assert_eq!(local, "/tasks/one/scripts");
            assert_eq!(remote, "/tmp/batch/work");
        }
        other => panic!("unexpected {other:?}"),
    }
    let action = run.input_copied(Ok(()));
    assert_eq!(
        stream(action),
        "cd '/tmp/batch/work/scripts' && /bin/bash '00.sh' 2>&1 | tee '/tmp/batch/out/00.sh.log'"
    );
    let action = run.script_ended(Ok(()));
    assert!(stream(action).contains("'10.sh'"));
    let action = run.script_ended(Ok(()));
    assert_eq!(ssh(action), "mkdir -p '/tmp/batch/out'");
    match run.output_dir_made(Ok(String::new())) {
        RunAction::CpFrom { remote, local } => {
            assert!(remote.starts_with("/tmp/batch/out"));
            assert_eq!(local, "/out");
        }
        other => panic!("unexpected {other:?}"),
    }
    match run.output_copied(Ok(())) {
        RunAction::Rm { vm_id } => assert_eq!(vm_id, "vm3"),
        other => panic!("unexpected {other:?}"),
    }
    assert!(matches!(run.removed(Ok(())), RunAction::Finish));
    let phases: Vec<RunPhase> = run
        .take_progress()
        .into_iter()
        .filter_map(|event| match event {
            RunProgress::Phase(phase) => Some(phase),
            _ => None,
        })
        .collect();
    assert_eq!(
        phases,
        vec![
            RunPhase::ValidatingPaths,
            RunPhase::StartingVm,
            RunPhase::PreparingVm,
            RunPhase::RunningScripts,
            RunPhase::CollectingOutput,
            RunPhase::CleaningUp,
        ]
    );
    let result = run.finish(77).unwrap();
    assert_eq!(result.vm_id, "vm3");
    assert_eq!(result.output_dir, "/out");
    assert_eq!(result.executed_scripts, strings(&["00.sh", "10.sh"]));
    assert_eq!(result.exit_code, 0);
    assert_eq!(result.elapsed_ms, 77);
}

#[test]
fn a_failed_script_still_gives_its_output_and_its_machine_back() {
    let (mut run, _) = start(&["00.sh", "10.sh"]);
    run.vm_started(Ok(mock_vm_record("vm0")));
    run.dirs_made(Ok(String::new()));
    run.input_copied(Ok(()));
    let action = run.script_ended(Err("exit code 1".to_string()));
    assert_eq!(ssh(action), "mkdir -p '/tmp/batch/out'");
    run.output_dir_made(Ok(String::new()));
    assert!(matches!(run.output_copied(Ok(())), RunAction::Rm { .. }));
    run.removed(Err("stuck".to_string()));
    let err = run.finish(0).unwrap_err();
    assert_eq!(
        err.describe(),
        "Runtime error: Failed to run script '00.sh': exit code 1; additionally: \
         Failed to cleanup VM 'vm0': stuck"
    );
}

#[test]
fn a_run_that_fails_says_what_it_turns_to() {
    let (mut run, _) = start(&["00.sh"]);
    run.vm_started(Ok(mock_vm_record("vm0")));
    run.take_progress();
    run.dirs_made(Err("down".to_string()));
    assert_eq!(run.take_progress(), vec![RunProgress::Phase(RunPhase::CollectingOutput)]);
    run.output_dir_made(Err("down".to_string()));
    assert_eq!(run.take_progress(), vec![RunProgress::Phase(RunPhase::CleaningUp)]);
}

#[test]
fn a_machine_that_did_not_start_is_not_removed() {
    let (mut run, _) = start(&["00.sh"]);
    assert!(matches!(run.vm_started(Err("no kvm".to_string())), RunAction::Finish));
    assert_eq!(run.finish(0).unwrap_err().describe(), "Failed to start VM: no kvm");
}

#[test]
fn each_step_of_a_run_has_its_error() {
    let (mut run, _) = start(&["00.sh"]);
    run.vm_started(Ok(mock_vm_record("vm0")));
    run.dirs_made(Err("down".to_string()));
    assert!(matches!(run.error, Some(Error::VmCommand { .. })));

    let (mut run, _) = start(&["00.sh"]);
    run.vm_started(Ok(mock_vm_record("vm0")));
    run.dirs_made(Ok(String::new()));
    run.input_copied(Err("lost".to_string()));
    assert!(matches!(run.error, Some(Error::CopyToVm { .. })));

    let (mut run, _) = start(&["00.sh"]);
    run.vm_started(Ok(mock_vm_record("vm0")));
    run.dirs_made(Ok(String::new()));
    run.input_copied(Ok(()));
    run.script_ended(Ok(()));
    run.output_dir_made(Ok(String::new()));
    run.output_copied(Err("lost".to_string()));
    run.removed(Ok(()));
    assert_eq!(run.finish(0).unwrap_err().describe(), "Failed to collect VM output: lost");

    let (run, action) = start(&[]);
    assert!(matches!(action, RunAction::Finish));
    assert_eq!(run.finish(0).unwrap_err().describe(), "No files were found in /tasks/one/scripts");
}

#[test]
fn progress_of_the_machine_is_passed_on() {
    match vm_progress_line(3, 8, "Preparing image") {
        RunProgress::VmProgressLine { line } => {
            assert!(line.contains("3/8"));
            assert!(line.contains("Preparing image"));
        }
        other => panic!("unexpected {other:?}"),
    }
    let result = RunResult::new("vm1", "/o");
    assert_eq!((result.exit_code, result.elapsed_ms), (0, 0));
    assert!(result.executed_scripts.is_empty());
}

#[test]
fn batch_errors_are_joined() {
    let joined = combine_errors(
        Error::NonUtf8Path { path: "/x".to_string() },
        Error::ScriptDiscovery { path: "/y".to_string(), reason: "denied".to_string() },
    );
    assert_eq!(
        joined.describe(),
        "Runtime error: Output path is not valid UTF-8: /x; additionally: \
         Failed to discover scripts in /y: denied"
    );
}

#[test]
fn the_batch_tool_names_its_tasks() {
    assert!(check_concurrent_size(MAX_CONCURRENT_TASKS).is_ok());
    assert_eq!(
        check_concurrent_size(9),
        Err("--concurrent supports up to 4 tasks, but 9 were provided".to_string())
    );
    assert_eq!(task_name(&None, 0), "task-1");
    assert_eq!(task_name(&Some("n".to_string()), 0), "n");
    assert_eq!(running_line("n", &None, "/t"), "Running task: n (/t)");
    assert_eq!(running_line("n", &Some("d".to_string()), "/t"), "Running task: n — d");
    assert_eq!(
        format_task_error("n", &Error::BlockingInAsyncContext),
        "Failed to execute n: Blocking mode is not allowed from within an async runtime"
    );
}
