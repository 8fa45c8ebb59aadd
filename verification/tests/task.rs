use serde_json::Value;
use vmize::path::PathKind;
use vmize::task::{
    load_task, logs_dir_message, mount_name, task_input_dir, task_json_path,
    validate_artifact_path, validate_relative_task_path, validate_required_kernel_config_entry,
    validate_vm_config, validate_vm_mount, validate_vm_path, LoadedTask, TaskDefinition, TaskFile,
    TaskVmBoot, TaskVmConfig, TaskVmMount, TaskVmMountMode,
};

const DIR: &str = "/work/task";

fn text(value: &Value, key: &str) -> Option<String> {
    value.get(key).and_then(|v| v.as_str()).map(|s| s.to_string())
}

fn list(value: &Value, key: &str) -> Option<Vec<String>> {
    let entries = value.get(key)?.as_array()?;
    Some(entries.iter().map(|v| v.as_str().unwrap().to_string()).collect())
}

fn vm_config(value: &Value) -> TaskVmConfig {
    let mut vm = TaskVmConfig::default();
    vm.boot = match value.get("boot").and_then(|v| v.as_str()) {
        None | Some("ubuntu") | Some("cloud") => TaskVmBoot::Ubuntu,
        Some("custom") => TaskVmBoot::Custom,
        Some(other) => panic!("unknown boot {other}"),
    };
    vm.memory = text(value, "memory");
    vm.cpus = value.get("cpus").and_then(|v| v.as_u64()).map(|n| n as u32);
    vm.kernel = text(value, "kernel");
    vm.rootfs = text(value, "rootfs");
    vm.kernel_config = text(value, "kernel_config");
    vm.required_kernel_config = list(value, "required_kernel_config");
    if let Some(mounts) = value.get("mounts").and_then(|v| v.as_array()) {
        for mount in mounts {
            vm.mounts.push(TaskVmMount {
                host: text(mount, "host").unwrap(),
                guest: text(mount, "guest").unwrap(),
                mode: match mount.get("mode").and_then(|v| v.as_str()) {
                    None | Some("ro") => TaskVmMountMode::ReadOnly,
                    _ => TaskVmMountMode::ReadWrite,
                },
            });
        }
    }
    if let Some(clone_rootfs) = value.get("clone_rootfs").and_then(|v| v.as_bool()) {
        vm.clone_rootfs = clone_rootfs;
    }
    vm
}

/// What a reader of task files makes of a text.
fn file(json: &str) -> TaskFile {
    let value: Value = match serde_json::from_str(json) {
        Ok(value) => value,
        Err(err) => return TaskFile::Malformed { reason: err.to_string() },
    };
    TaskFile::Parsed {
        definition: TaskDefinition {
            name: text(&value, "name"),
            description: text(&value, "description"),
            disk_size: text(&value, "disk_size"),
            commands: list(&value, "commands").unwrap_or_default(),
            artifacts: list(&value, "artifacts"),
            next_task_dir: text(&value, "next_task_dir"),
            vm: value.get("vm").map(vm_config),
        },
    }
}

/// Loads a task whose input directory holds its commands.
fn load(json: &str, commands: usize) -> Result<LoadedTask, String> {
    load_task(DIR, file(json), PathKind::Directory, &vec![PathKind::File; commands])
}

#[test]
fn lib_load_task_parses_valid_json_with_all_fields() {
    let result = load(
        r#"{"name": "test-task", "description": "A test", "disk_size": "10G", "commands": ["00_first.sh", "10_second.sh"]}"#,
        2,
    )
    .unwrap();

    assert_eq!(result.definition.name, Some("test-task".to_string()));
    assert_eq!(result.definition.description, Some("A test".to_string()));
    assert_eq!(result.definition.disk_size, Some("10G".to_string()));
    assert_eq!(result.definition.commands, vec!["00_first.sh", "10_second.sh"]);
    assert_eq!(result.input_dir, "/work/task/input");
    assert_eq!(result.output_dir, "/work/task/output");
    assert_eq!(result.logs_dir, "/work/task/output/logs");
}

#[test]
fn load_task_parses_json_with_no_commands() {
    let result = load(r#"{"name": "minimal"}"#, 0).unwrap();

    assert_eq!(result.definition.name, Some("minimal".to_string()));
    assert!(result.definition.commands.is_empty());
    assert!(result.definition.artifacts.is_none());
}

#[test]
fn load_task_parses_artifacts_field() {
    let result = load(r#"{"commands": [], "artifacts": ["out.txt", "result.tar"]}"#, 0).unwrap();

    assert_eq!(
        result.definition.artifacts,
        Some(vec!["out.txt".to_string(), "result.tar".to_string()])
    );
}

#[test]
fn load_task_parses_next_task_dir_field() {
    let result = load(
        r#"{"commands": [], "artifacts": ["handoff.txt"], "next_task_dir": "task2"}"#,
        0,
    )
    .unwrap();

    assert_eq!(result.definition.next_task_dir, Some("task2".to_string()));
}

#[test]
fn load_task_parses_vm_custom_config() {
    let result = load(
        r#"{
                "commands": [],
                "vm": {
                    "boot": "custom",
                    "memory": "16G",
                    "cpus": 8,
                    "kernel": "../image/bzImage",
                    "rootfs": "../image/rootfs.qcow2",
                    "kernel_config": "../image/kernel.config",
                    "required_kernel_config": [
                        "CONFIG_DM_VERITY=y",
                        "CONFIG_CRYPTO_SHA256=y"
                    ],
                    "mounts": [
                        {"host": "../vigilo", "guest": "/mnt/vigilo"},
                        {"host": "/tmp", "guest": "/mnt/tmp", "mode": "rw"}
                    ],
                    "clone_rootfs": false
                }
            }"#,
        0,
    )
    .unwrap();
    let vm = result.definition.vm.expect("vm config should be present");
    assert_eq!(vm.boot, TaskVmBoot::Custom);
    assert_eq!(vm.memory.as_deref(), Some("16G"));
    assert_eq!(vm.cpus, Some(8));
    assert_eq!(vm.kernel.as_deref(), Some("../image/bzImage"));
    assert_eq!(vm.rootfs.as_deref(), Some("../image/rootfs.qcow2"));
    assert_eq!(vm.kernel_config.as_deref(), Some("../image/kernel.config"));
    assert_eq!(
        vm.required_kernel_config,
        Some(vec!["CONFIG_DM_VERITY=y".to_string(), "CONFIG_CRYPTO_SHA256=y".to_string()])
    );
    assert_eq!(vm.mounts.len(), 2);
    assert_eq!(vm.mounts[0].host, "../vigilo");
    assert_eq!(vm.mounts[0].guest, "/mnt/vigilo");
    assert_eq!(vm.mounts[0].mode, TaskVmMountMode::ReadOnly);
    assert_eq!(vm.mounts[1].mode, TaskVmMountMode::ReadWrite);
    assert!(!vm.clone_rootfs);
}

#[test]
fn load_task_parses_vm_cloud_alias_as_ubuntu() {
    let result = load(
        r#"{
                "commands": [],
                "vm": {
                    "boot": "cloud"
                }
            }"#,
        0,
    )
    .unwrap();
    let vm = result.definition.vm.expect("vm config should be present");
    assert_eq!(vm.boot, TaskVmBoot::Ubuntu);
    assert!(vm.clone_rootfs);
}

#[test]
fn load_task_fails_when_vm_custom_kernel_missing() {
    let err = load(
        r#"{
                "commands": [],
                "vm": {
                    "boot": "custom",
                    "rootfs": "../image/rootfs.qcow2"
                }
            }"#,
        0,
    )
    .unwrap_err();
    assert!(err.contains("vm.kernel is required"));
}

#[test]
fn load_task_fails_when_vm_ubuntu_has_custom_paths() {
    let err = load(
        r#"{
                "commands": [],
                "vm": {
                    "boot": "ubuntu",
                    "kernel": "../image/bzImage"
                }
            }"#,
        0,
    )
    .unwrap_err();
    assert!(err.contains("vm.boot='ubuntu'"));
}

#[test]
fn load_task_fails_when_vm_ubuntu_declares_required_kernel_config() {
    let err = load(
        r#"{
                "commands": [],
                "vm": {
                    "boot": "ubuntu",
                    "required_kernel_config": ["CONFIG_DM_VERITY=y"]
                }
            }"#,
        0,
    )
    .unwrap_err();
    assert!(err.contains("vm.boot='ubuntu'"));
    assert!(err.contains("required_kernel_config"));
}

#[test]
fn load_task_fails_when_required_kernel_config_missing_kernel_config_path() {
    let err = load(
        r#"{
                "commands": [],
                "vm": {
                    "boot": "custom",
                    "kernel": "../image/bzImage",
                    "rootfs": "../image/rootfs.qcow2",
                    "required_kernel_config": ["CONFIG_DM_VERITY=y"]
                }
            }"#,
        0,
    )
    .unwrap_err();
    assert!(err.contains("vm.kernel_config"));
}

#[test]
fn load_task_fails_when_required_kernel_config_entry_is_invalid() {
    let err = load(
        r#"{
                "commands": [],
                "vm": {
                    "boot": "custom",
                    "kernel": "../image/bzImage",
                    "rootfs": "../image/rootfs.qcow2",
                    "kernel_config": "../image/kernel.config",
                    "required_kernel_config": ["CONFIG_DM_VERITY=maybe"]
                }
            }"#,
        0,
    )
    .unwrap_err();
    assert!(err.contains("required_kernel_config"));
    assert!(err.contains("must be in form"));
}

#[test]
fn load_task_fails_when_required_kernel_config_is_empty() {
    let err = load(
        r#"{
                "commands": [],
                "vm": {
                    "boot": "custom",
                    "kernel": "../image/bzImage",
                    "rootfs": "../image/rootfs.qcow2",
                    "kernel_config": "../image/kernel.config",
                    "required_kernel_config": []
                }
            }"#,
        0,
    )
    .unwrap_err();
    assert!(err.contains("required_kernel_config"));
    assert!(err.contains("must not be empty"));
}

#[test]
fn load_task_fails_when_vm_custom_path_has_curdir_component() {
    let err = load(
        r#"{
                "commands": [],
                "vm": {
                    "boot": "custom",
                    "kernel": "./image/bzImage",
                    "rootfs": "../image/rootfs.qcow2"
                }
            }"#,
        0,
    )
    .unwrap_err();
    assert!(err.contains("vm.kernel"));
    assert!(err.contains("must not include '.'"));
}

#[test]
fn load_task_fails_when_vm_mount_guest_is_not_absolute() {
    let err = load(
        r#"{
                "commands": [],
                "vm": {
                    "mounts": [{"host": "../vigilo", "guest": "mnt/vigilo"}]
                }
            }"#,
        0,
    )
    .unwrap_err();
    assert!(err.contains("vm.mounts[0].guest"));
    assert!(err.contains("absolute path"));
}

#[test]
fn load_task_fails_when_vm_memory_is_empty() {
    let err = load(
        r#"{
                "commands": [],
                "vm": {
                    "memory": "   "
                }
            }"#,
        0,
    )
    .unwrap_err();
    assert!(err.contains("vm.memory"));
    assert!(err.contains("must not be empty"));
}

#[test]
fn load_task_fails_when_vm_cpus_is_zero() {
    let err = load(
        r#"{
                "commands": [],
                "vm": {
                    "cpus": 0
                }
            }"#,
        0,
    )
    .unwrap_err();
    assert!(err.contains("vm.cpus"));
    assert!(err.contains("must be greater than 0"));
}

#[test]
fn lib_load_task_fails_for_missing_file() {
    let missing = TaskFile::Unreadable { reason: "No such file or directory".to_string() };
    let err = load_task(DIR, missing, PathKind::Missing, &[]).unwrap_err();
    assert!(err.contains("Cannot read"));
    assert!(err.contains("task.json"));
    assert_eq!(err, "Cannot read /work/task/task.json: No such file or directory");
}

#[test]
fn lib_load_task_fails_for_invalid_json() {
    let err = load("not valid json", 0).unwrap_err();
    assert!(err.contains("Invalid JSON"));
    assert!(err.starts_with("Invalid JSON in /work/task/task.json: "));
}

#[test]
fn load_task_fails_if_input_dir_missing() {
    let parsed = file(r#"{"name": "test", "commands": ["00_run.sh"]}"#);
    let err = load_task(DIR, parsed, PathKind::Missing, &[PathKind::Missing]).unwrap_err();
    assert!(err.contains("Input directory not found"));
}

#[test]
fn load_task_fails_if_command_file_missing() {
    let parsed = file(r#"{"name": "test", "commands": ["00_run.sh", "10_missing.sh"]}"#);
    let kinds = [PathKind::File, PathKind::Missing];
    let err = load_task(DIR, parsed, PathKind::Directory, &kinds).unwrap_err();
    assert!(err.contains("10_missing.sh"));
    assert_eq!(
        err,
        "Command '10_missing.sh' not found in input: /work/task/input/10_missing.sh"
    );
}

#[test]
fn load_task_fails_if_command_path_is_directory() {
    let parsed = file(r#"{"name": "test", "commands": ["00_run.sh", "10_dir"]}"#);
    let kinds = [PathKind::File, PathKind::Directory];
    let err = load_task(DIR, parsed, PathKind::Directory, &kinds).unwrap_err();
    assert!(err.contains("is not a file"));
    assert!(err.contains("10_dir"));
}

#[test]
fn an_input_path_must_be_a_directory() {
    let err = load_task(DIR, file("{}"), PathKind::File, &[]).unwrap_err();
    assert_eq!(err, "Input path is not a directory: /work/task/input");
}

#[test]
fn load_task_creates_output_and_logs_directories() {
    let result = load(r#"{"name": "test"}"#, 0).unwrap();
    assert_eq!(result.output_dir, "/work/task/output");
    assert_eq!(result.logs_dir, "/work/task/output/logs");
    assert_eq!(
        logs_dir_message("/work/task/output/logs", "denied"),
        "Cannot create logs dir /work/task/output/logs: denied"
    );
}

#[test]
fn lib_load_task_handles_unicode_in_name() {
    let result = load(
        r#"{"name": "테스트-タスク-🔥", "description": "한글 설명"}"#,
        0,
    )
    .unwrap();

    assert_eq!(result.definition.name, Some("테스트-タスク-🔥".to_string()));
    assert_eq!(result.definition.description, Some("한글 설명".to_string()));
}

#[test]
fn load_task_fails_if_next_task_dir_is_absolute() {
    let err = load(
        r#"{"commands": [], "artifacts": ["handoff.txt"], "next_task_dir": "/abs/path"}"#,
        0,
    )
    .unwrap_err();
    assert!(err.contains("Invalid next_task_dir"));
    assert!(err.contains("absolute paths are not allowed"));
}

#[test]
fn load_task_allows_next_task_dir_with_parent_component() {
    let result = load(
        r#"{"commands": [], "artifacts": ["handoff.txt"], "next_task_dir": "../task2"}"#,
        0,
    )
    .unwrap();

    assert_eq!(result.definition.next_task_dir, Some("../task2".to_string()));
}

#[test]
fn load_task_fails_if_artifact_has_parent_component() {
    let err = load(r#"{"commands": [], "artifacts": ["../x"]}"#, 0).unwrap_err();
    assert!(err.contains("Invalid artifact"));
    assert!(err.contains("must not include '..'"));
}

#[test]
fn load_task_fails_if_artifact_is_absolute() {
    let err = load(r#"{"commands": [], "artifacts": ["/abs"]}"#, 0).unwrap_err();
    assert!(err.contains("Invalid artifact"));
    assert!(err.contains("absolute paths are not allowed"));
}

#[test]
fn load_task_fails_if_artifact_has_curdir_component() {
    let err = load(r#"{"commands": [], "artifacts": ["./x"]}"#, 0).unwrap_err();
    assert!(err.contains("Invalid artifact"));
    assert!(err.contains("must not include '.'"));
}

#[test]
fn load_task_allows_nested_relative_artifact_path() {
    let result = load(r#"{"commands": [], "artifacts": ["rootfs/config.json"]}"#, 0).unwrap();

    assert_eq!(result.definition.artifacts, Some(vec!["rootfs/config.json".to_string()]));
}

#[test]
fn the_first_fault_is_reported() {
    let err = load(
        r#"{"artifacts": ["ok", "../x", "/abs"], "next_task_dir": "ok", "vm": {"cpus": 0}}"#,
        0,
    )
    .unwrap_err();
    assert_eq!(
        err,
        "Invalid artifact '../x' in /work/task/task.json: must not include '..' path components"
    );
    let err = load(r#"{"vm": {"cpus": 0}}"#, 0).unwrap_err();
    assert_eq!(
        err,
        "Invalid vm config in /work/task/task.json: vm.cpus must be greater than 0 when provided"
    );
}

#[test]
fn paths_of_a_task_are_below_its_directory() {
    assert_eq!(task_json_path("/t"), "/t/task.json");
    assert_eq!(task_input_dir("/t/"), "/t/input");
    assert_eq!(validate_relative_task_path(" \t"), Err("must not be empty".to_string()));
    assert_eq!(validate_artifact_path(""), Err("must not be empty".to_string()));
    assert!(validate_relative_task_path("a/./b").is_ok());
    assert!(validate_relative_task_path("./b").is_err());
    assert!(validate_artifact_path("a/../b").is_err());
}

#[test]
fn kernel_requirements_have_one_form() {
    let check = validate_required_kernel_config_entry;
    assert!(check(" CONFIG_A1_B=n ").is_ok());
    let message = |entry: &str| check(entry).unwrap_err();
    assert_eq!(message("  "), "vm.required_kernel_config entries must not be empty");
    assert_eq!(message("CONFIG_A"), "must be in form CONFIG_FOO=y|m|n");
    assert_eq!(message("FOO=y"), "must start with CONFIG_ and include a symbol name");
    assert_eq!(message("CONFIG_=y"), "must start with CONFIG_ and include a symbol name");
    assert_eq!(message("CONFIG_a=y"), "symbol must contain only A-Z, 0-9, and _");
    assert!(message("CONFIG_A=yes").contains("must be in form"));
}

#[test]
fn mounts_are_checked_in_order() {
    let mount = |host: &str, guest: &str| TaskVmMount {
        host: host.to_string(),
        guest: guest.to_string(),
        mode: TaskVmMountMode::ReadOnly,
    };
    assert_eq!(mount_name(12), "vm.mounts[12]");
    let message = |m: TaskVmMount| validate_vm_mount(&m, 3).unwrap_err();
    assert_eq!(message(mount(" ", "/g")), "vm.mounts[3].host must not be empty");
    assert_eq!(message(mount("h", "")), "vm.mounts[3].guest must not be empty");
    assert_eq!(
        message(mount("./h", "/g")),
        "vm.mounts[3].host must not include '.' path components"
    );
    assert_eq!(
        message(mount("h", "/g/../x")),
        "vm.mounts[3].guest must not include '.' or '..' path components"
    );
    assert!(validate_vm_mount(&mount("../h", "/g"), 3).is_ok());
    let vm = TaskVmConfig { mounts: vec![mount("h", "/g"), mount("h", "g")], ..Default::default() };
    assert_eq!(
        validate_vm_config(&vm),
        Err("vm.mounts[1].guest must be an absolute path".to_string())
    );
}

#[test]
fn a_custom_machine_needs_a_root_file_system() {
    let vm = TaskVmConfig {
        boot: TaskVmBoot::Custom,
        kernel: Some("k".to_string()),
        ..Default::default()
    };
    assert_eq!(
        validate_vm_config(&vm),
        Err("vm.rootfs is required when vm.boot='custom'".to_string())
    );
    assert_eq!(validate_vm_path("/abs/k", "vm.kernel"), Ok(()));
    assert!(validate_vm_path(" ", "vm.kernel").unwrap_err().contains("must not be empty"));
}
