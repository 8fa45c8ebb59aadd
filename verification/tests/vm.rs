use vmize::path::{join, parent, PathKind};
use vmize::vm::cloud_init::iso::{IsoCreator, WhichOutput};
use vmize::vm::cloud_init::seed::{CloudInitSeed, Metadata, UserData};
use vmize::vm::config::Config;
use vmize::vm::image::disk::{copy_disk_image, detect_disk_format, has_qcow2_magic, resize_outcome};
use vmize::vm::image::downloader::{
    image_path, needs_download, Answer, Fetch, FetchStep, Finalize, FinalizeStep, ImageDownloader,
    ImageSeen, Received, RemoveOutcome, RenameOutcome,
};
use vmize::vm::launch::{
    mount_runcmd_for_spec, plan_run, resolve_virtiofsd_binary, start_virtiofs_runtime,
    stop_sidecar_processes, wait_for_socket_or_exit, wait_for_ssh_port, Boot, Cleanup,
    DaemonOutcome, DaemonStart, DaemonStep, DirOutcome, MountTransport, RunOptions, SidecarStep,
    SshCheck, VirtioFsDaemon, VirtioFsRuntime, VirtioFsShareRuntime, WaitStep,
};
use vmize::vm::mount::{mount_spec_host, parse_mount_spec, MountMode, MountSpec};
use vmize::vm::ops::{
    clear_vms, cp_endpoint_id, cp_from_with_config, cp_to_with_config, cp_transfer,
    executable_candidates, find_executable, list_vms_inner, parse_cp_endpoint, require_running_vm,
    rm_with_config, run_interactive_ssh, ssh_stream_with_config, ClearStep, Clearing, CpEndpoint,
    ScpDirection,
};
use vmize::vm::platform::HostProfile;
use vmize::vm::port::{
    acquire_vm_creation_lock, acquire_vm_creation_lock_with_timeout, is_port_free,
    is_stale_pid_lock, lock_contents, lock_owner_pid, reserve_specific_ssh_port, reserve_ssh_port,
    ssh_port_for_vm_index, ssh_port_lock_path, ssh_port_locks_dir, stale_lock_message,
    validate_vm_capacity, vm_creation_lock_path, vm_locks_dir, BindOutcome, LockAttempt, LockFile,
    LockStep, PortStep,
};
use vmize::vm::process::{is_process_absent_error, is_process_alive, is_qemu_process};
use vmize::vm::progress::StepProgress;
use vmize::vm::qemu::config::{DiskFormat, QemuConfig, QemuPaths};
use vmize::vm::qemu::runner::{
    force_stop_qemu_by_pid, kill_qemu_process, start_step, stop_qemu_by_pid, KillOutput,
    QemuRunner, StartStep,
};
use vmize::vm::record::{
    is_sequential_vm_id, keep_key_paths, list_vm_records, next_vm_id, pid_file_path, read_pid_file,
    remove_vm_instance, resolve_qemu_pid, scan_qemu_processes, stop_qemu_and_wait,
    stop_record_if_running, stop_timeout_message, vm_index_from_id, vm_record_path, QemuSightings,
    StopStep, VmRecord, VmRuntimeStatus, VmStatus,
};
use vmize::vm::ssh::client::{RetryStep, SshClient};
use vmize::vm::ssh::key::{
    acquire_file_lock, sanitize_key_name, FileLockStep, KeyStep, SshKeyManager,
};
use vmize::vm::startup::{run_vm_inner, StartAction, StartStage, Startup, StepNews};

fn strings(list: &[&str]) -> Vec<String> {
    list.iter().map(|s| s.to_string()).collect()
}

fn sample_record(id: &str, key_path: &str) -> VmRecord {
    VmRecord {
        id: id.to_string(),
        hostname: "vm".to_string(),
        username: "ubuntu".to_string(),
        ssh_port: 2222,
        private_key_path: key_path.to_string(),
        disk_path: "/tmp/disk.qcow2".to_string(),
        seed_iso_path: "/tmp/seed.iso".to_string(),
        pid: None,
        sidecar_pids: Vec::new(),
        status: VmStatus::Running,
        created_at: 0,
        host_profile: "linux/amd64".to_string(),
    }
}

// Seed images and documents.

#[test]
fn test_which_finds_existing_command() {
    let output = WhichOutput { success: true, stdout: "/usr/bin/ls\n".to_string() };
    let result = IsoCreator::which("ls", &output);
    assert!(result.is_ok());
    assert!(!result.unwrap().is_empty());
}

#[test]
fn test_which_fails_for_missing_command() {
    let output = WhichOutput { success: false, stdout: String::new() };
    let result = IsoCreator::which("nonexistent_command_xyz_12345", &output);
    assert!(result.is_err());
    let blank = WhichOutput { success: true, stdout: " \n".to_string() };
    assert_eq!(IsoCreator::which("x", &blank), Err("x not found in PATH".to_string()));
}

#[test]
fn test_tool_name_detection() {
    let creator = IsoCreator { iso_tool_path: "/usr/bin/xorriso".to_string() };
    assert_eq!(creator.tool_name(), "xorriso");

    let creator = IsoCreator { iso_tool_path: "/usr/bin/mkisofs".to_string() };
    assert_eq!(creator.tool_name(), "mkisofs");

    let creator = IsoCreator { iso_tool_path: "/usr/bin/genisoimage".to_string() };
    assert_eq!(creator.tool_name(), "genisoimage");
}

#[test]
fn seed_images_are_made_by_the_tool_that_is_there() {
    assert!(IsoCreator::new(None, None, None)
        .unwrap_err()
        .contains("Neither genisoimage, xorriso, nor mkisofs found"));
    let creator =
        IsoCreator::new(None, Some("/usr/bin/xorriso".to_string()), Some("/m".to_string())).unwrap();
    let command = creator.create_nocloud_iso("/v/meta-data", "/v/user-data", "/v/seed.iso");
    assert_eq!(command.program, "/usr/bin/xorriso");
    assert_eq!(
        command.args,
        strings(&[
            "-as", "mkisofs", "-output", "/v/seed.iso", "-volid", "cidata", "-joliet", "-rock",
            "/v/meta-data", "/v/user-data",
        ])
    );
}

#[test]
fn test_metadata_display() {
    let metadata = Metadata::new("test-instance".to_string(), "test-host".to_string());
    let display = metadata.render();
    assert!(display.contains("instance-id: test-instance"));
    assert!(display.contains("local-hostname: test-host"));
}

#[test]
fn test_metadata_with_hostname() {
    let metadata = Metadata::with_hostname("test-host".to_string());
    assert_eq!(metadata.local_hostname, "test-host");
    assert_eq!(metadata.instance_id, "i-test-host");
}

#[test]
fn test_userdata_new() {
    let userdata = UserData::new(
        "test-vm".to_string(),
        "testuser".to_string(),
        "ssh-ed25519 AAAAC3NzaC1lZDI1NTE5AAAA test".to_string(),
    );
    assert_eq!(userdata.hostname, "test-vm");
    assert_eq!(userdata.users.len(), 1);
    assert_eq!(userdata.users[0].name, "testuser");
    assert_eq!(userdata.users[0].sudo, "ALL=(ALL) NOPASSWD:ALL");
    assert_eq!(userdata.users[0].shell, "/bin/bash");
    assert_eq!(userdata.users[0].ssh_authorized_keys.len(), 1);
}

#[test]
fn test_userdata_to_cloud_config() {
    let userdata = UserData::new(
        "test-vm".to_string(),
        "testuser".to_string(),
        "ssh-ed25519 AAAAC3NzaC1lZDI1NTE5AAAA test".to_string(),
    );
    let yaml = userdata.to_cloud_config();
    assert!(yaml.contains("#cloud-config"));
    assert!(yaml.contains("hostname: test-vm"));
    assert!(yaml.contains("name: testuser"));
    assert!(yaml.contains("ssh-ed25519"));
    assert!(yaml.contains("network:"));
    assert!(yaml.contains("dhcp4: true"));
    assert!(yaml.contains("sudo:"));
    assert!(yaml.contains("runcmd:"));
}

#[test]
fn test_cloud_init_seed_with_config() {
    let seed = CloudInitSeed::with_config(
        "test-vm".to_string(),
        "testuser".to_string(),
        "ssh-ed25519 AAAAC3NzaC1lZDI1NTE5AAAA test".to_string(),
    );
    let metadata = seed.metadata();
    assert_eq!(metadata.local_hostname, "test-vm");
    let userdata = seed.userdata();
    assert_eq!(userdata.hostname, "test-vm");
}

#[test]
fn test_cloud_init_seed_write_files() {
    let mut seed = CloudInitSeed::with_config(
        "test-vm".to_string(),
        "testuser".to_string(),
        "ssh-ed25519 AAAAC3NzaC1lZDI1NTE5AAAA test".to_string(),
    );
    seed.extend_runcmd(strings(&["mkdir -p '/mnt/x'"]));
    assert!(seed.metadata_string().contains("local-hostname: test-vm"));
    let text = seed.userdata_string();
    assert!(text.contains("#cloud-config"));
    assert!(text.contains("mkdir -p '/mnt/x'"));
}

// Configuration and platform.

fn linux_host() -> HostProfile {
    HostProfile::for_target("linux", "x86_64").unwrap()
}

fn user_config() -> Config {
    Config::default(Some("/home/me"), Some(&linux_host()))
}

#[test]
fn test_config_default() {
    let host = HostProfile::for_target("linux", "x86_64").unwrap();
    let config = Config::default(Some("/home/me"), Some(&host));
    assert_eq!(config.base_dir, "/home/me/.local/share/vm");
    assert_eq!(config.memory, "4G");
    assert_eq!(config.cpus, 2);
    assert!(config.image_url.contains("ubuntu-24.04-minimal-cloudimg"));
    assert_eq!(Config::default_base_dir(None), "./.local/share/vm");
    let mac = HostProfile::for_target("macos", "aarch64").unwrap();
    assert_eq!(Config::default(None, Some(&mac)).image_url, mac.image_url);
    let unknown = Config::default(None, None);
    assert_eq!(unknown.base_dir, "./.local/share/vm");
    assert!(unknown.image_url.contains("ubuntu-24.04-minimal-cloudimg-amd64"));
}

#[test]
fn test_config_images_dir() {
    let config = user_config();
    assert_eq!(config.images_dir(), format!("{}/images", user_config().base_dir));
}

#[test]
fn test_config_instances_dir() {
    let config = user_config();
    assert_eq!(config.instances_dir(), format!("{}/instances", user_config().base_dir));
}

#[test]
fn test_config_keys_dir() {
    let config = user_config();
    assert_eq!(config.keys_dir(), format!("{}/keys", user_config().base_dir));
}

#[test]
fn test_host_profile_linux_x86_64() {
    let profile = HostProfile::for_target("linux", "x86_64").unwrap();
    assert_eq!(profile.qemu_binary, "qemu-system-x86_64");
    assert_eq!(profile.machine_type, "q35,accel=kvm");
    assert_eq!(profile.cpu_type, "host");
    assert!(profile.image_url.contains("amd64"));
    assert_eq!(profile.bios_path, None);
}

#[test]
fn test_host_profile_macos_aarch64() {
    let profile = HostProfile::for_target("macos", "aarch64").unwrap();
    assert_eq!(profile.qemu_binary, "qemu-system-aarch64");
    assert_eq!(profile.machine_type, "virt,accel=hvf");
    assert_eq!(profile.cpu_type, "host");
    assert!(profile.image_url.contains("arm64"));
    assert_eq!(profile.bios_path, Some("/opt/homebrew/share/qemu/edk2-aarch64-code.fd"));
}

#[test]
fn test_host_profile_unsupported() {
    let err = HostProfile::for_target("linux", "aarch64").unwrap_err();
    assert!(err.contains("Unsupported host platform"));
}

#[test]
fn test_macos_profile_without_override_uses_hvf() {
    let profile = HostProfile::for_target("macos", "aarch64").unwrap();
    let profile = HostProfile::apply_accel_override(profile, None);
    assert_eq!(profile.machine_type, "virt,accel=hvf");
    assert_eq!(profile.cpu_type, "host");
}

#[test]
fn test_macos_profile_with_tcg_override() {
    let profile = HostProfile::for_target("macos", "aarch64").unwrap();
    let profile = HostProfile::apply_accel_override(profile, Some("tcg"));
    assert_eq!(profile.machine_type, "virt,accel=tcg");
    assert_eq!(profile.cpu_type, "max");
}

#[test]
fn test_linux_profile_with_tcg_override() {
    let profile = HostProfile::for_target("linux", "x86_64").unwrap();
    let profile = HostProfile::apply_accel_override(profile, Some("tcg"));
    assert_eq!(profile.machine_type, "q35,accel=tcg");
    assert_eq!(profile.cpu_type, "max");
}

#[test]
fn detection_knows_two_hosts() {
    assert_eq!(HostProfile::detect("linux", "x86_64", Some("kvm")).unwrap().cpu_type, "host");
    assert_eq!(HostProfile::detect("macos", "aarch64", Some("tcg")).unwrap().cpu_type, "max");
    assert!(HostProfile::detect("macos", "x86_64", None).is_err());
}

// Images.

#[test]
fn test_detect_disk_format_qcow2() {
    assert!(matches!(detect_disk_format(&[b'Q', b'F', b'I', 0xFB]), DiskFormat::Qcow2));
}

#[test]
fn test_detect_disk_format_raw() {
    assert!(matches!(detect_disk_format(b"this is not qcow2"), DiskFormat::Raw));
    assert!(!has_qcow2_magic(b"QFI"));
}

#[test]
fn test_copy_disk_image_resizes_disk_size() {
    let copy = copy_disk_image("/b/base.qcow2", "/b/vm.qcow2", Some(" +2M "));
    assert_eq!(copy.overlay.program, "qemu-img");
    assert_eq!(
        copy.overlay.args,
        strings(&["create", "-f", "qcow2", "-F", "qcow2", "-b", "/b/base.qcow2", "/b/vm.qcow2"])
    );
    assert_eq!(copy.resize.unwrap().args, strings(&["resize", "/b/vm.qcow2", "+2M"]));
    assert!(copy_disk_image("/a", "/b", Some("  ")).resize.is_none());
    assert!(copy_disk_image("/a", "/b", None).resize.is_none());
    assert_eq!(resize_outcome(false, " bad \n"), Err("qemu-img resize failed: bad".to_string()));
    assert!(resize_outcome(true, "").is_ok());
}

fn seen(exists: bool, len: u64, has_magic: bool) -> ImageSeen {
    ImageSeen { exists, len, has_magic, qemu_img_accepts: false }
}

#[test]
fn test_verify_image_nonexistent() {
    assert!(!ImageDownloader::verify_image(&seen(false, 0, false)));
}

#[test]
fn test_verify_image_empty_file() {
    assert!(!ImageDownloader::verify_image(&seen(true, 0, false)));
}

#[test]
fn test_verify_image_valid_file() {
    assert!(ImageDownloader::verify_image(&seen(true, 4, true)));
    assert!(!ImageDownloader::verify_image(&seen(true, 4, false)));
    assert!(ImageDownloader::verify_image(&ImageSeen {
        exists: true,
        len: 9,
        has_magic: false,
        qemu_img_accepts: true
    }));
}

#[test]
fn test_finalize_download_keeps_valid_existing_file() {
    let (mut finalize, step) = Finalize::finalize_download("/i/ubuntu.img", false);
    assert!(matches!(step, FinalizeStep::Look));
    assert!(matches!(finalize.looked(true), FinalizeStep::DropPart));
}

#[test]
fn test_finalize_download_replaces_invalid_existing_file() {
    let (mut finalize, _) = Finalize::finalize_download("/i/ubuntu.img", false);
    assert!(matches!(finalize.looked(false), FinalizeStep::Rename));
    assert!(matches!(finalize.renamed(RenameOutcome::AlreadyExists), FinalizeStep::Look));
    assert!(matches!(finalize.looked(false), FinalizeStep::ClearDest));
    assert!(matches!(finalize.cleared(RemoveOutcome::NotFound), FinalizeStep::Rename));
    assert!(matches!(finalize.renamed(RenameOutcome::Renamed), FinalizeStep::Done));
}

#[test]
fn a_download_that_cannot_be_put_in_place_fails() {
    let (mut finalize, _) = Finalize::finalize_download("/i/u.img", false);
    finalize.looked(false);
    match finalize.renamed(RenameOutcome::Failed) {
        FinalizeStep::Fail { message, drop_part } => {
            assert_eq!(message, "Failed to finalize image file: /i/u.img");
            assert!(drop_part);
        }
        other => panic!("unexpected step {other:?}"),
    }
    let (mut finalize, _) = Finalize::finalize_download("/i/u.img", false);
    finalize.looked(false);
    finalize.renamed(RenameOutcome::AlreadyExists);
    finalize.looked(false);
    match finalize.cleared(RemoveOutcome::Failed) {
        FinalizeStep::Fail { message, drop_part } => {
            assert_eq!(message, "Failed to overwrite existing image /i/u.img");
            assert!(!drop_part);
        }
        other => panic!("unexpected step {other:?}"),
    }
}

#[test]
fn downloads_are_made_where_they_are_needed() {
    assert!(needs_download(true, &seen(true, 4, true)));
    assert!(!needs_download(false, &seen(true, 4, true)));
    assert_eq!(image_path("/images", "https://host/a/b.img"), "/images/b.img");
}

fn fetch() -> Fetch {
    ImageDownloader::new().download("https://host/b.img", "/i/b.img", false).0
}

fn message(step: FetchStep) -> String {
    match step {
        FetchStep::Fail { message } => message,
        other => panic!("unexpected step {other:?}"),
    }
}

#[test]
fn an_image_is_fetched_and_checked() {
    let (mut fetch, step) =
        ImageDownloader::new().download("https://host/b.img", "/i/b.img", false);
    assert!(matches!(step, FetchStep::Look));
    match fetch.looked(Some(seen(true, 0, false))) {
        FetchStep::ClearDest => {}
        other => panic!("unexpected step {other:?}"),
    }
    match fetch.cleared(true) {
        FetchStep::MakeDir { dir } => assert_eq!(dir, "/i"),
        other => panic!("unexpected step {other:?}"),
    }
    match fetch.dir_made(true) {
        FetchStep::Request { url } => assert_eq!(url, "https://host/b.img"),
        other => panic!("unexpected step {other:?}"),
    }
    match fetch.answered(Answer::Announced { total: 7 }, 12, "99") {
        FetchStep::Receive { part } => assert_eq!(part, "/i/.b.img-12.99.part"),
        other => panic!("unexpected step {other:?}"),
    }
    match fetch.received(Received::Complete { bytes: 7 }) {
        FetchStep::Place { part, replace } => {
            assert_eq!(part, "/i/.b.img-12.99.part");
            assert!(!replace);
        }
        other => panic!("unexpected step {other:?}"),
    }
    assert!(matches!(fetch.placed(Ok(())), FetchStep::Look));
    assert!(matches!(fetch.looked(Some(seen(true, 7, true))), FetchStep::Done { len: 7 }));
}

#[test]
fn a_usable_image_is_not_fetched_again() {
    let mut there = fetch();
    assert!(matches!(there.looked(Some(seen(true, 4, true))), FetchStep::Done { len: 4 }));
    let (mut bare, _) = ImageDownloader::new().download("https://host/b.img", "/", false);
    assert!(matches!(bare.looked(Some(seen(false, 0, false))), FetchStep::Request { .. }));
}

#[test]
fn a_forced_download_replaces_a_usable_image() {
    let (mut fetch, step) =
        ImageDownloader::new().download("https://host/b.img", "/i/b.img", true);
    match step {
        FetchStep::MakeDir { dir } => assert_eq!(dir, "/i"),
        other => panic!("unexpected step {other:?}"),
    }
    assert!(matches!(fetch.dir_made(true), FetchStep::Request { .. }));
    fetch.answered(Answer::Announced { total: 7 }, 12, "99");
    match fetch.received(Received::Complete { bytes: 7 }) {
        FetchStep::Place { replace, .. } => assert!(replace),
        other => panic!("unexpected step {other:?}"),
    }
    assert!(matches!(fetch.placed(Ok(())), FetchStep::Look));
    assert!(matches!(fetch.looked(Some(seen(true, 7, true))), FetchStep::Done { len: 7 }));
    let (_, bare) = ImageDownloader::new().download("https://host/b.img", "/", true);
    assert!(matches!(bare, FetchStep::Request { .. }));

    let (mut finalize, step) = Finalize::finalize_download("/i/u.img", true);
    assert!(matches!(step, FinalizeStep::Rename));
    assert!(matches!(finalize.renamed(RenameOutcome::Renamed), FinalizeStep::Done));

    let (mut finalize, _) = Finalize::finalize_download("/i/u.img", true);
    assert!(matches!(finalize.renamed(RenameOutcome::AlreadyExists), FinalizeStep::ClearDest));
    assert!(matches!(finalize.cleared(RemoveOutcome::Removed), FinalizeStep::Rename));
    match finalize.renamed(RenameOutcome::AlreadyExists) {
        FinalizeStep::Fail { message, drop_part } => {
            assert_eq!(message, "Failed to finalize image file: /i/u.img");
            assert!(drop_part);
        }
        other => panic!("unexpected step {other:?}"),
    }
}

#[test]
fn each_step_of_a_download_has_its_error() {
    assert_eq!(message(fetch().looked(None)), "Failed to verify existing image");

    let mut stuck = fetch();
    stuck.looked(Some(seen(true, 4, false)));
    assert_eq!(message(stuck.cleared(false)), "Failed to remove invalid cached image /i/b.img");

    let requesting = || {
        let mut fetch = fetch();
        fetch.looked(Some(seen(false, 0, false)));
        fetch.dir_made(true);
        fetch
    };
    let mut no_dir = fetch();
    no_dir.looked(Some(seen(false, 0, false)));
    assert_eq!(message(no_dir.dir_made(false)), "Failed to create directory: /i");
    assert_eq!(
        message(requesting().answered(Answer::Unreachable, 1, "2")),
        "Failed to start download from: https://host/b.img"
    );
    assert_eq!(
        message(requesting().answered(Answer::Refused, 1, "2")),
        "Remote server returned error while downloading https://host/b.img"
    );

    let receiving = |total: u64| {
        let mut fetch = requesting();
        fetch.answered(Answer::Announced { total }, 1, "2");
        fetch
    };
    assert_eq!(
        message(receiving(8).received(Received::NotCreated)),
        "Failed to create file: /i/b.img"
    );
    assert_eq!(
        message(receiving(8).received(Received::Broken)),
        "Error while downloading image"
    );
    assert_eq!(message(receiving(8).received(Received::NotWritten)), "Failed to write to file");
    let mut short = receiving(8);
    assert!(matches!(
        short.received(Received::Complete { bytes: 7 }),
        FetchStep::Discard { .. }
    ));
    assert_eq!(
        message(short.discarded()),
        "Download incomplete: expected 8 bytes, got 7 bytes"
    );

    let placing = || {
        let mut fetch = receiving(0);
        fetch.received(Received::Complete { bytes: 7 });
        fetch
    };
    assert_eq!(message(placing().placed(Err("stuck".to_string()))), "stuck");
    let checking = || {
        let mut fetch = placing();
        fetch.placed(Ok(()));
        fetch
    };
    assert_eq!(message(checking().looked(None)), "Downloaded image is invalid: /i/b.img");
    let mut refused = checking();
    assert!(matches!(refused.looked(Some(seen(true, 7, false))), FetchStep::ClearDest));
    assert_eq!(
        message(refused.cleared(true)),
        "Downloaded image failed validation: /i/b.img"
    );
    let mut kept = checking();
    kept.looked(Some(seen(true, 7, false)));
    assert_eq!(message(kept.cleared(false)), "Failed to remove invalid downloaded image");
}

// Mounts.

fn run_mounts(args: &[&str]) -> Vec<MountSpec> {
    let mut out = Vec::new();
    let mut i = 0;
    while i < args.len() {
        if args[i] == "--mount" {
            out.push(parse_mount_spec(args[i + 1], true).unwrap());
            i += 1;
        }
        i += 1;
    }
    out
}

#[test]
fn cli_parses_single_mount_argument() {
    let mounts = run_mounts(&["vm", "run", "--mount", "/tmp:/mnt/host"]);
    assert_eq!(mounts.len(), 1);
    assert_eq!(mounts[0].host_path, "/tmp");
    assert_eq!(mounts[0].guest_path, "/mnt/host");
}

#[test]
fn cli_parses_multiple_mount_arguments() {
    let mounts =
        run_mounts(&["vm", "run", "--mount", "/tmp:/mnt/one", "--mount", "/var/tmp:/mnt/two:rw"]);
    assert_eq!(mounts.len(), 2);
    assert_eq!(mounts[0].guest_path, "/mnt/one");
    assert_eq!(mounts[1].guest_path, "/mnt/two");
}

#[test]
fn parse_mount_spec_defaults_to_read_only_mode() {
    let spec = parse_mount_spec("/tmp:/mnt/host", true).expect("mount spec should parse");
    assert_eq!(spec.host_path, "/tmp");
    assert_eq!(spec.guest_path, "/mnt/host");
    assert_eq!(spec.mode, MountMode::ReadOnly);
}

#[test]
fn parse_mount_spec_accepts_read_write_mode() {
    let spec = parse_mount_spec("/tmp:/mnt/host:rw", true).expect("mount spec should parse");
    assert_eq!(spec.mode, MountMode::ReadWrite);
}

#[test]
fn parse_mount_spec_rejects_non_absolute_host_path() {
    let err = parse_mount_spec("relative:/mnt/host", false).expect_err("spec must fail");
    assert!(err.contains("host path must be absolute"));
}

#[test]
fn parse_mount_spec_rejects_non_absolute_guest_path() {
    let err = parse_mount_spec("/tmp:relative", true).expect_err("spec must fail");
    assert!(err.contains("guest path must be absolute"));
}

#[test]
fn parse_mount_spec_rejects_unknown_mode() {
    let err = parse_mount_spec("/tmp:/mnt/host:bad", true).expect_err("spec must fail");
    assert!(err.contains("mount mode must be 'ro' or 'rw'"));
}

#[test]
fn parse_mount_spec_rejects_nonexistent_host_path() {
    let spec = "/definitely/missing/path:/mnt/host";
    assert_eq!(mount_spec_host(spec).as_deref(), Some("/definitely/missing/path"));
    let err = parse_mount_spec(spec, false).expect_err("spec must fail");
    assert!(err.contains("host path does not exist"));
}

#[test]
fn mount_specs_without_two_fields_are_refused() {
    assert_eq!(parse_mount_spec(" ", true), Err("mount spec must not be empty".to_string()));
    for spec in ["/tmp", "/a:/b:ro:x", ":/b", "/a:"] {
        assert_eq!(
            parse_mount_spec(spec, true),
            Err("mount spec must be in form <host_path>:<guest_path>[:ro|rw]".to_string())
        );
    }
}

// Processes.

#[test]
fn test_is_process_absent_error_matches() {
    assert!(is_process_absent_error("No such process"));
    assert!(is_process_absent_error("process does not exist"));
    assert!(!is_process_absent_error("some other error"));
}

#[test]
fn processes_are_judged_by_what_ps_says() {
    assert!(is_process_alive(true, Some("S+")));
    assert!(is_process_alive(true, None));
    assert!(!is_process_alive(true, Some(" Z+ ")));
    assert!(!is_process_alive(false, Some("S")));
    assert!(is_qemu_process(true, Some("/usr/bin/QEMU-system-x86_64 -m 4G")));
    assert!(!is_qemu_process(true, Some("bash")));
    assert!(!is_qemu_process(true, None));
    assert!(!is_qemu_process(false, Some("qemu-system-x86_64")));
}

#[test]
fn only_qemu_is_stopped() {
    assert_eq!(stop_qemu_by_pid(12, true).unwrap(), strings(&["-TERM", "12"]));
    assert_eq!(force_stop_qemu_by_pid(12, true).unwrap(), strings(&["-KILL", "12"]));
    assert_eq!(
        stop_qemu_by_pid(12, false),
        Err("Refusing to stop PID 12: process is not a QEMU process".to_string())
    );
    let gone = KillOutput { success: false, stderr: "No such process".to_string() };
    assert!(kill_qemu_process(12, &gone).is_ok());
    let denied = KillOutput { success: false, stderr: "denied".to_string() };
    assert_eq!(
        kill_qemu_process(12, &denied),
        Err("Failed to kill process 12: denied".to_string())
    );
}

#[test]
fn qemu_is_known_by_its_pid_file() {
    assert!(matches!(start_step(Some(" 77\n"), false, None, 5), StartStep::Started { pid: 77 }));
    assert!(matches!(start_step(None, true, None, 5), StartStep::Started { pid: 5 }));
    assert!(matches!(start_step(Some("x"), false, None, 5), StartStep::Pause));
    match start_step(None, false, Some("exit status: 1"), 5) {
        StartStep::Fail { message } => {
            assert_eq!(message, "QEMU exited while starting (status: exit status: 1).")
        }
        other => panic!("unexpected step {other:?}"),
    }
}

// QEMU configuration.

#[test]
fn test_qemu_config_default() {
    let mac = HostProfile::for_target("macos", "aarch64").unwrap();
    let other = QemuConfig::default(Some(&mac));
    assert_eq!(other.qemu_binary, mac.qemu_binary);
    assert_eq!(other.machine_type, mac.machine_type);
    assert_eq!(other.cpu_type, mac.cpu_type);
    assert_eq!(QemuConfig::default(None).machine_type, "q35,accel=kvm");

    let config = QemuConfig::default(Some(&linux_host()));
    assert!(config.qemu_binary.starts_with("qemu-system-"));
    assert!(!config.machine_type.is_empty());
    assert_eq!(config.cpu_type, linux_host().cpu_type);
    assert_eq!(config.memory, "4G");
    assert_eq!(config.cpus, 2);
    assert!(config.disk_image.is_none());
    assert!(config.cloud_init_iso.is_none());
    assert!(config.ssh_port.is_none());
    assert!(!config.display);
    assert!(config.daemonize);
    assert!(matches!(config.disk_format, DiskFormat::Qcow2));
    assert!(config.kernel_path.is_none());
    assert!(config.append.is_none());
}

#[test]
fn test_qemu_config_builder() {
    let config = QemuConfig::new(None)
        .qemu_binary("qemu-system-x86_64")
        .machine_type("q35,accel=kvm")
        .memory("4G")
        .cpus(4)
        .disk_image("/tmp/one")
        .disk_format(DiskFormat::Raw)
        .kernel_path("/tmp/three")
        .append("console=ttyS0")
        .cloud_init_iso("/tmp/two")
        .ssh_port(2222)
        .pid_file("/tmp/one")
        .display(true)
        .daemonize(false);

    assert_eq!(config.memory, "4G");
    assert_eq!(config.cpus, 4);
    assert_eq!(config.ssh_port, Some(2222));
    assert!(config.display);
    assert!(!config.daemonize);
    assert_eq!(config.qemu_binary, "qemu-system-x86_64");
    assert!(config.bios_path.is_none());
    assert_eq!(config.pid_file, Some("/tmp/one".to_string()));
    assert_eq!(config.pid_file_path(), Some("/tmp/one"));
    assert_eq!(config.disk_format, DiskFormat::Raw);
    assert_eq!(config.append.as_deref(), Some("console=ttyS0"));
}

#[test]
fn test_qemu_config_build_args() {
    let config = QemuConfig::new(None)
        .qemu_binary("qemu-system-x86_64")
        .machine_type("q35,accel=kvm")
        .disk_image("/tmp/one")
        .disk_format(DiskFormat::Qcow2)
        .cloud_init_iso("/tmp/two")
        .ssh_port(2222)
        .pid_file("/tmp/one");

    let args = config.build_args();
    assert!(args.contains(&"qemu-system-x86_64".to_string()));
    assert!(args.contains(&"-machine".to_string()));
    assert!(args.contains(&"q35,accel=kvm".to_string()));
    assert!(args.contains(&"-m".to_string()));
    assert!(args.contains(&"4G".to_string()));
    assert!(args.contains(&"-netdev".to_string()));
    assert!(args.iter().any(|arg| arg.contains("hostfwd=tcp::2222-:22")));
    assert!(args.iter().any(|arg| arg.contains("-pidfile")));
    assert!(args.iter().any(|arg| arg.contains("/tmp/one")));
    assert!(args.iter().any(|arg| arg.contains("format=qcow2")));
}

#[test]
fn test_qemu_config_build_args_with_kernel() {
    let config = QemuConfig::new(None)
        .qemu_binary("qemu-system-x86_64")
        .machine_type("q35,accel=kvm")
        .disk_image("/tmp/one")
        .disk_format(DiskFormat::Raw)
        .kernel_path("/tmp/three")
        .append("console=ttyS0")
        .cloud_init_iso("/tmp/two")
        .ssh_port(2222)
        .pid_file("/tmp/one");

    let args = config.build_args();
    assert!(args.iter().any(|arg| arg.contains("-kernel")));
    assert!(args.iter().any(|arg| arg.contains("console=ttyS0")));
    assert!(args.iter().any(|arg| arg.contains("format=raw")));
}

#[test]
fn test_qemu_config_from_linux_profile() {
    let profile = HostProfile::for_target("linux", "x86_64").unwrap();
    let config =
        QemuConfig::from_host_profile(&profile).disk_image("/tmp/one").cloud_init_iso("/tmp/two");

    let args = config.build_args();
    assert!(args.contains(&"qemu-system-x86_64".to_string()));
    assert!(args.contains(&"q35,accel=kvm".to_string()));
    assert!(!args.contains(&"-bios".to_string()));
}

#[test]
fn test_qemu_config_from_macos_arm64_profile() {
    let profile = HostProfile::for_target("macos", "aarch64").unwrap();
    let config =
        QemuConfig::from_host_profile(&profile).disk_image("/tmp/one").cloud_init_iso("/tmp/two");

    let args = config.build_args();
    assert!(args.contains(&"qemu-system-aarch64".to_string()));
    assert!(args.contains(&"virt,accel=hvf".to_string()));
    assert!(args.contains(&"-bios".to_string()));
    assert!(args.iter().any(|arg| arg.contains("edk2-aarch64-code.fd")));
}

fn all_there() -> QemuPaths {
    QemuPaths {
        disk_exists: true,
        iso_exists: true,
        kernel_exists: true,
        sockets_exist: vec![true],
    }
}

#[test]
fn test_qemu_config_validate_missing_disk() {
    let config = QemuConfig::new(None);
    let result = config.validate(&all_there());
    assert!(result.is_err());
    assert!(result.unwrap_err().contains("Disk image is required"));
}

#[test]
fn test_qemu_config_validate_missing_iso() {
    let config = QemuConfig::new(None).disk_image("/tmp/one");
    let result = config.validate(&all_there());
    assert!(result.is_err());
    assert!(result.unwrap_err().contains("Cloud-init ISO is required"));
}

#[test]
fn test_qemu_config_validate_nonexistent_disk() {
    let config =
        QemuConfig::new(None).disk_image("/nonexistent/disk.qcow2").cloud_init_iso("/tmp/two");
    let mut paths = all_there();
    paths.disk_exists = false;
    let result = config.validate(&paths);
    assert!(result.is_err());
    assert!(result.unwrap_err().contains("does not exist"));
    let mut paths = all_there();
    paths.iso_exists = false;
    assert_eq!(
        config.validate(&paths),
        Err("Cloud-init ISO does not exist: /tmp/two".to_string())
    );
}

#[test]
fn test_qemu_config_validate_nonexistent_kernel() {
    let config = QemuConfig::new(None)
        .disk_image("/tmp/one")
        .cloud_init_iso("/tmp/one")
        .kernel_path("/nonexistent/bzImage")
        .append("console=ttyS0");
    let mut paths = all_there();
    paths.kernel_exists = false;
    let result = config.validate(&paths);
    assert!(result.is_err());
    assert!(result.unwrap_err().contains("Kernel image does not exist"));
}

#[test]
fn test_qemu_config_validate_valid() {
    let config = QemuConfig::new(None).disk_image("/tmp/one").cloud_init_iso("/tmp/two");
    assert!(config.validate(&all_there()).is_ok());
}

#[test]
fn only_valid_configurations_are_started() {
    let config = QemuConfig::new(None).disk_image("/d").cloud_init_iso("/s.iso").ssh_port(2222);
    let line = QemuRunner::new().start(&config, &all_there()).unwrap();
    assert_eq!(line.program, config.qemu_binary);
    assert_eq!(line.args, config.build_args()[1..]);
    let refusal = QemuRunner::default().start(&QemuConfig::new(None), &all_there()).unwrap_err();
    assert_eq!(refusal.message, "Invalid QEMU configuration");
    assert_eq!(refusal.cause, "Disk image is required");
}

#[test]
fn shares_are_validated_too() {
    let base = || QemuConfig::new(None).disk_image("/tmp/one").cloud_init_iso("/tmp/two");
    assert_eq!(
        base().virtiofs_share(" ", "/s").validate(&all_there()),
        Err("virtiofs tag must not be empty".to_string())
    );
    assert_eq!(
        base().virtiofs_share("t", "s").validate(&all_there()),
        Err("virtiofs socket path must be absolute: s".to_string())
    );
    let mut paths = all_there();
    paths.sockets_exist = vec![false];
    assert_eq!(
        base().virtiofs_share("t", "/s").validate(&paths),
        Err("virtiofs socket does not exist: /s".to_string())
    );
}

#[test]
fn test_qemu_config_daemonize_serial_null() {
    let config =
        QemuConfig::new(None).disk_image("/tmp/one").cloud_init_iso("/tmp/two").daemonize(true);

    let args = config.build_args();
    assert!(args.contains(&"-daemonize".to_string()));
    assert!(args.contains(&"-serial".to_string()));
    assert!(args.contains(&"null".to_string()));
}

#[test]
fn test_qemu_config_no_daemonize_serial_stdio() {
    let config =
        QemuConfig::new(None).disk_image("/tmp/one").cloud_init_iso("/tmp/two").daemonize(false);

    let args = config.build_args();
    assert!(!args.contains(&"-daemonize".to_string()));
    assert!(args.contains(&"-serial".to_string()));
    assert!(args.contains(&"stdio".to_string()));
}

#[test]
fn test_qemu_config_build_args_with_virtiofs_share() {
    let config = QemuConfig::new(None)
        .disk_image("/tmp/one")
        .cloud_init_iso("/tmp/two")
        .virtiofs_share("vmizefs0", "/tmp/virtiofs.sock");

    let args = config.build_args();
    assert!(args.iter().any(|arg| arg == "-chardev"
        || arg.contains("socket,id=virtiofsch0,path=/tmp/virtiofs.sock")));
    assert!(args.iter().any(|arg| arg == "-device"
        || arg.contains("vhost-user-fs-pci,chardev=virtiofsch0,tag=vmizefs0")));
    assert!(args.contains(&"socket,id=virtiofsch0,path=/tmp/virtiofs.sock".to_string()));
}

// Keys.

#[test]
fn test_generate_key_pair() {
    let manager = SshKeyManager::new("/keys");
    let files = manager.generate_key_pair("test");
    assert!(files.private_key_path.starts_with("/keys/test-"));
    assert!(files.private_key_path.ends_with(".key"));
    assert_eq!(files.public_key_path, format!("{}.pub", files.private_key_path));
    assert_eq!(manager.generate_key_pair("test").private_key_path, files.private_key_path);
    assert_ne!(manager.generate_key_pair("test ").private_key_path, files.private_key_path);
    assert_eq!(files.keygen_args[0..2], strings(&["-t", "ed25519"])[..]);
    assert!(manager.read_public_key("ssh-ed25519 AAAA\n").starts_with("ssh-ed25519"));
}

#[test]
fn the_hash_of_a_name_is_that_of_the_standard_hasher() {
    let hasher = std::hash::BuildHasherDefault::<std::collections::hash_map::DefaultHasher>::default();
    let expected = std::hash::BuildHasher::hash_one(&hasher, "vm");
    let manager = SshKeyManager::new("/keys");
    assert_eq!(
        manager.generate_key_pair("vm").private_key_path,
        format!("/keys/vm-{expected:x}.key")
    );
    assert_eq!(manager.files_for_hash("vm", 0xabc).lock_path, "/keys/vm-abc.lock");
}

#[test]
fn key_names_are_made_safe() {
    assert_eq!(sanitize_key_name("my vm/1"), "my_vm_1");
    assert_eq!(sanitize_key_name("///"), "vm-host");
    assert_eq!(sanitize_key_name("a.b-c_d"), "a.b-c_d");
}

#[test]
fn keys_are_made_under_a_lock() {
    let manager = SshKeyManager::new("/keys");
    assert_eq!(manager.next_step(true, false), KeyStep::ReadPublicKey);
    assert_eq!(manager.next_step(false, false), KeyStep::TakeLock);
    assert_eq!(manager.next_step(false, true), KeyStep::Generate);
    assert!(matches!(acquire_file_lock("/l", 1, &LockAttempt::Created), FileLockStep::Held));
    assert!(matches!(acquire_file_lock("/l", 99, &LockAttempt::Exists), FileLockStep::Wait));
    match acquire_file_lock("/l", 100, &LockAttempt::Exists) {
        FileLockStep::Fail { message } => assert_eq!(message, "Timeout waiting for lock file /l"),
        other => panic!("unexpected step {other:?}"),
    }
    match acquire_file_lock("/l", 1, &LockAttempt::Failed { reason: "x".to_string() }) {
        FileLockStep::Fail { message } => assert_eq!(message, "Failed to acquire lock file /l"),
        other => panic!("unexpected step {other:?}"),
    }
}

// Numbers, locks and ports.

#[test]
fn test_acquire_vm_creation_lock_success() {
    match acquire_vm_creation_lock("/i", &LockAttempt::Created, false, 0) {
        LockStep::Held { lock } => assert_eq!(lock.lock_path, "/i/.vm-locks/creation.lock"),
        other => panic!("unexpected step {other:?}"),
    }
    assert!(vm_creation_lock_path("/i").starts_with("/i/"));
}

#[test]
fn test_acquire_vm_creation_lock_times_out_when_held() {
    let step = acquire_vm_creation_lock_with_timeout(
        "/i",
        &LockAttempt::Exists,
        false,
        50_000_000,
        50_000_000,
        "50ms",
    );
    match step {
        LockStep::Fail { message } => assert_eq!(
            message,
            "Timed out waiting for VM creation lock after 50ms. Another VM creation may be in progress."
        ),
        other => panic!("unexpected step {other:?}"),
    }
    assert!(matches!(
        acquire_vm_creation_lock("/i", &LockAttempt::Exists, false, 9_999_999_999),
        LockStep::Wait
    ));
}

#[test]
fn test_acquire_vm_creation_lock_reuses_stale_lock() {
    assert!(matches!(
        acquire_vm_creation_lock("/i", &LockAttempt::Exists, true, 20_000_000_000),
        LockStep::RemoveStale
    ));
    assert_eq!(stale_lock_message("busy"), "Failed to remove stale VM creation lock: busy");
    let failed = LockAttempt::Failed { reason: "disk full".to_string() };
    match acquire_vm_creation_lock("/i", &failed, false, 0) {
        LockStep::Fail { message } => assert_eq!(message, "Failed to acquire VM creation lock"),
        other => panic!("unexpected step {other:?}"),
    }
}

#[test]
fn test_is_stale_pid_lock_with_dead_pid() {
    let file = LockFile::Contents { text: "99999999".to_string() };
    assert_eq!(lock_owner_pid(&file), Some(99999999));
    assert!(is_stale_pid_lock(&file, false));
    assert!(!is_stale_pid_lock(&file, true));
    assert!(is_stale_pid_lock(&LockFile::NotFound, true));
    assert!(!is_stale_pid_lock(&LockFile::Unreadable, false));
    assert!(is_stale_pid_lock(&LockFile::Contents { text: "?".to_string() }, true));
}

#[test]
fn test_ssh_port_for_vm_index_valid() {
    assert_eq!(ssh_port_for_vm_index(0), Some(2220));
    assert_eq!(ssh_port_for_vm_index(1), Some(2221));
    assert_eq!(ssh_port_for_vm_index(5), Some(2225));
    assert_eq!(ssh_port_for_vm_index(9), Some(2229));
}

#[test]
fn test_ssh_port_for_vm_index_exceeds_limit() {
    assert_eq!(ssh_port_for_vm_index(10), None);
    assert_eq!(ssh_port_for_vm_index(11), None);
    assert_eq!(ssh_port_for_vm_index(100), None);
}

#[test]
fn test_validate_vm_capacity_empty_dir() {
    let index = validate_vm_capacity(&[]).unwrap();
    assert_eq!(index, 0);
}

#[test]
fn test_validate_vm_capacity_with_existing_vms() {
    let index = validate_vm_capacity(&strings(&["vm0", "vm1", "vm2"])).unwrap();
    assert_eq!(index, 3);
}

#[test]
fn test_validate_vm_capacity_at_limit() {
    let names: Vec<String> = (0..10).map(|i| format!("vm{i}")).collect();
    let err = validate_vm_capacity(&names).unwrap_err();
    assert!(err.contains("Maximum VM limit (10) reached"));
}

#[test]
fn test_reserve_specific_ssh_port_success() {
    let reservation = reserve_specific_ssh_port("/i", 45000, &LockAttempt::Created).unwrap();
    assert_eq!(reservation.port(), 45000);
    assert_eq!(reservation.lock_path, ssh_port_lock_path("/i", 45000));
}

#[test]
fn test_reserve_specific_ssh_port_already_reserved() {
    let err = reserve_specific_ssh_port("/i", 45000, &LockAttempt::Exists).unwrap_err();
    assert!(err.contains("already reserved"));
    let failed = LockAttempt::Failed { reason: "x".to_string() };
    assert!(reserve_specific_ssh_port("/i", 45000, &failed)
        .unwrap_err()
        .starts_with("Failed to reserve SSH port 45000 with lock /i/"));
}

#[test]
fn test_reserve_ssh_port_prefers_preferred_free_port() {
    match reserve_ssh_port("/i", 45000, 45000, &LockAttempt::Created, true) {
        PortStep::Reserved { reservation } => assert!(reservation.port() >= 45000),
        other => panic!("unexpected step {other:?}"),
    }
}

#[test]
fn test_reserve_ssh_port_skips_busy_port() {
    assert!(matches!(
        reserve_ssh_port("/i", 45000, 45000, &LockAttempt::Created, false),
        PortStep::ReleaseAndTry { port: 45001 }
    ));
    match reserve_ssh_port("/i", 45000, 65535, &LockAttempt::Created, false) {
        PortStep::Fail { message, release } => {
            assert_eq!(message, "No available SSH ports found starting from 45000.");
            assert!(release);
        }
        other => panic!("unexpected step {other:?}"),
    }
}

#[test]
fn test_reserve_ssh_port_avoids_existing_lock() {
    assert!(matches!(
        reserve_ssh_port("/i", 45000, 45000, &LockAttempt::Exists, true),
        PortStep::Try { port: 45001 }
    ));
}

/// Searches from a port on, with the outcome of each attempt given.
fn search(preferred: u16, attempts: Vec<(LockAttempt, bool)>) -> u16 {
    let mut port = preferred;
    for (attempt, free) in attempts {
        match reserve_ssh_port("/i", preferred, port, &attempt, free) {
            PortStep::Reserved { reservation } => return reservation.port(),
            PortStep::ReleaseAndTry { port: next } | PortStep::Try { port: next } => port = next,
            PortStep::Fail { message, .. } => panic!("{message}"),
        }
    }
    panic!("no port was reserved")
}

#[test]
fn test_reserve_ssh_port_skips_busy_ipv6_port() {
    let ok = BindOutcome::Bound;
    let busy = is_port_free(ok, ok, ok, BindOutcome::InUse);
    let reserved =
        search(45000, vec![(LockAttempt::Created, busy), (LockAttempt::Created, true)]);
    assert!(reserved > 45000);
}

#[test]
fn test_reserve_ssh_port_reuses_port_with_stale_lock() {
    let stale = LockFile::Contents { text: "99999999".to_string() };
    assert!(is_stale_pid_lock(&stale, false));
    assert!(search(45000, vec![(LockAttempt::Created, true)]) >= 45000);
}

#[test]
fn test_reserve_ssh_port_avoids_active_lock() {
    let active = LockFile::Contents { text: "1".to_string() };
    assert!(!is_stale_pid_lock(&active, true));
    let reserved =
        search(45000, vec![(LockAttempt::Exists, true), (LockAttempt::Created, true)]);
    assert!(reserved > 45000);
}

#[test]
fn test_reserve_specific_ssh_port_reuses_stale_lock() {
    let stale = LockFile::Contents { text: "99999999".to_string() };
    assert!(is_stale_pid_lock(&stale, false));
    assert!(reserve_specific_ssh_port("/i", 45000, &LockAttempt::Created).is_ok());
}

#[test]
fn locks_lie_in_directories_that_are_no_machines() {
    for dir in ["/i", "i", ".", "./i", "/", "", "/i/", "a/./b/."] {
        let creation = vm_creation_lock_path(dir);
        assert_eq!(creation, join(&join(dir, ".vm-locks"), "creation.lock"));
        assert_eq!(parent(&creation), Some(vm_locks_dir(dir)));
        let first = ssh_port_lock_path(dir, 2220);
        let second = ssh_port_lock_path(dir, 2221);
        assert_eq!(first, join(&join(dir, ".ssh-port-locks"), "2220.lock"));
        assert_ne!(first, second);
        assert_eq!(parent(&first), Some(ssh_port_locks_dir(dir)));
        assert_eq!(parent(&second), Some(ssh_port_locks_dir(dir)));
    }
    assert_eq!(vm_index_from_id(".vm-locks"), None);
    assert_eq!(vm_index_from_id(".ssh-port-locks"), None);
}

#[test]
fn a_live_process_keeps_its_creation_lock() {
    let held = LockFile::Contents { text: "77\n".to_string() };
    assert_eq!(lock_owner_pid(&held), Some(77));
    let live = is_stale_pid_lock(&held, true);
    let early = acquire_vm_creation_lock("/i", &LockAttempt::Exists, live, 9_999_999_999);
    assert!(matches!(early, LockStep::Wait));
    match acquire_vm_creation_lock("/i", &LockAttempt::Exists, live, 10_000_000_000) {
        LockStep::Fail { message } => assert_eq!(
            message,
            "Timed out waiting for VM creation lock after 10s. Another VM creation may be in \
             progress."
        ),
        other => panic!("unexpected step {other:?}"),
    }
    let written = LockFile::Contents { text: lock_contents(4_000_000_000) };
    assert_eq!(lock_owner_pid(&written), Some(4_000_000_000));
    assert!(!is_stale_pid_lock(&written, true));
    match acquire_vm_creation_lock("/i", &LockAttempt::Created, false, 0) {
        LockStep::Held { lock } => assert_eq!(lock.release(), vm_creation_lock_path("/i")),
        other => panic!("unexpected step {other:?}"),
    }
    let dead = is_stale_pid_lock(&held, false);
    let unnamed = is_stale_pid_lock(&LockFile::Contents { text: "who".to_string() }, true);
    for stale in [dead, unnamed] {
        let step = acquire_vm_creation_lock("/i", &LockAttempt::Exists, stale, 20_000_000_000);
        assert!(matches!(step, LockStep::RemoveStale));
    }
}

#[test]
fn test_acquire_vm_creation_lock_succeeds_after_lock_released() {
    let waiting = acquire_vm_creation_lock_with_timeout(
        "/i",
        &LockAttempt::Exists,
        false,
        100_000_000,
        500_000_000,
        "500ms",
    );
    assert!(matches!(waiting, LockStep::Wait));
    let held = acquire_vm_creation_lock_with_timeout(
        "/i",
        &LockAttempt::Created,
        false,
        200_000_000,
        500_000_000,
        "500ms",
    );
    assert!(
        matches!(held, LockStep::Held { .. }),
        "Should have acquired lock after first was released"
    );
}

#[test]
fn a_port_must_be_free_at_every_address() {
    let ok = BindOutcome::Bound;
    assert!(is_port_free(ok, ok, ok, ok));
    assert!(is_port_free(ok, ok, BindOutcome::NoSuchAddress, BindOutcome::NoSuchAddress));
    assert!(!is_port_free(ok, BindOutcome::NoSuchAddress, ok, ok));
    assert!(!is_port_free(ok, ok, ok, BindOutcome::InUse));
    assert!(!is_port_free(BindOutcome::Failed, ok, ok, ok));
}

#[test]
fn test_next_vm_id_uses_next_available_number() {
    let names = strings(&["vm0", "vm2", "vm3", "550e8400-e29b-41d4-a716-446655440000"]);
    assert_eq!(next_vm_id(&names), "vm4");
}

#[test]
fn ids_are_read_back() {
    assert_eq!(vm_index_from_id("vm12"), Some(12));
    assert_eq!(vm_index_from_id("vm"), None);
    assert_eq!(vm_index_from_id("vm99999999999"), None);
    assert!(is_sequential_vm_id("vm0"));
    assert!(!is_sequential_vm_id("vmx"));
    assert_eq!(vm_record_path("/i", "vm1"), "/i/vm1/vm.json");
    assert_eq!(pid_file_path("/i", "vm1"), "/i/vm1/qemu.pid");
    assert_eq!(read_pid_file(" 42 \n"), Some(42));
    assert_eq!(read_pid_file("-1"), None);
}

// Records.

#[test]
fn test_remove_vm_instance_deletes_directory_and_key_when_unused() {
    let record = sample_record("vm1", "/base/keys/vm-key");
    let left = remove_vm_instance("/base", "vm1", &record, &keep_key_paths(&Vec::new()));
    assert_eq!(left.dir, "/base/vm1");
    assert_eq!(left.key_files, strings(&["/base/keys/vm-key", "/base/keys/vm-key.pub"]));
}

#[test]
fn test_remove_vm_instance_keeps_shared_key() {
    let record = sample_record("vm1", "/base/keys/shared-key");
    let others = vec![("vm2".to_string(), sample_record("vm2", "/base/keys/shared-key"))];
    let left = remove_vm_instance("/base", "vm1", &record, &keep_key_paths(&others));
    assert_eq!(left.dir, "/base/vm1");
    assert!(left.key_files.is_empty());
}

#[test]
fn records_are_listed_from_the_oldest() {
    let mut young = sample_record("vm0", "/k");
    young.created_at = 9;
    let old = sample_record("vm1", "/k");
    let twin = sample_record("vm2", "/k");
    let list = list_vm_records(vec![
        ("vm0".to_string(), young),
        ("vm1".to_string(), old),
        ("vm2".to_string(), twin),
    ]);
    let ids: Vec<&str> = list.iter().map(|r| r.0.as_str()).collect();
    assert_eq!(ids, vec!["vm1", "vm2", "vm0"]);
}

#[test]
fn a_record_shows_what_its_machine_does() {
    let mut record = sample_record("vm0", "/k");
    assert_eq!(record.runtime_status(true), VmRuntimeStatus::Stopped);
    record.pid = Some(5);
    assert_eq!(record.runtime_status(true), VmRuntimeStatus::Running);
    assert_eq!(record.runtime_status_label(false), "stale");
    record.status = VmStatus::Stopped;
    assert_eq!(record.runtime_status_label(true), "stopped");
}

#[test]
fn qemu_processes_are_matched_to_records() {
    let found = scan_qemu_processes(
        "  10 /usr/bin/qemu-system-x86_64 -name vm0 -netdev user,hostfwd=tcp::2222-:22\n 11 bash\nbad line\n12 qemu-system-x86_64 -name other\n",
    );
    assert_eq!(found.len(), 2);
    assert_eq!(found[0].0, 10);
    assert_eq!(found[1], (12, "qemu-system-x86_64 -name other".to_string()));
    let mut record = sample_record("vm0", "/k");
    let seen = QemuSightings {
        recorded_is_qemu: false,
        pid_file: None,
        pid_file_is_qemu: false,
        processes: found,
    };
    assert_eq!(resolve_qemu_pid("vm0", &record, &seen), Some(10));
    record.pid = Some(99);
    let seen = QemuSightings {
        recorded_is_qemu: true,
        pid_file: Some(7),
        pid_file_is_qemu: true,
        processes: Vec::new(),
    };
    assert_eq!(resolve_qemu_pid("vm0", &record, &seen), Some(99));
    let seen = QemuSightings { recorded_is_qemu: false, ..seen };
    assert_eq!(resolve_qemu_pid("vm0", &record, &seen), Some(7));
}

#[test]
fn stopping_goes_from_asking_to_killing() {
    assert_eq!(stop_qemu_and_wait(1, 10, true, false), StopStep::Pause);
    assert_eq!(stop_qemu_and_wait(5, 10, true, false), StopStep::ForceKill);
    assert_eq!(stop_qemu_and_wait(6, 10, true, true), StopStep::Pause);
    assert_eq!(stop_qemu_and_wait(6, 10, false, true), StopStep::Gone);
    assert_eq!(stop_qemu_and_wait(10, 10, false, true), StopStep::TimedOut);
    assert_eq!(
        stop_timeout_message(3),
        "Timed out while waiting for qemu process 3 to stop"
    );
    let mut record = sample_record("vm0", "/k");
    record.pid = Some(3);
    assert_eq!(
        stop_record_if_running(&mut record, Some(Err("denied".to_string()))),
        Err("denied".to_string())
    );
    assert_eq!(record.pid, Some(3));
    assert!(stop_record_if_running(&mut record, Some(Err("No such process".to_string()))).is_ok());
    assert_eq!(record.pid, None);
    assert_eq!(record.status, VmStatus::Stopped);
}

// Working with machines.

#[test]
fn executables_are_searched_in_order() {
    let candidates = executable_candidates("/a:/b:/c", "virtiofsd");
    assert_eq!(candidates, strings(&["/a/virtiofsd", "/b/virtiofsd", "/c/virtiofsd"]));
    let kinds = [PathKind::Missing, PathKind::File, PathKind::File];
    assert_eq!(find_executable(&candidates, &kinds).as_deref(), Some("/b/virtiofsd"));
    let none = [PathKind::Missing, PathKind::Directory, PathKind::Missing];
    assert_eq!(find_executable(&candidates, &none), None);
}

#[test]
fn only_running_machines_are_reached() {
    let mut record = sample_record("vm0", "/k");
    assert_eq!(
        require_running_vm("vm0", &record, true, true),
        Err("VM 'vm0' is stopped".to_string())
    );
    record.pid = Some(4);
    let stale = Err("VM 'vm0' is not running".to_string());
    assert_eq!(require_running_vm("vm0", &record, false, true), stale);
    assert_eq!(require_running_vm("vm0", &record, false, false), stale);
    assert!(ssh_stream_with_config("vm0", &record, false, true, "uname").is_err());
    assert!(run_interactive_ssh("vm0", &record, false, true).is_err());
    assert!(cp_to_with_config("vm0", &record, false, true, "/l", "/r", true).is_err());
    assert!(cp_from_with_config("vm0", &record, false, true, "/r", "/l", true).is_err());
    assert_eq!(
        require_running_vm("vm0", &record, true, false),
        Err("SSH key not found at: /k".to_string())
    );
    assert!(require_running_vm("vm0", &record, true, true).is_ok());
    let args = ssh_stream_with_config("vm0", &record, true, true, "uname").unwrap();
    assert_eq!(args[0..4], strings(&["-i", "/k", "-p", "2222"])[..]);
    assert_eq!(args[args.len() - 3..], strings(&["ubuntu@127.0.0.1", "--", "uname"])[..]);
    let login = run_interactive_ssh("vm0", &record, true, true).unwrap();
    assert_eq!(login.last().unwrap(), "ubuntu@127.0.0.1");
    let to = cp_to_with_config("vm0", &record, true, true, "/l", "/r", true).unwrap();
    assert_eq!(to[0..2], strings(&["-O", "-r"])[..]);
    assert_eq!(to[to.len() - 2..], strings(&["/l", "ubuntu@127.0.0.1:/r"])[..]);
    let from = cp_from_with_config("vm0", &record, true, true, "/r", "/l", false).unwrap();
    assert_eq!(from[from.len() - 2..], strings(&["ubuntu@127.0.0.1:/r", "/l"])[..]);
}

#[test]
fn a_copy_needs_one_machine() {
    assert_eq!(cp_endpoint_id("vm0:/etc"), Some("vm0".to_string()));
    assert_eq!(cp_endpoint_id(":/etc"), None);
    assert_eq!(cp_endpoint_id("/etc"), None);
    let remote = || parse_cp_endpoint("vm0:/etc", true);
    let local = || parse_cp_endpoint("./file", false);
    assert_eq!(local(), CpEndpoint::Local { path: "./file".to_string() });
    let transfer = cp_transfer(local(), remote()).unwrap();
    assert_eq!(transfer.direction, ScpDirection::LocalToVm);
    assert_eq!(transfer.dest, "/etc");
    assert_eq!(cp_transfer(remote(), local()).unwrap().direction, ScpDirection::VmToLocal);
    assert_eq!(
        cp_transfer(local(), local()),
        Err("cp requires one VM path in the form <vm-id>:<path>".to_string())
    );
    assert_eq!(
        cp_transfer(remote(), remote()),
        Err("cp requires one local path and one VM path (got remote paths for 'vm0' and 'vm0')"
            .to_string())
    );
}

#[test]
fn machines_are_found_for_removal() {
    let records = vec![
        ("vm0".to_string(), sample_record("vm0", "/k0")),
        ("vm1".to_string(), sample_record("vm1", "/k1")),
    ];
    let (record, keep) = rm_with_config(records, "vm1").unwrap();
    assert_eq!(record.id, "vm1");
    assert_eq!(keep, strings(&["/k0"]));
    assert_eq!(
        rm_with_config(Vec::new(), "vm7").unwrap_err(),
        "Failed to find VM record 'vm7'"
    );
    assert!(clear_vms(&Vec::new()).is_ok());
    let failures = vec![
        ("vm0".to_string(), "busy".to_string()),
        ("vm1".to_string(), "gone".to_string()),
    ];
    assert_eq!(
        clear_vms(&failures),
        Err("Failed to clear all VMs:\nvm0: busy\nvm1: gone".to_string())
    );
}

#[test]
fn every_machine_is_tried_before_the_directories_go() {
    let (_, step) = Clearing::begin("/i", "/k", Vec::new());
    assert!(matches!(step, ClearStep::Nothing));

    let (mut clearing, step) = Clearing::begin("/i", "/k", strings(&["vm0", "vm3"]));
    match step {
        ClearStep::RemoveVm { index, id } => assert_eq!((index, id.as_str()), (0, "vm0")),
        other => panic!("unexpected step {other:?}"),
    }
    match clearing.removed(Err("busy".to_string())) {
        ClearStep::RemoveVm { index, id } => assert_eq!((index, id.as_str()), (1, "vm3")),
        other => panic!("unexpected step {other:?}"),
    }
    match clearing.removed(Ok(())) {
        ClearStep::Fail { message } => {
            assert_eq!(message, "Failed to clear all VMs:\nvm0: busy");
        }
        other => panic!("unexpected step {other:?}"),
    }

    let (mut clearing, _) = Clearing::begin("/i", "/k", strings(&["vm0"]));
    match clearing.removed(Ok(())) {
        ClearStep::RemoveDirs { instances, keys, port_locks } => {
            assert_eq!(instances, "/i");
            assert_eq!(keys, "/k");
            assert_eq!(port_locks, "/i/.ssh-port-locks");
        }
        other => panic!("unexpected step {other:?}"),
    }
}

#[test]
fn machines_are_listed_in_a_table() {
    assert_eq!(list_vms_inner(&Vec::new(), &[]), "No VMs found\n");
    let mut running = sample_record("vm0", "/k");
    running.pid = Some(31);
    let mut stale = sample_record("vm1", "/k");
    stale.pid = Some(32);
    let stopped = sample_record("vm2", "/k");
    let records = vec![
        ("vm0".to_string(), running),
        ("vm1".to_string(), stale),
        ("vm2".to_string(), stopped),
    ];
    let table = list_vms_inner(&records, &[true, false, false]);
    let lines: Vec<&str> = table.lines().collect();
    assert_eq!(lines.len(), 4);
    assert!(lines[0].starts_with("ID  "));
    assert_eq!(lines[1], "-".repeat(111));
    assert!(lines[2].starts_with("vm0 "));
    assert!(lines[2].contains("running"));
    assert!(lines[3].starts_with("vm2 "));
    assert!(lines[3].contains("stopped"));
    assert_eq!(lines[2].find("2222"), lines[0].find("Port"));
}

#[test]
fn connections_are_tried_several_times() {
    let client = SshClient::new();
    assert_eq!(client.connect_with_retry(11, 12), RetryStep::Retry);
    assert_eq!(client.connect_with_retry(12, 12), RetryStep::GiveUp);
    assert_eq!(client.control_dir("ubuntu"), "/tmp/.ssh-mux-ubuntu");
    assert_eq!(
        client.execute_command(true, "0", "out".to_string(), ""),
        Ok("out".to_string())
    );
    assert_eq!(
        client.execute_command(false, "exit status: 1", String::new(), "no"),
        Err("Command failed with status exit status: 1: no".to_string())
    );
}

#[test]
fn steps_are_shown_one_at_a_time() {
    let mut progress = StepProgress::new(8);
    assert_eq!(progress.finish_current("x", "nothing open"), None);
    assert_eq!(progress.start_step("Host profile", "+"), (None, "1/8".to_string()));
    let (closed, prefix) = progress.start_step("Directories", "+");
    assert_eq!(closed.as_deref(), Some("+ [1/8] Host profile"));
    assert_eq!(prefix, "2/8");
    assert_eq!(
        progress.finish_current("+", "ready").as_deref(),
        Some("+ [2/8] Directories — ready")
    );
}

// The start of a machine.

#[test]
fn options_are_checked_and_filled_in() {
    let plan = plan_run(RunOptions::default()).unwrap();
    assert_eq!(plan.username, "ubuntu");
    assert_eq!(plan.memory, "4G");
    assert_eq!(plan.cpus, 2);
    assert!(plan.show_steps);
    let lonely = RunOptions { kernel: Some("/k".to_string()), ..RunOptions::default() };
    assert_eq!(
        plan_run(lonely).unwrap_err(),
        "kernel and rootfs must be provided together, or neither one to use the default cloud image flow"
    );
    let custom = || RunOptions {
        kernel: Some("/k".to_string()),
        rootfs: Some("/r".to_string()),
        ..RunOptions::default()
    };
    assert!(matches!(plan_run(custom()).unwrap().boot, Boot::Custom { .. }));
    assert_eq!(
        plan_run(RunOptions { image_url: Some("u".to_string()), ..custom() }).unwrap_err(),
        "image-url must not be used with custom kernel/rootfs mode"
    );
    assert_eq!(
        plan_run(RunOptions { disk_size: Some("9G".to_string()), ..custom() }).unwrap_err(),
        "disk-size must not be used with custom kernel/rootfs mode"
    );
}

#[test]
fn directories_are_mounted_by_transport_and_mode() {
    let mount = MountSpec {
        host_path: "/h".to_string(),
        guest_path: "/mnt/x y".to_string(),
        mode: MountMode::ReadOnly,
    };
    assert_eq!(
        mount_runcmd_for_spec(0, &mount, MountTransport::VirtioFs),
        strings(&["mkdir -p '/mnt/x y'", "mount -t virtiofs -o ro 'vmizefs0' '/mnt/x y'"])
    );
    let mount = MountSpec { mode: MountMode::ReadWrite, ..mount };
    assert_eq!(
        mount_runcmd_for_spec(3, &mount, MountTransport::Virtio9p)[1],
        "mount -t 9p -o trans=virtio,version=9p2000.L 'vmizefs3' '/mnt/x y'"
    );
}

#[test]
fn waiting_ends_in_time() {
    assert!(matches!(wait_for_socket_or_exit(1, "/s", true, true, true), WaitStep::Ready));
    assert!(matches!(wait_for_socket_or_exit(1, "/s", false, true, true), WaitStep::Pause));
    match wait_for_socket_or_exit(1, "/s", false, false, true) {
        WaitStep::Fail { message } => {
            assert_eq!(message, "virtiofsd process 1 exited before creating socket /s")
        }
        other => panic!("unexpected step {other:?}"),
    }
    match wait_for_socket_or_exit(1, "/s", true, true, false) {
        WaitStep::Fail { message } => {
            assert_eq!(message, "Timed out waiting for virtiofs socket /s")
        }
        other => panic!("unexpected step {other:?}"),
    }
    assert!(matches!(wait_for_ssh_port(1, 2220, true, true, true, "30s"), WaitStep::Ready));
    assert!(matches!(wait_for_ssh_port(1, 2220, true, false, true, "30s"), WaitStep::Pause));
    match wait_for_ssh_port(1, 2220, false, true, true, "30s") {
        WaitStep::Fail { message } => assert!(message.starts_with("QEMU process 1 exited")),
        other => panic!("unexpected step {other:?}"),
    }
    match wait_for_ssh_port(1, 2220, true, false, false, "30s") {
        WaitStep::Fail { message } => assert_eq!(
            message,
            "SSH did not become reachable on 127.0.0.1:2220 within 30s; host forwarding likely failed."
        ),
        other => panic!("unexpected step {other:?}"),
    }
    assert_eq!(stop_sidecar_processes(&[false, true], true), SidecarStep::Pause);
    assert_eq!(stop_sidecar_processes(&[false, false], true), SidecarStep::AllGone);
    assert_eq!(stop_sidecar_processes(&[false, false], false), SidecarStep::KillRest);
}

#[test]
fn the_virtiofs_daemon_is_picked() {
    let some = |s: &str| Some(s.to_string());
    assert_eq!(resolve_virtiofsd_binary(some("/a"), some("/b"), true), some("/a"));
    assert_eq!(resolve_virtiofsd_binary(None, some("/b"), true), some("/b"));
    assert_eq!(
        resolve_virtiofsd_binary(None, None, true),
        some("/opt/homebrew/libexec/virtiofsd")
    );
    assert_eq!(resolve_virtiofsd_binary(None, None, false), None);
}

fn config() -> Config {
    let mut config = user_config();
    config.base_dir = "/base".to_string();
    config
}

fn begin(options: RunOptions) -> (Startup, StartAction) {
    run_vm_inner(&config(), options, "linux", "x86_64", None).unwrap()
}

/// Goes on to the point where the machine's directory exists.
fn placed(options: RunOptions, names: Vec<String>) -> (Startup, StartAction) {
    let (startup, _) = begin(options);
    let (startup, action) = startup.dirs_made(Ok(()));
    let (startup, _) = match action {
        StartAction::PrepareImage { .. } => startup.image_ready(Ok(false)),
        other => (startup, other),
    };
    let (startup, action) =
        startup.key_made(Ok(("/base/keys/vm.key".to_string(), "ssh-ed25519 AAAA".to_string())));
    assert!(matches!(action, StartAction::TakeLock { .. }));
    assert!(!startup.locked);
    let (startup, _) = startup.lock_taken(Ok(()));
    assert!(startup.locked);
    let (startup, action) = startup.names_listed(Ok(names));
    match action {
        StartAction::ReservePort { port, .. } => assert_eq!(port, 2221),
        other => panic!("unexpected request {other:?}"),
    }
    let (startup, action) = startup.port_reserved(Ok(()));
    match action {
        StartAction::MakeVmDir { dir } => assert_eq!(dir, "/base/instances/vm1"),
        other => panic!("unexpected request {other:?}"),
    }
    assert!(startup.locked);
    startup.vm_dir_made(DirOutcome::Created)
}

/// Goes on to the point where the daemons are asked for.
fn prepared(options: RunOptions) -> (Startup, StartAction) {
    let (startup, action) = placed(options, strings(&["vm0"]));
    assert!(!startup.locked);
    assert!(matches!(action, StartAction::WriteSeed { .. }));
    let (startup, _) = startup.seed_written(Ok(()));
    let (startup, action) = startup.iso_made(Ok(()));
    assert!(matches!(action, StartAction::CopyDisk { .. } | StartAction::ProbeDisk { .. }));
    startup.disk_ready(Ok(DiskFormat::Raw))
}

fn two_daemons() -> Vec<VirtioFsDaemon> {
    let mounts: Vec<MountSpec> = ["/a", "/b"]
        .iter()
        .map(|path| MountSpec {
            host_path: path.to_string(),
            guest_path: "/g".to_string(),
            mode: MountMode::ReadOnly,
        })
        .collect();
    start_virtiofs_runtime("/vm", &mounts)
}

#[test]
fn daemons_come_up_one_after_the_other() {
    let (mut start, step) = DaemonStart::begin(two_daemons(), Some("/bin/virtiofsd".to_string()));
    match step {
        DaemonStep::Start { program, args, socket_path } => {
            assert_eq!(program, "/bin/virtiofsd");
            assert_eq!(args[0..2], strings(&["--socket-path", "/vm/virtiofs-0.sock"])[..]);
            assert_eq!(args[2..4], strings(&["--shared-dir", "/a"])[..]);
            assert_eq!(socket_path, "/vm/virtiofs-0.sock");
        }
        other => panic!("unexpected step {other:?}"),
    }
    match start.started(DaemonOutcome::Up { pid: 7 }) {
        DaemonStep::Start { socket_path, .. } => assert_eq!(socket_path, "/vm/virtiofs-1.sock"),
        other => panic!("unexpected step {other:?}"),
    }
    assert!(matches!(start.started(DaemonOutcome::Up { pid: 8 }), DaemonStep::Ready));
    assert_eq!(start.runtime.pids(), vec![7, 8]);
    assert_eq!(start.runtime.shares[1].socket_path, "/vm/virtiofs-1.sock");
    assert!(matches!(DaemonStart::begin(Vec::new(), None).1, DaemonStep::Ready));
}

#[test]
fn daemons_that_came_up_are_stopped_where_a_later_one_does_not() {
    let program = || Some("/bin/virtiofsd".to_string());
    let (mut start, _) = DaemonStart::begin(two_daemons(), program());
    start.started(DaemonOutcome::Up { pid: 7 });
    match start.started(DaemonOutcome::NoSocket { message: "late".to_string() }) {
        DaemonStep::Fail { message, stop } => {
            assert_eq!(message, "late");
            assert_eq!(stop, vec![7]);
        }
        other => panic!("unexpected step {other:?}"),
    }
    let (mut start, _) = DaemonStart::begin(two_daemons(), program());
    start.started(DaemonOutcome::Up { pid: 7 });
    match start.started(DaemonOutcome::NotSpawned) {
        DaemonStep::Fail { message, stop } => {
            assert_eq!(message, "Failed to start virtiofsd for host path /b");
            assert!(stop.is_empty());
        }
        other => panic!("unexpected step {other:?}"),
    }
    match DaemonStart::begin(two_daemons(), None).1 {
        DaemonStep::Fail { message, stop } => {
            assert!(message.starts_with("virtiofsd not found"));
            assert!(stop.is_empty());
        }
        other => panic!("unexpected step {other:?}"),
    }
}

fn one_daemon() -> VirtioFsRuntime {
    VirtioFsRuntime {
        shares: vec![VirtioFsShareRuntime {
            tag: "vmizefs0".to_string(),
            socket_path: "/base/instances/vm1/virtiofs-0.sock".to_string(),
            pid: 41,
        }],
    }
}

fn with_mount() -> RunOptions {
    RunOptions {
        mounts: vec![MountSpec {
            host_path: "/h".to_string(),
            guest_path: "/g".to_string(),
            mode: MountMode::ReadOnly,
        }],
        ..RunOptions::default()
    }
}

#[test]
fn a_machine_starts_from_the_cloud_image() {
    let (startup, action) = begin(RunOptions::default());
    match action {
        StartAction::MakeDirs { dirs } => assert_eq!(
            dirs,
            strings(&["/base", "/base/images", "/base/instances", "/base/keys"])
        ),
        other => panic!("unexpected request {other:?}"),
    }
    let (_, action) = startup.dirs_made(Ok(()));
    match action {
        StartAction::PrepareImage { url, path, force } => {
            assert!(url.contains("amd64"));
            assert!(path.starts_with("/base/images/ubuntu-24.04-minimal-cloudimg"));
            assert!(!force);
        }
        other => panic!("unexpected request {other:?}"),
    }

    let (startup, action) = prepared(with_mount());
    match action {
        StartAction::StartDaemons { daemons } => {
            assert_eq!(daemons.len(), 1);
            assert_eq!(daemons[0].socket_path, "/base/instances/vm1/virtiofs-0.sock");
            assert!(daemons[0].args.contains(&"/h".to_string()));
        }
        other => panic!("unexpected request {other:?}"),
    }
    let (startup, action) = startup.daemons_started(Ok(one_daemon()));
    match action {
        StartAction::StartQemu { config } => {
            assert_eq!(config.disk_format, DiskFormat::Qcow2);
            assert_eq!(config.disk_image.as_deref(), Some("/base/instances/vm1/disk.qcow2"));
            assert_eq!(config.qemu_name.as_deref(), Some("vm1"));
            assert_eq!(config.ssh_port, Some(2221));
            assert_eq!(config.virtiofs_shares.len(), 1);
        }
        other => panic!("unexpected request {other:?}"),
    }
    let (startup, action) = startup.qemu_started(Ok(77), Ok(1000));
    assert!(matches!(action, StartAction::Settle { milliseconds: 500, pid: 77 }));
    let (startup, action) = startup.settled(true);
    assert!(matches!(action, StartAction::WriteRecord { .. }));
    let (startup, action) = startup.record_written(Ok(()));
    match action {
        StartAction::VerifySsh { port, patience } => {
            assert_eq!(port, 2221);
            assert_eq!(patience.port_seconds, 30);
            assert_eq!(patience.attempts, 12);
        }
        other => panic!("unexpected request {other:?}"),
    }
    let (mut startup, action) =
        startup.ssh_checked(SshCheck::Answered { output: "vm\n".to_string(), running: true });
    assert!(matches!(action, StartAction::Succeed));
    assert_eq!(startup.stage, StartStage::Over);
    let record = startup.record.as_ref().unwrap();
    assert_eq!(record.id, "vm1");
    assert_eq!(record.pid, Some(77));
    assert_eq!(record.sidecar_pids, vec![41]);
    assert_eq!(record.host_profile, "linux/x86_64 (q35,accel=kvm, host)");
    assert_eq!(record.created_at, 1000);

    let notices: Vec<String> = startup
        .take_news()
        .into_iter()
        .filter_map(|n| match n {
            StepNews::Finished { notice, .. } => Some(notice),
            _ => None,
        })
        .collect();
    assert_eq!(
        notices,
        strings(&[
            "Host profile — linux/x86_64 (host)",
            "Directories — ready",
            "Cloud image — cached",
            "SSH key pair — ready",
            "Cloud-init seed — created",
            "Disk image — created",
            "Starting QEMU — PID 77, port 2221",
            "SSH connected — vm",
        ])
    );
    assert!(startup.take_news().is_empty());
}

#[test]
fn a_machine_starts_from_its_own_kernel() {
    let options = RunOptions {
        kernel: Some("/k".to_string()),
        rootfs: Some("/r.img".to_string()),
        ..RunOptions::default()
    };
    let (startup, _) = prepared(options);
    let (_, action) = startup.daemons_started(Ok(VirtioFsRuntime { shares: Vec::new() }));
    match action {
        StartAction::StartQemu { config } => {
            assert_eq!(config.disk_format, DiskFormat::Raw);
            assert_eq!(config.disk_image.as_deref(), Some("/r.img"));
            assert_eq!(config.kernel_path.as_deref(), Some("/k"));
            assert_eq!(
                config.append.as_deref(),
                Some("root=/dev/vda rw rootfstype=ext4 console=ttyS0")
            );
            assert!(config.bios_path.is_none());
        }
        other => panic!("unexpected request {other:?}"),
    }
}

fn failure(action: StartAction) -> (String, Option<String>, Option<String>, Vec<Cleanup>) {
    match action {
        StartAction::Fail { failure } => {
            (failure.message, failure.cause, failure.note, failure.cleanup)
        }
        other => panic!("unexpected request {other:?}"),
    }
}

#[test]
fn a_start_fails_with_its_cause() {
    let refused =
        run_vm_inner(&config(), RunOptions::default(), "linux", "aarch64", None).unwrap_err();
    assert!(refused.message.contains("Unsupported host platform"));
    assert!(refused.show_steps);
    assert_eq!(refused.news.len(), 1);
    match &refused.news[0] {
        StepNews::Started { step, title } => assert_eq!((*step, title.as_str()), (1, "Host profile")),
        other => panic!("unexpected news {other:?}"),
    }
    let half = RunOptions { kernel: Some("/k".to_string()), ..RunOptions::default() };
    let refused = run_vm_inner(&config(), half, "linux", "aarch64", None).unwrap_err();
    assert!(refused.message.contains("kernel and rootfs must be provided together"));
    assert!(refused.news.is_empty());
    let (message, _, _, cleanup) =
        failure(begin(RunOptions::default()).0.dirs_made(Err("read-only".to_string())).1);
    assert_eq!(message, "read-only");
    assert!(cleanup.is_empty());

    let key = || Ok(("/k".to_string(), "pub".to_string()));
    let at_lock = || {
        let (startup, _) = begin(RunOptions::default()).0.dirs_made(Ok(()));
        startup.image_ready(Ok(true)).0.key_made(key()).0
    };
    let (message, cause, _, _) = failure(at_lock().lock_taken(Err("busy".to_string())).1);
    assert_eq!(message, "Failed to acquire VM creation lock");
    assert_eq!(cause.as_deref(), Some("busy"));
    let full: Vec<String> = (0..10).map(|i| format!("vm{i}")).collect();
    let (startup, action) = at_lock().lock_taken(Ok(())).0.names_listed(Ok(full));
    let (message, cause, _, _) = failure(action);
    assert_eq!(message, "Failed to validate VM capacity");
    assert!(cause.unwrap().contains("Maximum VM limit (10) reached"));
    assert!(!startup.locked, "the lock goes with the startup");
    let reserved = at_lock().lock_taken(Ok(())).0.names_listed(Ok(Vec::new())).0;
    let (message, cause, _, _) = failure(reserved.port_reserved(Err("taken".to_string())).1);
    assert_eq!(message, "Failed to reserve SSH port for VM");
    assert_eq!(cause.as_deref(), Some("taken"));
    let at_dir = at_lock().lock_taken(Ok(())).0.names_listed(Ok(Vec::new())).0;
    let (message, _, _, _) =
        failure(at_dir.port_reserved(Ok(())).0.vm_dir_made(DirOutcome::AlreadyExists).1);
    assert_eq!(
        message,
        "VM directory /base/instances/vm0 already exists - this should not happen with sequential IDs"
    );
}

#[test]
fn a_failed_start_leaves_nothing_behind() {
    let (startup, _) = prepared(with_mount());
    let (message, _, _, cleanup) =
        failure(startup.daemons_started(Err("no virtiofsd".to_string())).1);
    assert_eq!(message, "no virtiofsd");
    assert!(matches!(&cleanup[..], [Cleanup::RemoveDir { dir }] if dir == "/base/instances/vm1"));

    let at_qemu = || prepared(with_mount()).0.daemons_started(Ok(one_daemon())).0;
    let (message, _, note, cleanup) =
        failure(at_qemu().qemu_started(Err("no kvm".to_string()), Ok(0)).1);
    assert_eq!(message, "no kvm");
    assert_eq!(note.as_deref(), Some("no kvm"));
    assert!(matches!(&cleanup[..], [Cleanup::StopSidecars { pids }] if pids == &vec![41]));

    let at_settle = || at_qemu().qemu_started(Ok(77), Ok(0)).0;
    let (message, _, note, cleanup) = failure(at_settle().settled(false).1);
    assert_eq!(
        message,
        "QEMU failed to stay running after startup. Use --verbose for startup output."
    );
    assert_eq!(note.as_deref(), Some("process exited"));
    assert_eq!(cleanup.len(), 3);
    assert!(matches!(cleanup[0], Cleanup::StopQemu { pid: 77, seconds: 3 }));

    let at_ssh = || at_settle().settled(true).0.record_written(Ok(())).0;
    let checks = vec![
        (
            SshCheck::PortUnreachable { cause: "refused".to_string() },
            "QEMU failed to become reachable over forwarded SSH",
            "port unreachable",
        ),
        (
            SshCheck::NotConnected { cause: "refused".to_string() },
            "Failed to connect to VM via SSH",
            "connection failed",
        ),
        (
            SshCheck::HostnameFailed { cause: "refused".to_string() },
            "Failed to verify VM startup",
            "hostname check failed",
        ),
        (
            SshCheck::Answered { output: "vm".to_string(), running: false },
            "VM process is not running after startup",
            "process not running",
        ),
    ];
    for (check, expected, shown) in checks {
        let (message, _, note, cleanup) = failure(at_ssh().ssh_checked(check).1);
        assert_eq!(message, expected);
        assert_eq!(note.as_deref(), Some(shown));
        assert!(matches!(cleanup[0], Cleanup::StopQemu { pid: 77, seconds: 5 }));
        assert!(matches!(&cleanup[1], Cleanup::StopSidecars { pids } if pids == &vec![41]));
        assert!(matches!(&cleanup[2], Cleanup::RemoveDir { dir } if dir == "/base/instances/vm1"));
    }
}
