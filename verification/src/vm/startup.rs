//! The start of a machine, one request to the host at a time.
//!
//! A `Startup` says what to ask of the host next. What the host answers goes into the method for
//! that answer, which gives the startup as it goes on and the next request. A request that ends
//! the startup says whether the machine runs, and if it does not, what has to be undone.

use vstd::prelude::*;

use crate::path;
use crate::text;
use crate::vm::config::Config;
use crate::vm::image::downloader;
use crate::vm::launch;
use crate::vm::launch::{
    dir_created, host_detail, plan_run, qemu_failed, ssh_patience, step_notice, step_title,
    verify_ssh_connection, virtiofs_failed, Boot, DirOutcome, DiskSource, ImageSource, Launch,
    LaunchFailure, RunOptions, SeedPlan, Slot, SshCheck, SshPatience, VirtioFsDaemon,
    VirtioFsRuntime,
};
use crate::vm::platform;
use crate::vm::platform::HostProfile;
use crate::vm::port;
use crate::vm::qemu::config::{DiskFormat, QemuConfig};
use crate::vm::record;
use crate::vm::record::VmRecord;

verus! {

/// Which answer of the host is waited for.
#[derive(Debug, Clone, Copy, PartialEq, Eq, Structural)]
pub enum StartStage {
    Dirs,
    Image,
    Key,
    Lock,
    Names,
    Port,
    VmDir,
    Seed,
    Iso,
    Disk,
    Daemons,
    Qemu,
    Settle,
    Record,
    Ssh,
    Over,
}

impl StartStage {
    /// How far a startup has come that waits for this answer.
    pub open spec fn rank(self) -> nat {
        match self {
            StartStage::Dirs => 0,
            StartStage::Image => 1,
            StartStage::Key => 2,
            StartStage::Lock => 3,
            StartStage::Names => 4,
            StartStage::Port => 5,
            StartStage::VmDir => 6,
            StartStage::Seed => 7,
            StartStage::Iso => 8,
            StartStage::Disk => 9,
            StartStage::Daemons => 10,
            StartStage::Qemu => 11,
            StartStage::Settle => 12,
            StartStage::Record => 13,
            StartStage::Ssh => 14,
            StartStage::Over => 15,
        }
    }
}

/// What to ask of the host.
#[derive(Debug)]
pub enum StartAction {
    /// Create these directories, in order, where they are missing.
    MakeDirs { dirs: Vec<String> },
    /// See to it that the image at `url` is at `path`.
    PrepareImage { url: String, path: String, force: bool },
    /// Create or reuse the key of this name.
    MakeKey { keys_dir: String, name: String },
    /// Take the lock under which machines get their places.
    TakeLock { instances_dir: String },
    /// List the names of the existing instance directories.
    ListNames { instances_dir: String },
    /// Reserve this port until the startup is over.
    ReservePort { instances_dir: String, port: u16 },
    /// Create the machine's directory, which must not exist.
    MakeVmDir { dir: String },
    /// Write the seed's two files.
    WriteSeed { plan: SeedPlan },
    /// Make the seed's image from its two files.
    MakeIso { metadata_path: String, userdata_path: String, iso_path: String },
    /// Copy the image, and give the copy its size.
    CopyDisk { src: String, dest: String, size: Option<String> },
    /// Look up the format of the disk.
    ProbeDisk { path: String },
    /// Start these daemons, in order.
    StartDaemons { daemons: Vec<VirtioFsDaemon> },
    StartQemu { config: QemuConfig },
    /// Wait for this long, and see whether the machine's process still runs.
    Settle { milliseconds: u64, pid: u32 },
    /// Write the startup's record.
    WriteRecord { instances_dir: String },
    /// Connect to the machine for the first time.
    VerifySsh { port: u16, patience: SshPatience },
    /// The machine runs, as the startup's record says.
    Succeed,
    Fail { failure: LaunchFailure },
}

/// What the user sees of the start.
#[derive(Debug)]
pub enum StepNews {
    /// A step was started.
    Started { step: u8, title: String },
    /// A step is done: what its line shows, and what listeners are told.
    Finished { step: u8, detail: String, notice: String },
}

/// What a `StepNews` says.
pub enum News {
    Started { step: u8, title: Seq<char> },
    Finished { step: u8, detail: Seq<char>, notice: Seq<char> },
}

impl View for StepNews {
    type V = News;

    open spec fn view(&self) -> News {
        match *self {
            StepNews::Started { step, title } => News::Started { step, title: title@ },
            StepNews::Finished { step, detail, notice } => News::Finished {
                step,
                detail: detail@,
                notice: notice@,
            },
        }
    }
}

/// What several pieces of news say.
pub open spec fn said(news: Seq<StepNews>) -> Seq<News> {
    news.map_values(|n: StepNews| n@)
}

/// The news of a step that was started.
pub open spec fn begins(step: u8) -> News {
    News::Started { step, title: launch::step_name(step) }
}

/// The news of a step that is done, with the same detail for all.
pub open spec fn ends(step: u8, detail: Seq<char>) -> News {
    News::Finished { step, detail, notice: launch::step_name(step) + " — "@ + detail }
}

/// The start of a machine.
#[derive(Debug)]
pub struct Startup {
    pub stage: StartStage,
    pub launch: Launch,
    pub base_dir: String,
    /// What has been said so far.
    pub news: Vec<StepNews>,
    /// Whether the lock under which machines get their places is held. It is to be released as
    /// soon as this is no longer so.
    pub locked: bool,
    pub image_path: Option<String>,
    pub private_key_path: Option<String>,
    pub public_key: Option<String>,
    pub slot: Option<Slot>,
    pub iso_path: Option<String>,
    pub disk_path: Option<String>,
    pub disk_format: DiskFormat,
    pub runtime: VirtioFsRuntime,
    pub pid: Option<u32>,
    pub record: Option<VmRecord>,
}

/// What a machine's directories are, in the order in which they are created.
pub open spec fn layout(base_dir: Seq<char>) -> Seq<Seq<char>> {
    seq![
        base_dir,
        path::joined(base_dir, "images"@),
        path::joined(base_dir, "instances"@),
        path::joined(base_dir, "keys"@),
    ]
}

/// A failure that leaves nothing to be undone.
pub open spec fn plain_failure(action: StartAction, message: Seq<char>, cause: Option<Seq<char>>) -> bool {
    action matches StartAction::Fail { failure } && failure.message@ == message && text::opt_view(
        failure.cause,
    ) == cause && failure.note is None && failure.cleanup@.len() == 0
}

/// The request for a machine's key.
pub open spec fn asks_for_key(action: StartAction, keys_dir: Seq<char>) -> bool {
    action matches StartAction::MakeKey { keys_dir: dir, name } && dir@ == keys_dir && name@
        == launch::guest_hostname()
}

impl Startup {
    /// The startup knows what its stage needs, and holds the lock exactly while the machine gets
    /// its place.
    pub open spec fn wf(self) -> bool {
        let rank = self.stage.rank();
        &&& self.launch.instances_dir@ == path::joined(self.base_dir@, "instances"@)
        &&& self.launch.images_dir@ == path::joined(self.base_dir@, "images"@)
        &&& self.launch.keys_dir@ == path::joined(self.base_dir@, "keys"@)
        &&& self.locked == (4 <= rank <= 6)
        &&& 1 <= rank <= 14 ==> self.image_path is Some
        &&& 3 <= rank <= 14 ==> self.private_key_path is Some && self.public_key is Some
        &&& 5 <= rank <= 14 ==> self.slot is Some
        &&& 7 <= rank <= 14 ==> self.iso_path is Some
        &&& 9 <= rank <= 14 ==> self.disk_path is Some
        &&& 12 <= rank <= 14 ==> self.pid is Some && self.record is Some
        &&& self.stage is Image ==> self.launch.plan.boot is Cloud
    }

    /// Whether `action` is what the startup asks of the host at its stage.
    pub open spec fn asks(self, action: StartAction) -> bool {
        let slot = self.slot->0;
        let instances = self.launch.instances_dir@;
        match self.stage {
            StartStage::Dirs => action matches StartAction::MakeDirs { dirs } && text::views(dirs@)
                == layout(self.base_dir@),
            StartStage::Image => action matches StartAction::PrepareImage { url, path, force }
                && launch::is_source(ImageSource::Cloud { url, path, force }, self.launch) && path@
                == self.image_path->0@,
            StartStage::Key => asks_for_key(action, self.launch.keys_dir@),
            StartStage::Lock => action matches StartAction::TakeLock { instances_dir }
                && instances_dir@ == instances,
            StartStage::Names => action matches StartAction::ListNames { instances_dir }
                && instances_dir@ == instances,
            StartStage::Port => action matches StartAction::ReservePort { instances_dir, port }
                && instances_dir@ == instances && port == slot.ssh_port,
            StartStage::VmDir => action matches StartAction::MakeVmDir { dir } && dir@
                == slot.vm_dir@,
            StartStage::Seed => action matches StartAction::WriteSeed { plan } && launch::seeds(
                plan,
                self.launch,
                slot,
                self.public_key->0@,
            ) && plan.iso_path@ == self.iso_path->0@,
            StartStage::Iso => action matches StartAction::MakeIso {
                metadata_path,
                userdata_path,
                iso_path,
            } && metadata_path@ == path::joined(slot.vm_dir@, "meta-data"@) && userdata_path@
                == path::joined(slot.vm_dir@, "user-data"@) && iso_path@ == self.iso_path->0@,
            StartStage::Disk => match action {
                StartAction::ProbeDisk { path } => launch::is_disk(
                    DiskSource::UseImage { path },
                    self.launch,
                    slot,
                    self.image_path->0@,
                ) && path@ == self.disk_path->0@,
                StartAction::CopyDisk { src, dest, size } => launch::is_disk(
                    DiskSource::Copy { src, dest, size },
                    self.launch,
                    slot,
                    self.image_path->0@,
                ) && dest@ == self.disk_path->0@,
                _ => false,
            },
            StartStage::Daemons => action matches StartAction::StartDaemons { daemons }
                && launch::all_serve(daemons@, self.launch, slot),
            StartStage::Qemu => action matches StartAction::StartQemu { config }
                && launch::base_config(
                config,
                self.launch,
                slot,
                self.disk_path->0@,
                self.disk_format,
                self.iso_path->0@,
            ) && launch::boot_config(config, self.launch.plan.boot, self.launch.host)
                && launch::share_config(config, self.launch, self.runtime.shares@),
            StartStage::Settle => action == (StartAction::Settle {
                milliseconds: 500,
                pid: self.pid->0,
            }),
            StartStage::Record => action matches StartAction::WriteRecord { instances_dir }
                && instances_dir@ == instances,
            StartStage::Ssh => action == (StartAction::VerifySsh {
                port: slot.ssh_port,
                patience: launch::patience_with(self.launch.host),
            }),
            StartStage::Over => action is Succeed || action is Fail,
        }
    }

    /// Whether a failure that comes of the answer to this stage undoes what has been done so far.
    pub open spec fn undoes(self, action: StartAction) -> bool {
        action matches StartAction::Fail { failure } ==> match self.stage {
            StartStage::Daemons => if self.launch.plan.boot is Custom
                && launch::kernel_command_line(self.launch.host.arch@) is None {
                failure.cleanup@.len() == 0 || launch::removes_dir(
                    failure.cleanup@,
                    self.slot->0.vm_dir@,
                )
            } else {
                launch::removes_dir(failure.cleanup@, self.slot->0.vm_dir@)
            },
            StartStage::Qemu => {
                ||| launch::stops_sidecars(
                    failure.cleanup@,
                    launch::share_pids(self.runtime.shares@),
                )
                ||| failure.cleanup@.len() == 0 && failure.message@
                    == "Failed to determine creation time"@
            },
            StartStage::Settle => launch::removes_machine(
                failure.cleanup@,
                self.pid->0,
                3,
                self.record->0.sidecar_pids@,
                self.slot->0.vm_dir@,
            ),
            StartStage::Ssh => launch::removes_machine(
                failure.cleanup@,
                self.pid->0,
                5,
                self.record->0.sidecar_pids@,
                self.slot->0.vm_dir@,
            ),
            _ => failure.cleanup@.len() == 0,
        }
    }

    /// The startup once it is over, with no news.
    pub open spec fn over(self) -> Startup {
        Startup { stage: StartStage::Over, locked: false, ..self }
    }
}

fn fail(startup: Startup, message: String, cause: Option<String>) -> (r: (Startup, StartAction))
    requires
        startup.wf(),
    ensures
        r.0 == startup.over(),
        r.0.wf(),
        r.0.asks(r.1),
        plain_failure(r.1, message@, text::opt_view(cause)),
{
    let mut s = startup;
    s.stage = StartStage::Over;
    s.locked = false;
    (
        s,
        StartAction::Fail {
            failure: LaunchFailure { message, cause, note: None, cleanup: Vec::new() },
        },
    )
}

fn end(startup: Startup, failure: LaunchFailure) -> (r: (Startup, StartAction))
    requires
        startup.wf(),
    ensures
        r.0 == startup.over(),
        r.0.wf(),
        r.0.asks(r.1),
        r.1 == (StartAction::Fail { failure }),
{
    let mut s = startup;
    s.stage = StartStage::Over;
    s.locked = false;
    (s, StartAction::Fail { failure })
}

fn say_started(news: &mut Vec<StepNews>, step: u8)
    ensures
        said(final(news)@) == said(old(news)@).push(begins(step)),
{
    let ghost before = news@;
    let item = StepNews::Started { step, title: step_title(step).to_owned() };
    news.push(item);
    assert(said(news@) =~= said(before).push(item@));
}

fn say_finished(news: &mut Vec<StepNews>, step: u8, detail: &str)
    ensures
        said(final(news)@) == said(old(news)@).push(ends(step, detail@)),
{
    let ghost before = news@;
    let item = StepNews::Finished {
        step,
        detail: detail.to_owned(),
        notice: step_notice(step, detail),
    };
    news.push(item);
    assert(said(news@) =~= said(before).push(item@));
}

/// What is said about the directories once they are there.
pub open spec fn dirs_ready(base_dir: Seq<char>) -> News {
    News::Finished {
        step: 2,
        detail: "ready ("@ + base_dir + ")"@,
        notice: launch::step_name(2) + " — "@ + "ready"@,
    }
}

/// The detail that is shown for a host.
pub open spec fn host_shown(host: HostProfile) -> Seq<char> {
    host.os@ + "/"@ + host.arch@ + " ("@ + host.cpu_type@ + ")"@
}

/// Why a start does not begin, with what has been said until then.
#[derive(Debug)]
pub struct StartRefusal {
    pub message: String,
    pub news: Vec<StepNews>,
    /// Whether the news is shown on the terminal.
    pub show_steps: bool,
}

/// Begins the start of a machine on a host with the given system, processor and accelerator.
pub fn run_vm_inner(
    config: &Config,
    options: RunOptions,
    os: &str,
    arch: &str,
    accel_override: Option<&str>,
) -> (r: Result<(Startup, StartAction), StartRefusal>)
    ensures
        match r {
            Ok((s, action)) => {
                &&& launch::options_fault(options) is None
                &&& platform::supported(os@, arch@)
                &&& launch::plans(s.launch.plan, options)
                &&& platform::detected(
                    s.launch.host,
                    os@,
                    arch@,
                    text::opt_str_view(accel_override),
                )
                &&& s.wf()
                &&& s.asks(action)
                &&& s.stage is Dirs
                &&& s.base_dir@ == config.base_dir@
                &&& said(s.news@) == seq![begins(1), ends(1, host_shown(s.launch.host)), begins(2)]
                &&& s.runtime.shares@.len() == 0
                &&& action matches StartAction::MakeDirs { dirs } && text::views(dirs@) == layout(
                    config.base_dir@,
                )
            },
            Err(refusal) => match launch::options_fault(options) {
                Some(fault) => refusal.message@ == fault && refusal.news@.len() == 0,
                None => {
                    &&& !platform::supported(os@, arch@)
                    &&& refusal.message@ == platform::unsupported(os@, arch@)
                    &&& said(refusal.news@) == seq![begins(1)]
                    &&& refusal.show_steps == (!options.verbose && options.show_progress)
                },
            },
        },
{
    let plan = match plan_run(options) {
        Ok(plan) => plan,
        Err(message) => return Err(
            StartRefusal { message, news: Vec::new(), show_steps: false },
        ),
    };
    let mut news: Vec<StepNews> = Vec::new();
    assert(said(news@) =~= Seq::empty());
    say_started(&mut news, 1);
    let host = match HostProfile::detect(os, arch, accel_override) {
        Ok(host) => host,
        Err(message) => {
            assert(said(news@) =~= seq![begins(1)]);
            return Err(StartRefusal { message, news, show_steps: plan.show_steps });
        },
    };
    let detail = host_detail(&host);
    say_finished(&mut news, 1, detail.as_str());
    say_started(&mut news, 2);
    let launch = Launch::new(plan, host, config);
    let mut dirs: Vec<String> = Vec::new();
    dirs.push(config.base_dir.clone());
    dirs.push(config.images_dir());
    dirs.push(config.instances_dir());
    dirs.push(config.keys_dir());
    proof {
        assert(text::views(dirs@) =~= layout(config.base_dir@));
        assert(said(news@) =~= seq![begins(1), ends(1, host_shown(launch.host)), begins(2)]);
    }
    let s = Startup {
        stage: StartStage::Dirs,
        launch,
        base_dir: config.base_dir.clone(),
        news,
        locked: false,
        image_path: None,
        private_key_path: None,
        public_key: None,
        slot: None,
        iso_path: None,
        disk_path: None,
        disk_format: DiskFormat::Qcow2,
        runtime: VirtioFsRuntime { shares: Vec::new() },
        pid: None,
        record: None,
    };
    Ok((s, StartAction::MakeDirs { dirs }))
}

impl Startup {
    /// Hands out the news since this was last done.
    pub fn take_news(&mut self) -> (r: Vec<StepNews>)
        ensures
            r@ == old(self).news@,
            final(self).news@.len() == 0,
            *final(self) == (Startup { news: final(self).news, ..*old(self) }),
    {
        let mut out: Vec<StepNews> = Vec::new();
        out.append(&mut self.news);
        out
    }

    fn ask_for_key(self, image_path: String) -> (r: (Startup, StartAction))
        requires
            self.wf(),
            self.stage is Dirs || self.stage is Image,
        ensures
            r.0.wf(),
            r.0.asks(r.1),
            r.0 == (Startup {
                stage: StartStage::Key,
                image_path: Some(image_path),
                news: r.0.news,
                ..self
            }),
            said(r.0.news@) == said(self.news@).push(begins(4)),
            asks_for_key(r.1, self.launch.keys_dir@),
    {
        let mut s = self;
        s.stage = StartStage::Key;
        s.image_path = Some(image_path);
        say_started(&mut s.news, 4);
        let keys_dir = s.launch.keys_dir.clone();
        (s, StartAction::MakeKey { keys_dir, name: "vm".to_owned() })
    }

    /// Goes on once the directories are there. A machine with a root file system of its own needs
    /// no image.
    pub fn dirs_made(self, done: Result<(), String>) -> (r: (Startup, StartAction))
        requires
            self.wf(),
            self.stage is Dirs,
        ensures
            r.0.wf(),
            self.undoes(r.1),
            r.0.asks(r.1),
            match done {
                Err(message) => r.0 == self.over() && plain_failure(r.1, message@, None),
                Ok(_) => match self.launch.plan.boot {
                    Boot::Custom { rootfs, .. } => {
                        &&& r.0.stage is Key
                        &&& text::opt_view(r.0.image_path) == Some(rootfs@)
                        &&& r.0 == (Startup {
                            stage: StartStage::Key,
                            image_path: r.0.image_path,
                            news: r.0.news,
                            ..self
                        })
                        &&& said(r.0.news@) == said(self.news@) + seq![
                            dirs_ready(self.base_dir@),
                            begins(3),
                            ends(3, "ready"@),
                            begins(4),
                        ]
                        &&& asks_for_key(r.1, self.launch.keys_dir@)
                    },
                    Boot::Cloud { image_url, force_download, .. } => {
                        let url = launch::text_or(image_url, self.launch.host.image_url@);
                        let path = path::joined(
                            self.launch.images_dir@,
                            downloader::url_file_name(url),
                        );
                        &&& r.0.stage is Image
                        &&& text::opt_view(r.0.image_path) == Some(path)
                        &&& r.0 == (Startup {
                            stage: StartStage::Image,
                            image_path: r.0.image_path,
                            news: r.0.news,
                            ..self
                        })
                        &&& said(r.0.news@) == said(self.news@) + seq![
                            dirs_ready(self.base_dir@),
                            begins(3),
                        ]
                        &&& r.1 matches StartAction::PrepareImage { url: u, path: p, force } && u@
                            == url && p@ == path && force == force_download
                    },
                },
            },
    {
        if let Err(message) = done {
            return fail(self, message, None);
        }
        let mut s = self;
        let ghost first = s.news@;
        let item = StepNews::Finished {
            step: 2,
            detail: text::cat3("ready (", s.base_dir.as_str(), ")"),
            notice: step_notice(2, "ready"),
        };
        s.news.push(item);
        proof {
            assert(said(s.news@) =~= said(first).push(dirs_ready(self.base_dir@)));
        }
        say_started(&mut s.news, 3);
        match s.launch.image_source() {
            ImageSource::Rootfs { path } => {
                say_finished(&mut s.news, 3, "ready");
                let r = s.ask_for_key(path);
                proof {
                    assert(said(r.0.news@) =~= said(self.news@) + seq![
                        dirs_ready(self.base_dir@),
                        begins(3),
                        ends(3, "ready"@),
                        begins(4),
                    ]);
                }
                r
            },
            ImageSource::Cloud { url, path, force } => {
                s.stage = StartStage::Image;
                s.image_path = Some(path.clone());
                proof {
                    assert(said(s.news@) =~= said(self.news@) + seq![
                        dirs_ready(self.base_dir@),
                        begins(3),
                    ]);
                }
                (s, StartAction::PrepareImage { url, path, force })
            },
        }
    }

    /// Goes on once the image is there. The answer says whether it had to be downloaded.
    pub fn image_ready(self, downloaded: Result<bool, String>) -> (r: (Startup, StartAction))
        requires
            self.wf(),
            self.stage is Image,
        ensures
            r.0.wf(),
            self.undoes(r.1),
            r.0.asks(r.1),
            downloaded matches Ok(fresh) ==> said(r.0.news@) == said(self.news@) + seq![
                ends(3, image_detail(fresh)),
                begins(4),
            ],
            match downloaded {
                Err(message) => r.0 == self.over() && plain_failure(r.1, message@, None),
                Ok(fresh) => {
                    &&& r.0 == (Startup {
                        stage: StartStage::Key,
                        news: r.0.news,
                        image_path: self.image_path,
                        ..self
                    })
                    &&& said(r.0.news@) == said(self.news@) + seq![
                        ends(
                            3,
                            if fresh {
                                "downloaded"@
                            } else {
                                "cached"@
                            },
                        ),
                        begins(4),
                    ]
                    &&& asks_for_key(r.1, self.launch.keys_dir@)
                },
            },
    {
        let fresh = match downloaded {
            Err(message) => return fail(self, message, None),
            Ok(fresh) => fresh,
        };
        let mut s = self;
        say_finished(
            &mut s.news,
            3,
            if fresh {
                "downloaded"
            } else {
                "cached"
            },
        );
        s.stage = StartStage::Key;
        say_started(&mut s.news, 4);
        let keys_dir = s.launch.keys_dir.clone();
        (s, StartAction::MakeKey { keys_dir, name: "vm".to_owned() })
    }

    /// Goes on once the key is there, with the path of its private half and its public half.
    pub fn key_made(self, key: Result<(String, String), String>) -> (r: (Startup, StartAction))
        requires
            self.wf(),
            self.stage is Key,
        ensures
            r.0.wf(),
            self.undoes(r.1),
            r.0.asks(r.1),
            match key {
                Err(message) => r.0 == self.over() && plain_failure(r.1, message@, None),
                Ok((private_key_path, public_key)) => {
                    &&& r.0 == (Startup {
                        stage: StartStage::Lock,
                        private_key_path: Some(private_key_path),
                        public_key: Some(public_key),
                        news: r.0.news,
                        ..self
                    })
                    &&& said(r.0.news@) == said(self.news@).push(ends(4, "ready"@))
                    &&& r.1 matches StartAction::TakeLock { instances_dir } && instances_dir@
                        == self.launch.instances_dir@
                },
            },
    {
        let (private_key_path, public_key) = match key {
            Err(message) => return fail(self, message, None),
            Ok(pair) => pair,
        };
        let mut s = self;
        s.stage = StartStage::Lock;
        s.private_key_path = Some(private_key_path);
        s.public_key = Some(public_key);
        say_finished(&mut s.news, 4, "ready");
        let instances_dir = s.launch.instances_dir.clone();
        (s, StartAction::TakeLock { instances_dir })
    }

    /// Goes on once the lock is held.
    pub fn lock_taken(self, taken: Result<(), String>) -> (r: (Startup, StartAction))
        requires
            self.wf(),
            self.stage is Lock,
        ensures
            r.0.wf(),
            self.undoes(r.1),
            r.0.asks(r.1),
            match taken {
                Err(cause) => r.0 == self.over() && plain_failure(
                    r.1,
                    "Failed to acquire VM creation lock"@,
                    Some(cause@),
                ),
                Ok(_) => {
                    &&& r.0 == (Startup { stage: StartStage::Names, locked: true, ..self })
                    &&& r.1 matches StartAction::ListNames { instances_dir } && instances_dir@
                        == self.launch.instances_dir@
                },
            },
    {
        if let Err(cause) = taken {
            return fail(self, "Failed to acquire VM creation lock".to_owned(), Some(cause));
        }
        let mut s = self;
        s.stage = StartStage::Names;
        s.locked = true;
        let instances_dir = s.launch.instances_dir.clone();
        (s, StartAction::ListNames { instances_dir })
    }

    /// Goes on once the names of the existing machines are known: the machine gets its name and
    /// its port, if there is room for it.
    pub fn names_listed(self, names: Result<Vec<String>, String>) -> (r: (Startup, StartAction))
        requires
            self.wf(),
            self.stage is Names,
            names matches Ok(list) ==> record::max_index(text::views(list@)) != Some(
                u32::MAX as nat,
            ),
        ensures
            r.0.wf(),
            self.undoes(r.1),
            r.0.asks(r.1),
            match names {
                Err(cause) => r.0 == self.over() && plain_failure(
                    r.1,
                    "Failed to validate VM capacity"@,
                    Some(cause@),
                ),
                Ok(list) => {
                    let index = record::next_index(text::views(list@));
                    if index >= port::MAX_VMS {
                        r.0 == self.over() && plain_failure(
                            r.1,
                            "Failed to validate VM capacity"@,
                            Some(port::capacity_message()),
                        )
                    } else {
                        &&& r.0 == (Startup { stage: StartStage::Port, slot: r.0.slot, ..self })
                        &&& r.0.slot is Some
                        &&& launch::slot_at(r.0.slot->0, self.launch.instances_dir@, index)
                        &&& r.1 matches StartAction::ReservePort { instances_dir, port }
                            && instances_dir@ == self.launch.instances_dir@ && port
                            == r.0.slot->0.ssh_port
                    }
                },
            },
    {
        let names = match names {
            Err(cause) => return fail(
                self,
                "Failed to validate VM capacity".to_owned(),
                Some(cause),
            ),
            Ok(names) => names,
        };
        let slot = match self.launch.allocate(&names) {
            Err(cause) => return fail(
                self,
                "Failed to validate VM capacity".to_owned(),
                Some(cause),
            ),
            Ok(slot) => slot,
        };
        let mut s = self;
        s.stage = StartStage::Port;
        let port: u16 = slot.ssh_port;
        s.slot = Some(slot);
        let instances_dir = s.launch.instances_dir.clone();
        (s, StartAction::ReservePort { instances_dir, port })
    }

    /// Goes on once the port is reserved.
    pub fn port_reserved(self, reserved: Result<(), String>) -> (r: (Startup, StartAction))
        requires
            self.wf(),
            self.stage is Port,
        ensures
            r.0.wf(),
            self.undoes(r.1),
            r.0.asks(r.1),
            match reserved {
                Err(cause) => r.0 == self.over() && plain_failure(
                    r.1,
                    "Failed to reserve SSH port for VM"@,
                    Some(cause@),
                ),
                Ok(_) => {
                    &&& r.0 == (Startup { stage: StartStage::VmDir, ..self })
                    &&& r.1 matches StartAction::MakeVmDir { dir } && dir@ == self.slot->0.vm_dir@
                },
            },
    {
        if let Err(cause) = reserved {
            return fail(self, "Failed to reserve SSH port for VM".to_owned(), Some(cause));
        }
        let mut s = self;
        s.stage = StartStage::VmDir;
        let dir = match &s.slot {
            Some(slot) => slot.vm_dir.clone(),
            None => String::new(),
        };
        (s, StartAction::MakeVmDir { dir })
    }

    /// Goes on once the machine has its directory: the lock is released.
    pub fn vm_dir_made(self, outcome: DirOutcome) -> (r: (Startup, StartAction))
        requires
            self.wf(),
            self.stage is VmDir,
        ensures
            r.0.wf(),
            self.undoes(r.1),
            r.0.asks(r.1),
            !r.0.locked,
            match outcome {
                DirOutcome::AlreadyExists => r.0 == self.over() && plain_failure(
                    r.1,
                    "VM directory "@ + self.slot->0.vm_dir@
                        + " already exists - this should not happen with sequential IDs"@,
                    None,
                ),
                DirOutcome::Failed { reason } => r.0 == self.over() && plain_failure(
                    r.1,
                    "Failed to create VM directory "@ + self.slot->0.vm_dir@ + ": "@ + reason@,
                    None,
                ),
                DirOutcome::Created => {
                    &&& r.0 == (Startup {
                        stage: StartStage::Seed,
                        locked: false,
                        news: r.0.news,
                        iso_path: r.0.iso_path,
                        ..self
                    })
                    &&& said(r.0.news@) == said(self.news@).push(begins(5))
                    &&& r.1 matches StartAction::WriteSeed { plan } && launch::seeds(
                        plan,
                        self.launch,
                        self.slot->0,
                        self.public_key->0@,
                    ) && text::opt_view(r.0.iso_path) == Some(plan.iso_path@)
                },
            },
    {
        let dir = match &self.slot {
            Some(slot) => slot.vm_dir.clone(),
            None => String::new(),
        };
        if let Err(message) = dir_created(dir.as_str(), &outcome) {
            return fail(self, message, None);
        }
        let mut s = self;
        s.stage = StartStage::Seed;
        s.locked = false;
        say_started(&mut s.news, 5);
        let public_key = match &s.public_key {
            Some(key) => key.clone(),
            None => String::new(),
        };
        match &s.slot {
            Some(slot) => {
                let plan = s.launch.seed(slot, public_key);
                s.iso_path = Some(plan.iso_path.clone());
                (s, StartAction::WriteSeed { plan })
            },
            None => fail(s, String::new(), None),
        }
    }

    /// Goes on once the seed's files are written.
    pub fn seed_written(self, written: Result<(), String>) -> (r: (Startup, StartAction))
        requires
            self.wf(),
            self.stage is Seed,
        ensures
            r.0.wf(),
            self.undoes(r.1),
            r.0.asks(r.1),
            match written {
                Err(message) => r.0 == self.over() && plain_failure(r.1, message@, None),
                Ok(_) => {
                    &&& r.0 == (Startup { stage: StartStage::Iso, ..self })
                    &&& r.1 matches StartAction::MakeIso { metadata_path, userdata_path, iso_path }
                        && metadata_path@ == path::joined(self.slot->0.vm_dir@, "meta-data"@)
                        && userdata_path@ == path::joined(self.slot->0.vm_dir@, "user-data"@)
                        && iso_path@ == self.iso_path->0@
                },
            },
    {
        if let Err(message) = written {
            return fail(self, message, None);
        }
        let mut s = self;
        s.stage = StartStage::Iso;
        let dir = match &s.slot {
            Some(slot) => slot.vm_dir.clone(),
            None => String::new(),
        };
        let iso_path = match &s.iso_path {
            Some(path) => path.clone(),
            None => String::new(),
        };
        let metadata_path = path::join(dir.as_str(), "meta-data");
        let userdata_path = path::join(dir.as_str(), "user-data");
        (s, StartAction::MakeIso { metadata_path, userdata_path, iso_path })
    }

    /// Goes on once the seed's image is made.
    pub fn iso_made(self, made: Result<(), String>) -> (r: (Startup, StartAction))
        requires
            self.wf(),
            self.stage is Iso,
        ensures
            r.0.wf(),
            self.undoes(r.1),
            r.0.asks(r.1),
            match made {
                Err(message) => r.0 == self.over() && plain_failure(r.1, message@, None),
                Ok(_) => {
                    &&& r.0 == (Startup {
                        stage: StartStage::Disk,
                        news: r.0.news,
                        disk_path: r.0.disk_path,
                        ..self
                    })
                    &&& said(r.0.news@) == said(self.news@) + seq![ends(5, "created"@), begins(6)]
                    &&& match self.launch.plan.boot {
                        Boot::Custom { .. } => {
                            &&& r.1 matches StartAction::ProbeDisk { path } && path@
                                == self.image_path->0@
                            &&& text::opt_view(r.0.disk_path) == Some(self.image_path->0@)
                        },
                        Boot::Cloud { disk_size, .. } => {
                            let disk = path::joined(self.slot->0.vm_dir@, "disk.qcow2"@);
                            &&& r.1 matches StartAction::CopyDisk { src, dest, size } && src@
                                == self.image_path->0@ && dest@ == disk && text::opt_view(size)
                                == text::opt_view(disk_size)
                            &&& text::opt_view(r.0.disk_path) == Some(disk)
                        },
                    }
                },
            },
    {
        if let Err(message) = made {
            return fail(self, message, None);
        }
        let mut s = self;
        s.stage = StartStage::Disk;
        say_finished(&mut s.news, 5, "created");
        say_started(&mut s.news, 6);
        proof {
            assert(said(s.news@) =~= said(self.news@) + seq![ends(5, "created"@), begins(6)]);
        }
        let image_path = match &s.image_path {
            Some(path) => path.clone(),
            None => String::new(),
        };
        match &s.slot {
            Some(slot) => match s.launch.disk_source(slot, image_path.as_str()) {
                DiskSource::UseImage { path } => {
                    s.disk_path = Some(path.clone());
                    (s, StartAction::ProbeDisk { path })
                },
                DiskSource::Copy { src, dest, size } => {
                    s.disk_path = Some(dest.clone());
                    (s, StartAction::CopyDisk { src, dest, size })
                },
            },
            None => fail(s, String::new(), None),
        }
    }

    /// Goes on once the machine has its disk. A disk that was copied is always of the same format;
    /// of the user's own the answer gives the format.
    pub fn disk_ready(self, format: Result<DiskFormat, String>) -> (r: (Startup, StartAction))
        requires
            self.wf(),
            self.stage is Disk,
        ensures
            r.0.wf(),
            self.undoes(r.1),
            r.0.asks(r.1),
            match format {
                Err(message) => r.0 == self.over() && plain_failure(r.1, message@, None),
                Ok(found) => {
                    &&& r.0 == (Startup {
                        stage: StartStage::Daemons,
                        news: r.0.news,
                        disk_format: match self.launch.plan.boot {
                            Boot::Custom { .. } => found,
                            Boot::Cloud { .. } => DiskFormat::Qcow2,
                        },
                        ..self
                    })
                    &&& said(r.0.news@) == said(self.news@) + seq![ends(6, "created"@), begins(7)]
                    &&& r.1 matches StartAction::StartDaemons { daemons } && launch::all_serve(
                        daemons@,
                        self.launch,
                        self.slot->0,
                    )
                },
            },
    {
        let found = match format {
            Err(message) => return fail(self, message, None),
            Ok(found) => found,
        };
        let mut s = self;
        s.stage = StartStage::Daemons;
        s.disk_format = match &s.launch.plan.boot {
            Boot::Custom { .. } => found,
            Boot::Cloud { .. } => DiskFormat::Qcow2,
        };
        say_finished(&mut s.news, 6, "created");
        say_started(&mut s.news, 7);
        proof {
            assert(said(s.news@) =~= said(self.news@) + seq![ends(6, "created"@), begins(7)]);
        }
        match &s.slot {
            Some(slot) => {
                let daemons = s.launch.daemons(slot);
                (s, StartAction::StartDaemons { daemons })
            },
            None => fail(s, String::new(), None),
        }
    }

    /// Goes on once the daemons run. Where they do not, the machine's directory goes.
    pub fn daemons_started(self, started: Result<VirtioFsRuntime, String>) -> (r: (
        Startup,
        StartAction,
    ))
        requires
            self.wf(),
            self.stage is Daemons,
        ensures
            r.0.wf(),
            self.undoes(r.1),
            r.0.asks(r.1),
            match started {
                Err(message) => {
                    &&& r.0 == self.over()
                    &&& r.1 matches StartAction::Fail { failure } && failure.message == message
                        && failure.cause is None && failure.note is None && launch::removes_dir(
                        failure.cleanup@,
                        self.slot->0.vm_dir@,
                    )
                },
                Ok(runtime) => if self.launch.plan.boot is Custom && launch::kernel_command_line(
                    self.launch.host.arch@,
                ) is None {
                    &&& r.0 == (Startup { runtime, ..self }).over()
                    &&& plain_failure(
                        r.1,
                        "Unsupported host architecture for kernel boot: "@ + self.launch.host.arch@,
                        None,
                    )
                } else {
                    &&& r.0 == (Startup { stage: StartStage::Qemu, runtime, ..self })
                    &&& r.1 matches StartAction::StartQemu { config } && launch::base_config(
                        config,
                        self.launch,
                        self.slot->0,
                        self.disk_path->0@,
                        self.disk_format,
                        self.iso_path->0@,
                    ) && launch::boot_config(config, self.launch.plan.boot, self.launch.host)
                        && launch::share_config(config, self.launch, runtime.shares@)
                },
            },
    {
        let runtime = match started {
            Err(message) => {
                let failure = match &self.slot {
                    Some(slot) => virtiofs_failed(message, slot),
                    None => LaunchFailure { message, cause: None, note: None, cleanup: Vec::new() },
                };
                return end(self, failure);
            },
            Ok(runtime) => runtime,
        };
        let mut s = self;
        s.runtime = runtime;
        let disk_path = match &s.disk_path {
            Some(path) => path.clone(),
            None => String::new(),
        };
        let iso_path = match &s.iso_path {
            Some(path) => path.clone(),
            None => String::new(),
        };
        let config = match &s.slot {
            Some(slot) => s.launch.qemu_config(
                slot,
                disk_path.as_str(),
                s.disk_format,
                iso_path.as_str(),
                &s.runtime,
            ),
            None => Err(String::new()),
        };
        match config {
            Err(message) => fail(s, message, None),
            Ok(config) => {
                s.stage = StartStage::Qemu;
                (s, StartAction::StartQemu { config })
            },
        }
    }

    /// Goes on once QEMU has started, at a time given in seconds. Where it has not, the daemons go.
    pub fn qemu_started(self, started: Result<u32, String>, now: Result<u64, String>) -> (r: (
        Startup,
        StartAction,
    ))
        requires
            self.wf(),
            self.stage is Qemu,
        ensures
            r.0.wf(),
            self.undoes(r.1),
            r.0.asks(r.1),
            match (started, now) {
                (Err(message), _) => {
                    &&& r.0 == self.over()
                    &&& r.1 matches StartAction::Fail { failure } && failure.message == message
                        && failure.cause is None && text::opt_view(failure.note) == Some(message@)
                        && launch::stops_sidecars(
                        failure.cleanup@,
                        launch::share_pids(self.runtime.shares@),
                    )
                },
                (Ok(pid), Err(cause)) => {
                    &&& r.0 == (Startup { pid: Some(pid), ..self }).over()
                    &&& plain_failure(r.1, "Failed to determine creation time"@, Some(cause@))
                },
                (Ok(pid), Ok(created_at)) => {
                    &&& r.0 == (Startup {
                        stage: StartStage::Settle,
                        pid: Some(pid),
                        record: r.0.record,
                        ..self
                    })
                    &&& r.0.record is Some
                    &&& launch::records(
                        r.0.record->0,
                        self.launch,
                        self.slot->0,
                        self.private_key_path->0@,
                        self.disk_path->0@,
                        self.iso_path->0@,
                        pid,
                        self.runtime.shares@,
                        created_at,
                    )
                    &&& r.1 == (StartAction::Settle { milliseconds: 500, pid })
                },
            },
    {
        let pid: u32 = match started {
            Err(message) => {
                let failure = qemu_failed(message, &self.runtime);
                return end(self, failure);
            },
            Ok(pid) => pid,
        };
        let mut s = self;
        s.pid = Some(pid);
        let created_at: u64 = match now {
            Err(cause) => return fail(
                s,
                "Failed to determine creation time".to_owned(),
                Some(cause),
            ),
            Ok(seconds) => seconds,
        };
        let key_path = match &s.private_key_path {
            Some(path) => path.clone(),
            None => String::new(),
        };
        let disk_path = match &s.disk_path {
            Some(path) => path.clone(),
            None => String::new(),
        };
        let iso_path = match &s.iso_path {
            Some(path) => path.clone(),
            None => String::new(),
        };
        match &s.slot {
            Some(slot) => {
                let record = s.launch.vm_record(
                    slot,
                    key_path.as_str(),
                    disk_path.as_str(),
                    iso_path.as_str(),
                    pid,
                    &s.runtime,
                    created_at,
                );
                s.record = Some(record);
                s.stage = StartStage::Settle;
                (s, StartAction::Settle { milliseconds: 500, pid })
            },
            None => fail(s, String::new(), None),
        }
    }

    /// Goes on shortly after QEMU has started. A machine that no longer runs is taken away.
    pub fn settled(self, pid_alive: bool) -> (r: (Startup, StartAction))
        requires
            self.wf(),
            self.stage is Settle,
        ensures
            r.0.wf(),
            self.undoes(r.1),
            r.0.asks(r.1),
            if self.record->0.status_now(pid_alive) is Running {
                &&& r.0 == (Startup { stage: StartStage::Record, news: r.0.news, ..self })
                &&& said(r.0.news@) == said(self.news@).push(
                    ends(
                        7,
                        "PID "@ + text::decimal(self.pid->0 as nat) + ", port "@ + text::decimal(
                            self.slot->0.ssh_port as nat,
                        ),
                    ),
                )
                &&& r.1 matches StartAction::WriteRecord { instances_dir } && instances_dir@
                    == self.launch.instances_dir@
            } else {
                &&& r.0 == self.over()
                &&& r.1 matches StartAction::Fail { failure } && failure.message@
                    == "QEMU failed to stay running after startup. Use --verbose for startup output."@
                    && failure.cause is None && text::opt_view(failure.note) == Some(
                    "process exited"@,
                ) && launch::removes_machine(
                    failure.cleanup@,
                    self.pid->0,
                    3,
                    self.record->0.sidecar_pids@,
                    self.slot->0.vm_dir@,
                )
            },
    {
        let outcome = match (&self.record, &self.slot, self.pid) {
            (Some(record), Some(slot), Some(pid)) => self.launch.settled(
                record,
                pid,
                slot,
                pid_alive,
            ),
            _ => Ok(String::new()),
        };
        match outcome {
            Err(failure) => end(self, failure),
            Ok(detail) => {
                let mut s = self;
                s.stage = StartStage::Record;
                say_finished(&mut s.news, 7, detail.as_str());
                let instances_dir = s.launch.instances_dir.clone();
                (s, StartAction::WriteRecord { instances_dir })
            },
        }
    }

    /// Goes on once the record is written, so that the machine can be found and removed whatever
    /// comes next.
    pub fn record_written(self, written: Result<(), String>) -> (r: (Startup, StartAction))
        requires
            self.wf(),
            self.stage is Record,
        ensures
            r.0.wf(),
            self.undoes(r.1),
            r.0.asks(r.1),
            match written {
                Err(message) => r.0 == self.over() && plain_failure(r.1, message@, None),
                Ok(_) => {
                    &&& r.0 == (Startup { stage: StartStage::Ssh, news: r.0.news, ..self })
                    &&& said(r.0.news@) == said(self.news@).push(begins(8))
                    &&& r.1 == (StartAction::VerifySsh {
                        port: self.slot->0.ssh_port,
                        patience: launch::patience_with(self.launch.host),
                    })
                },
            },
    {
        if let Err(message) = written {
            return fail(self, message, None);
        }
        let mut s = self;
        s.stage = StartStage::Ssh;
        say_started(&mut s.news, 8);
        let patience = ssh_patience(&s.launch.host);
        let port: u16 = match &s.slot {
            Some(slot) => slot.ssh_port,
            None => 0,
        };
        (s, StartAction::VerifySsh { port, patience })
    }

    /// Ends the startup once it is known whether the machine answers. One that does not is taken
    /// away.
    pub fn ssh_checked(self, check: SshCheck) -> (r: (Startup, StartAction))
        requires
            self.wf(),
            self.stage is Ssh,
        ensures
            r.0.wf(),
            self.undoes(r.1),
            r.0.asks(r.1),
            r.0.stage is Over,
            match launch::check_fault(check) {
                None => {
                    &&& r.0 == (Startup { news: r.0.news, ..self }).over()
                    &&& said(r.0.news@) == said(self.news@).push(
                        ends(8, text::trimmed(check->output@)),
                    )
                    &&& r.1 is Succeed
                },
                Some((message, cause, note)) => {
                    &&& r.0 == self.over()
                    &&& r.1 matches StartAction::Fail { failure } && failure.message@ == message
                        && text::opt_view(failure.cause) == cause && text::opt_view(failure.note)
                        == Some(note) && launch::removes_machine(
                        failure.cleanup@,
                        self.pid->0,
                        5,
                        self.record->0.sidecar_pids@,
                        self.slot->0.vm_dir@,
                    )
                },
            },
    {
        let outcome = match (&self.record, &self.slot, self.pid) {
            (Some(record), Some(slot), Some(pid)) => verify_ssh_connection(
                check,
                record,
                pid,
                slot.vm_dir.as_str(),
            ),
            _ => Ok(String::new()),
        };
        match outcome {
            Err(failure) => end(self, failure),
            Ok(output) => {
                let mut s = self;
                let name = text::trim(output.as_str());
                say_finished(&mut s.news, 8, name.as_str());
                s.stage = StartStage::Over;
                (s, StartAction::Succeed)
            },
        }
    }
}

/// A startup holds the lock while the machine gets its name, its port and its directory, and at
/// no other time: two machines never get the same place, and the slow steps keep nobody waiting.
pub proof fn law_lock_is_held_while_placing(startup: Startup)
    requires
        startup.wf(),
    ensures
        startup.locked <==> startup.stage is Names || startup.stage is Port || startup.stage is VmDir,
{
}

/// What is made at one stage of a startup is what the later stages use. The image of the seed is
/// made of the documents that were written, and QEMU is given that image; QEMU is given the disk
/// that was made or looked at; the port that was reserved is the port that QEMU forwards and that
/// the first connection goes to.
pub proof fn law_stages_of_a_startup_fit_together(
    seeding: Startup,
    write: StartAction,
    imaging: Startup,
    make: StartAction,
    disking: Startup,
    disk: StartAction,
    running: Startup,
    run: StartAction,
)
    requires
        seeding.wf() && seeding.stage is Seed && seeding.asks(write),
        imaging.wf() && imaging.stage is Iso && imaging.asks(make),
        disking.wf() && disking.stage is Disk && disking.asks(disk),
        running.wf() && running.stage is Qemu && running.asks(run),
        seeding.slot == running.slot && seeding.iso_path == running.iso_path,
        imaging.slot == running.slot && imaging.iso_path == running.iso_path,
        disking.slot == running.slot && disking.disk_path == running.disk_path,
        disking.image_path == running.image_path && disking.launch == running.launch,
    ensures
        write is WriteSeed && make is MakeIso && run is StartQemu,
        make->metadata_path@ == write->plan.metadata_path@,
        make->userdata_path@ == write->plan.userdata_path@,
        make->iso_path@ == write->plan.iso_path@,
        text::opt_view(run->config.cloud_init_iso) == Some(make->iso_path@),
        match running.launch.plan.boot {
            Boot::Custom { .. } => disk is ProbeDisk && text::opt_view(run->config.disk_image) == Some(
                disk->ProbeDisk_path@,
            ) && disk->ProbeDisk_path@ == running.image_path->0@,
            Boot::Cloud { .. } => disk is CopyDisk && text::opt_view(run->config.disk_image) == Some(
                disk->dest@,
            ) && disk->src@ == running.image_path->0@,
        },
        run->config.ssh_port == Some(running.slot->0.ssh_port),
{
}

/// A machine gets the port that is reserved for it, in the directory that its number names: the
/// port is reserved, forwarded and connected to under one number, and the lock, the list of
/// machines and the record all lie in one directory below the base directory.
pub proof fn law_machine_keeps_its_place(startup: Startup, action: StartAction)
    requires
        startup.wf(),
        startup.asks(action),
    ensures
        startup.stage is Dirs ==> action is MakeDirs && ({
            let dirs = text::views(action->dirs@);
            &&& dirs.contains(startup.base_dir@)
            &&& dirs.contains(startup.launch.instances_dir@)
            &&& dirs.contains(startup.launch.images_dir@)
            &&& dirs.contains(startup.launch.keys_dir@)
        }),
        startup.stage is Image ==> action is PrepareImage && action->PrepareImage_path@
            == startup.image_path->0@ && startup.launch.images_dir@.is_prefix_of(
            path::joined(startup.base_dir@, "images"@),
        ),
        startup.stage is Key ==> action is MakeKey && action->keys_dir@ == path::joined(
            startup.base_dir@,
            "keys"@,
        ) && action->name@ == "vm"@,
        startup.stage is Lock ==> action is TakeLock && action->TakeLock_instances_dir@
            == path::joined(startup.base_dir@, "instances"@),
        startup.stage is Names ==> action is ListNames && action->ListNames_instances_dir@
            == path::joined(startup.base_dir@, "instances"@),
        startup.stage is Port ==> action is ReservePort && action->ReservePort_port
            == startup.slot->0.ssh_port && action->ReservePort_instances_dir@ == path::joined(
            startup.base_dir@,
            "instances"@,
        ),
        startup.stage is VmDir ==> action is MakeVmDir && action->dir@ == startup.slot->0.vm_dir@,
        startup.stage is Settle ==> action is Settle && Some(action->pid) == startup.pid
            && action->milliseconds == 500,
        startup.stage is Record ==> action is WriteRecord && action->WriteRecord_instances_dir@
            == path::joined(startup.base_dir@, "instances"@),
        startup.stage is Ssh ==> action is VerifySsh && action->VerifySsh_port
            == startup.slot->0.ssh_port && action->patience == launch::patience_with(
            startup.launch.host,
        ),
        action is Succeed || action is Fail <==> startup.stage is Over,
{
    if startup.stage is Dirs {
        let dirs = text::views(action->dirs@);
        assert(dirs[0] == startup.base_dir@ && dirs[1] == startup.launch.images_dir@);
        assert(dirs[2] == startup.launch.instances_dir@ && dirs[3] == startup.launch.keys_dir@);
    }
    let images = startup.launch.images_dir@;
    assert(images =~= images.subrange(0, images.len() as int));
}

/// A startup that fails takes away what it has set up: the machine's directory where its daemons
/// do not come up, its daemons where QEMU does not start, and all of it, QEMU first, where the
/// machine does not stay up or does not answer.
pub proof fn law_failed_startup_is_undone(startup: Startup, action: StartAction)
    requires
        startup.wf(),
        action is Fail,
        startup.undoes(action),
    ensures
        startup.stage is Daemons && startup.launch.plan.boot is Cloud ==> {
            let cleanup = action->failure.cleanup@;
            cleanup.len() == 1 && cleanup[0] is RemoveDir && cleanup[0]->dir@
                == startup.slot->0.vm_dir@
        },
        startup.stage is Qemu && action->failure.message@ != "Failed to determine creation time"@ ==> {
            let cleanup = action->failure.cleanup@;
            &&& cleanup.len() == 1 && cleanup[0] is StopSidecars
            &&& cleanup[0]->pids@.len() == startup.runtime.shares@.len()
            &&& forall|i: int|
                0 <= i < startup.runtime.shares@.len() ==> cleanup[0]->pids@[i] == (
                #[trigger] startup.runtime.shares@[i]).pid
        },
        startup.stage is Settle || startup.stage is Ssh ==> {
            let cleanup = action->failure.cleanup@;
            &&& cleanup.len() == 3
            &&& cleanup[0] is StopQemu && Some(cleanup[0]->pid) == startup.pid
            &&& cleanup[0]->seconds == (if startup.stage is Settle {
                3u64
            } else {
                5u64
            })
            &&& cleanup[1] is StopSidecars && cleanup[1]->pids@
                == startup.record->0.sidecar_pids@
            &&& cleanup[2] is RemoveDir && cleanup[2]->dir@ == startup.slot->0.vm_dir@
        },
{
}

/// What is said once the directories are there shows where they are.
pub proof fn law_ready_directories_are_shown(base_dir: Seq<char>)
    ensures
        dirs_ready(base_dir) is Finished,
        dirs_ready(base_dir)->Finished_step == 2,
        dirs_ready(base_dir)->detail == "ready ("@ + base_dir + ")"@,
        ("ready"@).is_suffix_of(dirs_ready(base_dir)->notice),
{
    let notice = dirs_ready(base_dir)->notice;
    let n = notice.len() as int;
    assert("ready"@ =~= notice.subrange(n - "ready"@.len(), n));
}

/// What is shown of the image once it is there.
pub open spec fn image_detail(fresh: bool) -> Seq<char> {
    if fresh {
        "downloaded"@
    } else {
        "cached"@
    }
}

/// An image that was fetched is told from one that was there already, and the news of a step says
/// which step it is and what came of it.
pub proof fn law_news_of_a_step(step: u8, detail: Seq<char>, fresh: bool)
    ensures
        fresh ==> image_detail(fresh) == "downloaded"@,
        !fresh ==> image_detail(fresh) == "cached"@,
        begins(step) is Started && begins(step)->Started_step == step && begins(step)->title
            == launch::step_name(step),
        ends(step, detail) is Finished && ends(step, detail)->Finished_step == step,
        ends(step, detail)->detail == detail,
        begins(step)->title.is_prefix_of(ends(step, detail)->notice),
        detail.is_suffix_of(ends(step, detail)->notice),
{
    text::lemma_ends(launch::step_name(step), " — "@, detail);
}

} // verus!
