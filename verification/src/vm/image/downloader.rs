//! Fetching a base image: when to trust a file that is already there, and how a finished
//! download takes its place without harming what another process put there.

use vstd::prelude::*;

use crate::path;
use crate::text;

verus! {

/// What the host says about an image file.
#[derive(Debug, Clone, Copy, PartialEq, Eq, Structural)]
pub struct ImageSeen {
    pub exists: bool,
    pub len: u64,
    /// Whether the file starts as a qcow2 image does.
    pub has_magic: bool,
    /// Whether `qemu-img` is there and takes the file for an image.
    pub qemu_img_accepts: bool,
}

/// Whether a file is a usable image.
pub open spec fn usable(seen: ImageSeen) -> bool {
    seen.exists && seen.len > 0 && (seen.has_magic || seen.qemu_img_accepts)
}

/// Downloads images.
#[derive(Debug)]
pub struct ImageDownloader {}

impl ImageDownloader {
    pub fn new() -> (r: ImageDownloader)
        ensures
            r == (ImageDownloader {  }),
    {
        ImageDownloader {  }
    }

    /// Decides whether a file is a usable image.
    pub fn verify_image(seen: &ImageSeen) -> (r: bool)
        ensures
            r == usable(*seen),
    {
        seen.exists && seen.len > 0 && (seen.has_magic || seen.qemu_img_accepts)
    }

    /// Starts the download of the image at `url` to `dest`. First comes a look at what is there,
    /// unless the image is to be fetched whatever is there.
    pub fn download(&self, url: &str, dest: &str, force: bool) -> (r: (Fetch, FetchStep))
        ensures
            r.0.url@ == url@,
            r.0.dest@ == dest@,
            r.0.force == force,
            r.0.wants(r.1),
            if force {
                fetch_begins(r.0, r.1)
            } else {
                r.0.stage is Cached && r.1 is Look
            },
    {
        let mut fetch = Fetch {
            url: url.to_owned(),
            dest: dest.to_owned(),
            force,
            stage: FetchStage::Cached,
            part: String::new(),
            total: 0,
            downloaded: 0,
        };
        let step = if force {
            fetch.begin()
        } else {
            FetchStep::Look
        };
        (fetch, step)
    }
}

/// Whether the image has to be fetched.
pub fn needs_download(force_download: bool, cached: &ImageSeen) -> (r: bool)
    ensures
        r == (force_download || !usable(*cached)),
{
    force_download || !ImageDownloader::verify_image(cached)
}

/// The name of the file that an address ends in.
pub open spec fn url_file_name(url: Seq<char>) -> Seq<char> {
    url.skip(path::last_index(url, '/') + 1)
}

/// The file that the image at an address is kept in.
pub fn image_path(images_dir: &str, url: &str) -> (r: String)
    ensures
        r@ == path::joined(images_dir@, url_file_name(url@)),
{
    let pieces = text::split(url, '/');
    let ghost all = text::views(pieces@);
    proof {
        lemma_last_piece(url@);
        assert(all.len() == pieces@.len());
        assert(all.last() == pieces@.last()@);
    }
    let n: usize = pieces.len();
    path::join(images_dir, pieces[n - 1].as_str())
}

proof fn lemma_last_piece(url: Seq<char>)
    ensures
        text::split_at_all(url, '/').len() > 0,
        text::split_at_all(url, '/').last() == url_file_name(url),
    decreases url.len(),
{
    let i = text::first_index(url, '/');
    text::lemma_first_index(url, '/');
    path::lemma_last_index(url, '/');
    if i < url.len() {
        let rest = url.skip(i + 1);
        lemma_last_piece(rest);
        path::lemma_last_index(rest, '/');
        let k = path::last_index(url, '/');
        let m = path::last_index(rest, '/');
        assert(k >= i) by {
            if k < i {
                assert(url[i] == '/');
            }
        }
        assert(m == k - i - 1) by {
            if k == i {
                if m >= 0 {
                    assert(rest[m] == url[m + i + 1]);
                }
            } else {
                assert(rest[k - i - 1] == url[k]);
                if m > k - i - 1 {
                    assert(rest[m] == url[m + i + 1]);
                }
            }
        }
        assert(rest.skip(m + 1) =~= url.skip(k + 1));
        let all = text::split_at_all(url, '/');
        assert(all.last() == text::split_at_all(rest, '/').last());
    } else {
        let k = path::last_index(url, '/');
        assert(k == -1) by {
            if k >= 0 {
                assert(url[k] == '/');
            }
        }
        assert(url.skip(0) =~= url);
    }
}

/// What a download waits for.
#[derive(Debug, Clone, Copy, PartialEq, Eq, Structural)]
pub enum FetchStage {
    /// Whether a usable image is already in place.
    Cached,
    /// The deletion of a file in place that is not.
    Clearing,
    MakingDir,
    Requesting,
    Receiving,
    /// The deletion of what came of an image that did not come whole.
    Discarding,
    Placing,
    /// Whether the image that was put in place is usable.
    Checking,
    /// The deletion of one that is not.
    Refusing,
    Finished,
}

/// What to do next about a download.
#[derive(Debug)]
pub enum FetchStep {
    /// Look at the file at the destination.
    Look,
    /// Delete the file at the destination.
    ClearDest,
    /// Create this directory, where it is missing.
    MakeDir { dir: String },
    /// Ask for the image at this address.
    Request { url: String },
    /// Write what comes to this file.
    Receive { part: String },
    /// Delete this file, if that can be done.
    Discard { part: String },
    /// Put this file in place. Where `replace` is set, it takes the place of a usable image too.
    Place { part: String, replace: bool },
    /// The image is in place, and has this many bytes.
    Done { len: u64 },
    Fail { message: String },
}

/// What a server answers.
#[derive(Debug, Clone, Copy, PartialEq, Eq, Structural)]
pub enum Answer {
    /// Nothing: it could not be reached.
    Unreachable,
    /// That it does not have the image.
    Refused,
    /// How many bytes come, or 0 where it does not say.
    Announced { total: u64 },
}

/// What came of writing what a server sends to a file.
#[derive(Debug, Clone, Copy, PartialEq, Eq, Structural)]
pub enum Received {
    /// The file could not be created.
    NotCreated,
    /// The connection broke.
    Broken,
    /// The file could not be written to.
    NotWritten,
    /// The server was done after this many bytes.
    Complete { bytes: u64 },
}

/// A download of the image at `url`, on its way to `dest`.
#[derive(Debug)]
pub struct Fetch {
    pub url: String,
    pub dest: String,
    /// Whether the image is fetched though a usable one is in place.
    pub force: bool,
    pub stage: FetchStage,
    /// The file that what comes is first written to, once the server has answered.
    pub part: String,
    /// How many bytes were announced.
    pub total: u64,
    /// How many bytes came.
    pub downloaded: u64,
}

/// How far a download is from its end.
pub open spec fn fetch_left(stage: FetchStage) -> nat {
    match stage {
        FetchStage::Cached => 9,
        FetchStage::Clearing => 8,
        FetchStage::MakingDir => 7,
        FetchStage::Requesting => 6,
        FetchStage::Receiving => 5,
        FetchStage::Discarding => 4,
        FetchStage::Placing => 3,
        FetchStage::Checking => 2,
        FetchStage::Refusing => 1,
        FetchStage::Finished => 0,
    }
}

/// Whether a download fails with a message.
pub open spec fn fetch_fails(fetch: Fetch, step: FetchStep, message: Seq<char>) -> bool {
    fetch.stage is Finished && (step matches FetchStep::Fail { message: m } && m@ == message)
}

/// Whether a download goes on to what has to be done before the server is asked.
pub open spec fn fetch_begins(fetch: Fetch, step: FetchStep) -> bool {
    match path::parent_of(fetch.dest@) {
        Some(parent) => fetch.stage is MakingDir && (step matches FetchStep::MakeDir { dir } && dir@
            == parent),
        None => fetch.stage is Requesting && (step matches FetchStep::Request { url } && url@
            == fetch.url@),
    }
}

/// The message for an image that did not come whole.
pub open spec fn incomplete_message(total: nat, downloaded: nat) -> Seq<char> {
    "Download incomplete: expected "@ + text::decimal(total) + " bytes, got "@ + text::decimal(
        downloaded,
    ) + " bytes"@
}

/// The name of the file that a download is first written to.
pub open spec fn part_name(dest: Seq<char>, pid: nat, nanos: Seq<char>) -> Seq<char> {
    let name = match path::last_name(dest) {
        Some(n) => n,
        None => "image"@,
    };
    "."@ + name + "-"@ + text::decimal(pid) + "."@ + nanos + ".part"@
}

impl Fetch {
    /// Whether `step` is what the download waits for at its stage.
    pub open spec fn wants(self, step: FetchStep) -> bool {
        match self.stage {
            FetchStage::Cached | FetchStage::Checking => step is Look,
            FetchStage::Clearing | FetchStage::Refusing => step is ClearDest,
            FetchStage::MakingDir => step matches FetchStep::MakeDir { dir } && path::parent_of(
                self.dest@,
            ) == Some(dir@),
            FetchStage::Requesting => step matches FetchStep::Request { url } && url@ == self.url@,
            FetchStage::Receiving => step matches FetchStep::Receive { part } && part@
                == self.part@,
            FetchStage::Discarding => step matches FetchStep::Discard { part } && part@
                == self.part@,
            FetchStage::Placing => step matches FetchStep::Place { part, replace } && part@
                == self.part@ && replace == self.force,
            FetchStage::Finished => step is Done || step is Fail,
        }
    }

    /// Whether `step` and the stage are what follows on a look at the destination.
    pub open spec fn after_look(self, before: Fetch, seen: Option<ImageSeen>, step: FetchStep) -> bool {
        match seen {
            None => step is Fail,
            Some(file) => if usable(file) {
                step == (FetchStep::Done { len: file.len })
            } else if before.stage is Checking {
                step is ClearDest && self.stage is Refusing
            } else if file.exists {
                step is ClearDest && self.stage is Clearing
            } else {
                fetch_begins(self, step)
            },
        }
    }

    /// Whether `step` is what follows once the server is done.
    pub open spec fn after_receipt(self, before: Fetch, outcome: Received, step: FetchStep) -> bool {
        match outcome {
            Received::Complete { bytes } => if before.total == 0 || bytes == before.total {
                self.stage is Placing
            } else {
                self.stage is Discarding && self.downloaded == bytes && self.total == before.total
            },
            _ => step is Fail,
        }
    }

    /// Whether only the stage differs.
    pub open spec fn same_but_stage(self, other: Fetch) -> bool {
        self == (Fetch { stage: self.stage, ..other })
    }

    fn fail(&mut self, message: String) -> (r: FetchStep)
        ensures
            final(self).same_but_stage(*old(self)),
            fetch_fails(*final(self), r, message@),
    {
        self.stage = FetchStage::Finished;
        FetchStep::Fail { message }
    }

    fn begin(&mut self) -> (r: FetchStep)
        ensures
            final(self).same_but_stage(*old(self)),
            fetch_begins(*final(self), r),
    {
        match path::parent(self.dest.as_str()) {
            Some(dir) => {
                self.stage = FetchStage::MakingDir;
                FetchStep::MakeDir { dir }
            },
            None => {
                self.stage = FetchStage::Requesting;
                FetchStep::Request { url: self.url.clone() }
            },
        }
    }

    /// Goes on after a look at the destination, which gives nothing where it failed. A usable
    /// image is taken as it is, before the download as well as after it; any other file goes.
    pub fn looked(&mut self, seen: Option<ImageSeen>) -> (r: FetchStep)
        requires
            old(self).stage is Cached || old(self).stage is Checking,
        ensures
            final(self).same_but_stage(*old(self)),
            fetch_left(final(self).stage) < fetch_left(old(self).stage),
            final(self).wants(r),
            final(self).after_look(*old(self), seen, r),
            match seen {
                None => fetch_fails(
                    *final(self),
                    r,
                    if old(self).stage is Cached {
                        "Failed to verify existing image"@
                    } else {
                        "Downloaded image is invalid: "@ + old(self).dest@
                    },
                ),
                Some(file) => if usable(file) {
                    r == (FetchStep::Done { len: file.len }) && final(self).stage is Finished
                } else if old(self).stage is Checking {
                    r is ClearDest && final(self).stage is Refusing
                } else if file.exists {
                    r is ClearDest && final(self).stage is Clearing
                } else {
                    fetch_begins(*final(self), r)
                },
            },
    {
        let before = matches!(self.stage, FetchStage::Cached);
        let file = match seen {
            Some(file) => file,
            None => {
                let message = if before {
                    "Failed to verify existing image".to_owned()
                } else {
                    text::cat2("Downloaded image is invalid: ", self.dest.as_str())
                };
                return self.fail(message);
            },
        };
        if ImageDownloader::verify_image(&file) {
            self.stage = FetchStage::Finished;
            return FetchStep::Done { len: file.len };
        }
        if !before {
            self.stage = FetchStage::Refusing;
            return FetchStep::ClearDest;
        }
        if file.exists {
            self.stage = FetchStage::Clearing;
            return FetchStep::ClearDest;
        }
        self.begin()
    }

    /// Goes on once the file at the destination was to be deleted.
    pub fn cleared(&mut self, done: bool) -> (r: FetchStep)
        requires
            old(self).stage is Clearing || old(self).stage is Refusing,
        ensures
            final(self).same_but_stage(*old(self)),
            fetch_left(final(self).stage) < fetch_left(old(self).stage),
            final(self).wants(r),
            if old(self).stage is Refusing {
                fetch_fails(
                    *final(self),
                    r,
                    if done {
                        "Downloaded image failed validation: "@ + old(self).dest@
                    } else {
                        "Failed to remove invalid downloaded image"@
                    },
                )
            } else if done {
                fetch_begins(*final(self), r)
            } else {
                fetch_fails(
                    *final(self),
                    r,
                    "Failed to remove invalid cached image "@ + old(self).dest@,
                )
            },
    {
        match self.stage {
            FetchStage::Refusing => {
                let message = if done {
                    text::cat2("Downloaded image failed validation: ", self.dest.as_str())
                } else {
                    "Failed to remove invalid downloaded image".to_owned()
                };
                self.fail(message)
            },
            _ => if done {
                self.begin()
            } else {
                let message = text::cat2(
                    "Failed to remove invalid cached image ",
                    self.dest.as_str(),
                );
                self.fail(message)
            },
        }
    }

    /// Goes on once the destination's directory was to be created.
    pub fn dir_made(&mut self, done: bool) -> (r: FetchStep)
        requires
            old(self).stage is MakingDir,
        ensures
            final(self).same_but_stage(*old(self)),
            fetch_left(final(self).stage) < fetch_left(old(self).stage),
            final(self).wants(r),
            if done {
                final(self).stage is Requesting && (r matches FetchStep::Request { url } && url@
                    == old(self).url@)
            } else {
                fetch_fails(
                    *final(self),
                    r,
                    "Failed to create directory: "@ + (match path::parent_of(old(self).dest@) {
                        Some(dir) => dir,
                        None => ""@,
                    }),
                )
            },
    {
        if done {
            self.stage = FetchStage::Requesting;
            return FetchStep::Request { url: self.url.clone() };
        }
        let message = match path::parent(self.dest.as_str()) {
            Some(dir) => text::cat2("Failed to create directory: ", dir.as_str()),
            None => text::cat2("Failed to create directory: ", ""),
        };
        self.fail(message)
    }

    /// Goes on once the server has answered. `nanos` is the time in decimal; with the number of
    /// the process it makes the name of the file that the image is first written to unlike that
    /// of any other download.
    pub fn answered(&mut self, answer: Answer, pid: u32, nanos: &str) -> (r: FetchStep)
        requires
            old(self).stage is Requesting,
        ensures
            fetch_left(final(self).stage) < fetch_left(old(self).stage),
            final(self).wants(r),
            match answer {
                Answer::Unreachable => final(self).same_but_stage(*old(self)) && fetch_fails(
                    *final(self),
                    r,
                    "Failed to start download from: "@ + old(self).url@,
                ),
                Answer::Refused => final(self).same_but_stage(*old(self)) && fetch_fails(
                    *final(self),
                    r,
                    "Remote server returned error while downloading "@ + old(self).url@,
                ),
                Answer::Announced { total } => {
                    &&& *final(self) == (Fetch {
                        stage: FetchStage::Receiving,
                        part: final(self).part,
                        total,
                        ..*old(self)
                    })
                    &&& final(self).part@ == path::renamed(
                        old(self).dest@,
                        part_name(old(self).dest@, pid as nat, nanos@),
                    )
                    &&& r matches FetchStep::Receive { part } && part@ == final(self).part@
                },
            },
    {
        match answer {
            Answer::Unreachable => {
                let message = text::cat2("Failed to start download from: ", self.url.as_str());
                self.fail(message)
            },
            Answer::Refused => {
                let message = text::cat2(
                    "Remote server returned error while downloading ",
                    self.url.as_str(),
                );
                self.fail(message)
            },
            Answer::Announced { total } => {
                let name = match path::file_name(self.dest.as_str()) {
                    Some(n) => n,
                    None => "image".to_owned(),
                };
                let n = text::number(pid as u64);
                let part = text::cat7(".", name.as_str(), "-", n.as_str(), ".", nanos, ".part");
                self.part = path::with_file_name(self.dest.as_str(), part.as_str());
                self.total = total;
                self.stage = FetchStage::Receiving;
                FetchStep::Receive { part: self.part.clone() }
            },
        }
    }

    /// Goes on once the server is done. As many bytes have to come as were announced; what came
    /// of an image that is not whole goes.
    pub fn received(&mut self, outcome: Received) -> (r: FetchStep)
        requires
            old(self).stage is Receiving,
        ensures
            fetch_left(final(self).stage) < fetch_left(old(self).stage),
            final(self).wants(r),
            final(self).after_receipt(*old(self), outcome, r),
            match outcome {
                Received::NotCreated => final(self).same_but_stage(*old(self)) && fetch_fails(
                    *final(self),
                    r,
                    "Failed to create file: "@ + old(self).dest@,
                ),
                Received::Broken => final(self).same_but_stage(*old(self)) && fetch_fails(
                    *final(self),
                    r,
                    "Error while downloading image"@,
                ),
                Received::NotWritten => final(self).same_but_stage(*old(self)) && fetch_fails(
                    *final(self),
                    r,
                    "Failed to write to file"@,
                ),
                Received::Complete { bytes } => {
                    let whole = old(self).total == 0 || bytes == old(self).total;
                    &&& *final(self) == (Fetch {
                        stage: if whole {
                            FetchStage::Placing
                        } else {
                            FetchStage::Discarding
                        },
                        downloaded: bytes,
                        ..*old(self)
                    })
                    &&& whole ==> (r matches FetchStep::Place { part, replace } && part@ == old(
                        self).part@ && replace == old(self).force)
                    &&& !whole ==> (r matches FetchStep::Discard { part } && part@
                        == old(self).part@)
                },
            },
    {
        match outcome {
            Received::NotCreated => {
                let message = text::cat2("Failed to create file: ", self.dest.as_str());
                self.fail(message)
            },
            Received::Broken => self.fail("Error while downloading image".to_owned()),
            Received::NotWritten => self.fail("Failed to write to file".to_owned()),
            Received::Complete { bytes } => {
                self.downloaded = bytes;
                if self.total > 0 && bytes != self.total {
                    self.stage = FetchStage::Discarding;
                    FetchStep::Discard { part: self.part.clone() }
                } else {
                    self.stage = FetchStage::Placing;
                    FetchStep::Place { part: self.part.clone(), replace: self.force }
                }
            },
        }
    }

    /// Ends a download that did not come whole.
    pub fn discarded(&mut self) -> (r: FetchStep)
        requires
            old(self).stage is Discarding,
        ensures
            final(self).same_but_stage(*old(self)),
            final(self).wants(r),
            fetch_fails(
                *final(self),
                r,
                incomplete_message(old(self).total as nat, old(self).downloaded as nat),
            ),
    {
        let t = text::number(self.total);
        let d = text::number(self.downloaded);
        let message = text::cat5(
            "Download incomplete: expected ",
            t.as_str(),
            " bytes, got ",
            d.as_str(),
            " bytes",
        );
        self.fail(message)
    }

    /// Goes on once the finished download was to be put in place.
    pub fn placed(&mut self, outcome: Result<(), String>) -> (r: FetchStep)
        requires
            old(self).stage is Placing,
        ensures
            final(self).same_but_stage(*old(self)),
            fetch_left(final(self).stage) < fetch_left(old(self).stage),
            final(self).wants(r),
            match outcome {
                Err(message) => fetch_fails(*final(self), r, message@),
                Ok(_) => r is Look && final(self).stage is Checking,
            },
    {
        match outcome {
            Err(message) => self.fail(message),
            Ok(_) => {
                self.stage = FetchStage::Checking;
                FetchStep::Look
            },
        }
    }
}

/// What came of renaming the finished download.
#[derive(Debug, Clone, Copy, PartialEq, Eq, Structural)]
pub enum RenameOutcome {
    Renamed,
    /// A file is in the way.
    AlreadyExists,
    Failed,
}

/// What came of deleting a file.
#[derive(Debug, Clone, Copy, PartialEq, Eq, Structural)]
pub enum RemoveOutcome {
    Removed,
    NotFound,
    Failed,
}

/// What putting a finished download in place waits for.
#[derive(Debug, Clone, Copy, PartialEq, Eq, Structural)]
pub enum FinalizeStage {
    /// Whether a usable image is already in place.
    FirstLook,
    FirstRename,
    /// Whether the file in the way is a usable image.
    SecondLook,
    /// The deletion of a file in the way that is not.
    Clearing,
    SecondRename,
    /// Whether the file that is in the way again is a usable image.
    ThirdLook,
    Finished,
}

/// What to do next about a finished download.
#[derive(Debug)]
pub enum FinalizeStep {
    /// Look whether a usable image is in place.
    Look,
    /// Rename the finished download.
    Rename,
    /// Delete the file at the destination.
    ClearDest,
    /// Delete the finished download: a usable image is in place.
    DropPart,
    Done,
    /// Give up. Where `drop_part` is set, delete the finished download first.
    Fail { message: String, drop_part: bool },
}

/// A finished download that is being put in place.
#[derive(Debug)]
pub struct Finalize {
    pub dest: String,
    /// Whether it takes the place of a usable image too.
    pub replace: bool,
    pub stage: FinalizeStage,
}

/// How far a finished download is from its end.
pub open spec fn steps_left(stage: FinalizeStage) -> nat {
    match stage {
        FinalizeStage::FirstLook => 6,
        FinalizeStage::FirstRename => 5,
        FinalizeStage::SecondLook => 4,
        FinalizeStage::Clearing => 3,
        FinalizeStage::SecondRename => 2,
        FinalizeStage::ThirdLook => 1,
        FinalizeStage::Finished => 0,
    }
}

/// The message for a download that could not be put in place.
pub open spec fn finalize_failure(dest: Seq<char>) -> Seq<char> {
    "Failed to finalize image file: "@ + dest
}

/// Whether a step fails as one does that leaves nothing of the download behind.
pub open spec fn fails_clean(step: FinalizeStep, dest: Seq<char>) -> bool {
    step matches FinalizeStep::Fail { message, drop_part } && drop_part && message@
        == finalize_failure(dest)
}

impl Finalize {
    /// A download that replaces what is in place never asks whether that is usable.
    pub open spec fn wf(self) -> bool {
        self.replace ==> !(self.stage is FirstLook || self.stage is SecondLook
            || self.stage is ThirdLook)
    }

    /// Whether `step` is what the finished download waits for at its stage.
    pub open spec fn wants(self, step: FinalizeStep) -> bool {
        match self.stage {
            FinalizeStage::FirstLook | FinalizeStage::SecondLook | FinalizeStage::ThirdLook =>
                step is Look,
            FinalizeStage::FirstRename | FinalizeStage::SecondRename => step is Rename,
            FinalizeStage::Clearing => step is ClearDest,
            FinalizeStage::Finished => step is DropPart || step is Done || step is Fail,
        }
    }

    /// Whether only the stage differs.
    pub open spec fn same_but_stage(self, other: Finalize) -> bool {
        self == (Finalize { stage: self.stage, ..other })
    }

    /// Starts putting a finished download in place. A usable image that is there already is kept,
    /// unless it is to be replaced.
    pub fn finalize_download(dest: &str, replace: bool) -> (r: (Finalize, FinalizeStep))
        ensures
            r.0.wf(),
            r.0.dest@ == dest@,
            r.0.replace == replace,
            r.0.wants(r.1),
            if replace {
                r.0.stage is FirstRename && r.1 is Rename
            } else {
                r.0.stage is FirstLook && r.1 is Look
            },
    {
        let dest = dest.to_owned();
        if replace {
            (
                Finalize { dest, replace, stage: FinalizeStage::FirstRename },
                FinalizeStep::Rename,
            )
        } else {
            (Finalize { dest, replace, stage: FinalizeStage::FirstLook }, FinalizeStep::Look)
        }
    }

    fn failure(&self) -> (r: FinalizeStep)
        ensures
            fails_clean(r, self.dest@),
    {
        FinalizeStep::Fail {
            message: text::cat2("Failed to finalize image file: ", self.dest.as_str()),
            drop_part: true,
        }
    }

    /// Goes on after a look at the destination.
    pub fn looked(&mut self, image_in_place: bool) -> (r: FinalizeStep)
        requires
            old(self).wf(),
            old(self).stage is FirstLook || old(self).stage is SecondLook || old(self).stage is ThirdLook,
        ensures
            final(self).wf(),
            final(self).same_but_stage(*old(self)),
            steps_left(final(self).stage) < steps_left(old(self).stage),
            final(self).wants(r),
            after_finalize_look(*old(self), image_in_place, r),
            image_in_place ==> r is DropPart && final(self).stage is Finished,
            !image_in_place ==> match old(self).stage {
                FinalizeStage::FirstLook => r is Rename && final(self).stage is FirstRename,
                FinalizeStage::SecondLook => r is ClearDest && final(self).stage is Clearing,
                _ => fails_clean(r, old(self).dest@) && final(self).stage is Finished,
            },
    {
        if image_in_place {
            self.stage = FinalizeStage::Finished;
            return FinalizeStep::DropPart;
        }
        match self.stage {
            FinalizeStage::FirstLook => {
                self.stage = FinalizeStage::FirstRename;
                FinalizeStep::Rename
            },
            FinalizeStage::SecondLook => {
                self.stage = FinalizeStage::Clearing;
                FinalizeStep::ClearDest
            },
            _ => {
                self.stage = FinalizeStage::Finished;
                self.failure()
            },
        }
    }

    /// Goes on after an attempt to rename. A file in the way is looked at, or, where it is to be
    /// replaced, deleted once.
    pub fn renamed(&mut self, outcome: RenameOutcome) -> (r: FinalizeStep)
        requires
            old(self).wf(),
            old(self).stage is FirstRename || old(self).stage is SecondRename,
        ensures
            final(self).wf(),
            final(self).same_but_stage(*old(self)),
            steps_left(final(self).stage) < steps_left(old(self).stage),
            final(self).wants(r),
            after_rename(*old(self), outcome, r),
            match outcome {
                RenameOutcome::Renamed => r is Done && final(self).stage is Finished,
                RenameOutcome::AlreadyExists => if !old(self).replace {
                    r is Look && final(self).stage == (if old(self).stage is FirstRename {
                        FinalizeStage::SecondLook
                    } else {
                        FinalizeStage::ThirdLook
                    })
                } else if old(self).stage is FirstRename {
                    r is ClearDest && final(self).stage is Clearing
                } else {
                    fails_clean(r, old(self).dest@) && final(self).stage is Finished
                },
                RenameOutcome::Failed => fails_clean(r, old(self).dest@) && final(self).stage is Finished,
            },
    {
        match outcome {
            RenameOutcome::Renamed => {
                self.stage = FinalizeStage::Finished;
                FinalizeStep::Done
            },
            RenameOutcome::AlreadyExists => {
                let first = matches!(self.stage, FinalizeStage::FirstRename);
                if !self.replace {
                    self.stage = if first {
                        FinalizeStage::SecondLook
                    } else {
                        FinalizeStage::ThirdLook
                    };
                    FinalizeStep::Look
                } else if first {
                    self.stage = FinalizeStage::Clearing;
                    FinalizeStep::ClearDest
                } else {
                    self.stage = FinalizeStage::Finished;
                    self.failure()
                }
            },
            RenameOutcome::Failed => {
                self.stage = FinalizeStage::Finished;
                self.failure()
            },
        }
    }

    /// Goes on after the deletion of a file in the way.
    pub fn cleared(&mut self, outcome: RemoveOutcome) -> (r: FinalizeStep)
        requires
            old(self).wf(),
            old(self).stage is Clearing,
        ensures
            final(self).wf(),
            final(self).same_but_stage(*old(self)),
            steps_left(final(self).stage) < steps_left(old(self).stage),
            final(self).wants(r),
            match outcome {
                RemoveOutcome::Failed => final(self).stage is Finished && (
                r matches FinalizeStep::Fail { message, drop_part } && !drop_part && message@
                    == "Failed to overwrite existing image "@ + old(self).dest@),
                _ => r is Rename && final(self).stage is SecondRename,
            },
    {
        match outcome {
            RemoveOutcome::Failed => {
                self.stage = FinalizeStage::Finished;
                FinalizeStep::Fail {
                    message: text::cat2(
                        "Failed to overwrite existing image ",
                        self.dest.as_str(),
                    ),
                    drop_part: false,
                }
            },
            _ => {
                self.stage = FinalizeStage::SecondRename;
                FinalizeStep::Rename
            },
        }
    }
}

/// A download that replaces what is in place never waits to hear whether that is usable.
pub proof fn law_replacing_download_never_looks(finalize: Finalize)
    requires
        finalize.wf(),
        finalize.replace,
    ensures
        finalize.stage is FirstRename || finalize.stage is Clearing || finalize.stage is SecondRename
            || finalize.stage is Finished,
{
}

/// A file is taken for an image exactly if it is there, is not empty, and either starts as one or
/// is taken for one by `qemu-img`.
pub proof fn law_usable_image(seen: ImageSeen)
    ensures
        usable(seen) ==> seen.exists && seen.len > 0,
        seen.exists && seen.len > 0 && seen.has_magic ==> usable(seen),
        seen.exists && seen.len > 0 && seen.qemu_img_accepts ==> usable(seen),
        !seen.has_magic && !seen.qemu_img_accepts ==> !usable(seen),
{
}

/// What comes is first written to a hidden file that is named after its destination, and two
/// processes never write to the same one.
pub proof fn law_parts_of_two_processes_differ(
    dest: Seq<char>,
    pid: nat,
    other: nat,
    nanos: Seq<char>,
)
    ensures
        part_name(dest, pid, nanos)[0] == '.',
        (".part"@).is_suffix_of(part_name(dest, pid, nanos)),
        path::last_name(dest) matches Some(name) ==> ("."@ + name + "-"@).is_prefix_of(
            part_name(dest, pid, nanos),
        ),
        part_name(dest, pid, nanos) == part_name(dest, other, nanos) ==> pid == other,
{
    reveal_strlit(".");
    reveal_strlit("-");
    reveal_strlit(".part");
    let name = match path::last_name(dest) {
        Some(n) => n,
        None => "image"@,
    };
    let head = "."@ + name + "-"@;
    let tail = "."@ + nanos + ".part"@;
    let a = part_name(dest, pid, nanos);
    let b = part_name(dest, other, nanos);
    let n = a.len() as int;
    assert(".part"@ =~= a.subrange(n - 5, n));
    assert(head =~= a.subrange(0, head.len() as int));
    if a == b {
        let from = head.len() as int;
        assert(text::decimal(pid) =~= a.subrange(from, n - tail.len()));
        assert(text::decimal(other) =~= b.subrange(from, n - tail.len()));
        text::lemma_decimal_distinct(pid, other);
    }
}

/// The message for an image that did not come whole tells how much was expected and how much came,
/// in this order.
pub proof fn law_incomplete_download_is_told(total: nat, downloaded: nat)
    ensures
        ("Download incomplete: expected "@ + text::decimal(total) + " bytes"@).is_prefix_of(
            incomplete_message(total, downloaded),
        ),
        ("got "@ + text::decimal(downloaded) + " bytes"@).is_suffix_of(
            incomplete_message(total, downloaded),
        ),
{
    reveal_strlit(" bytes, got ");
    reveal_strlit(" bytes");
    reveal_strlit("got ");
    let message = incomplete_message(total, downloaded);
    let head = "Download incomplete: expected "@ + text::decimal(total) + " bytes"@;
    let tail = "got "@ + text::decimal(downloaded) + " bytes"@;
    let n = message.len() as int;
    assert(head =~= message.subrange(0, head.len() as int));
    assert(tail =~= message.subrange(n - tail.len(), n));
}

/// The name of the file at an address is what stands behind its last slash.
pub proof fn law_file_name_of_an_address(before: Seq<char>, name: Seq<char>)
    requires
        !name.contains('/'),
    ensures
        url_file_name(before + seq!['/'] + name) == name,
        url_file_name(name) == name,
{
    let whole = before + seq!['/'] + name;
    let n = before.len() as int;
    path::lemma_last_index(whole, '/');
    path::lemma_last_index(name, '/');
    let k = path::last_index(whole, '/');
    assert(whole[n] == '/');
    if k > n {
        assert(name[k - n - 1] == '/');
        assert(name.contains('/'));
    }
    assert(k == n);
    assert(whole.skip(n + 1) =~= name);
    if path::last_index(name, '/') >= 0 {
        assert(name.contains(name[path::last_index(name, '/')]));
    }
    assert(name.skip(0) =~= name);
}

/// Whether `step` is what follows on a look at what is in place of a finished download.
pub open spec fn after_finalize_look(
    before: Finalize,
    image_in_place: bool,
    step: FinalizeStep,
) -> bool {
    if image_in_place {
        step is DropPart
    } else {
        match before.stage {
            FinalizeStage::FirstLook => step is Rename,
            FinalizeStage::SecondLook => step is ClearDest,
            _ => fails_clean(step, before.dest@),
        }
    }
}

/// Whether `step` is what follows on an attempt to rename a finished download.
pub open spec fn after_rename(before: Finalize, outcome: RenameOutcome, step: FinalizeStep) -> bool {
    match outcome {
        RenameOutcome::Renamed => step is Done,
        RenameOutcome::AlreadyExists => if !before.replace {
            step is Look
        } else if before.stage is FirstRename {
            step is ClearDest
        } else {
            fails_clean(step, before.dest@)
        },
        RenameOutcome::Failed => fails_clean(step, before.dest@),
    }
}

/// A usable image that is there is taken as it is: no server is asked for it. A download is over
/// only with a usable image, whose length it gives; any other file at the destination is deleted
/// first, before the download and after it.
pub proof fn law_usable_image_is_not_fetched(
    before: Fetch,
    seen: Option<ImageSeen>,
    after: Fetch,
    step: FetchStep,
)
    requires
        before.stage is Cached || before.stage is Checking,
        after.after_look(before, seen, step),
        after.wants(step),
    ensures
        step is Done <==> seen is Some && usable(seen->0),
        step is Done ==> step->len == seen->0.len && step->len > 0,
        step is ClearDest ==> seen is Some && !usable(seen->0),
        step is Request ==> before.stage is Cached && seen is Some && !seen->0.exists,
        step is Fail <==> seen is None,
        before.stage is Checking ==> !(step is Request) && !(step is MakeDir),
{
}

/// What came is put in place exactly if all came that was announced, as far as anything was; what
/// is not whole is thrown away. It takes the place of a usable image only where that was asked
/// for.
pub proof fn law_only_a_whole_image_is_placed(
    before: Fetch,
    outcome: Received,
    after: Fetch,
    step: FetchStep,
)
    requires
        before.stage is Receiving,
        after.after_receipt(before, outcome, step),
        after.wants(step),
        after.part == before.part && after.force == before.force,
    ensures
        outcome matches Received::Complete { bytes } ==> {
            &&& step is Place <==> before.total == 0 || bytes == before.total
            &&& step is Discard <==> before.total != 0 && bytes != before.total
            &&& step is Place ==> step->Place_part@ == before.part@ && step->replace
                == before.force
            &&& step is Discard ==> step->Discard_part@ == before.part@
        },
        !(outcome is Complete) ==> step is Fail,
{
}

/// A server is asked for the address of the download, and what comes is written beside its
/// destination.
pub proof fn law_download_asks_for_its_address(fetch: Fetch, step: FetchStep)
    requires
        fetch.wants(step),
    ensures
        fetch.stage is Requesting ==> step is Request && step->url@ == fetch.url@,
        fetch.stage is MakingDir ==> step is MakeDir && path::parent_of(fetch.dest@) == Some(
            step->dir@,
        ),
        fetch.stage is Placing ==> step is Place && (step->replace <==> fetch.force),
        fetch.stage is Clearing || fetch.stage is Refusing ==> step is ClearDest,
        fetch.stage is Finished <==> step is Done || step is Fail,
{
}

/// A usable image that another process has put in place is never deleted or replaced, unless it is
/// to be replaced: where one is seen the finished download is dropped, and a file in the way is
/// looked at before it is deleted.
pub proof fn law_usable_image_in_place_is_kept(
    before: Finalize,
    image_in_place: bool,
    looked: FinalizeStep,
    outcome: RenameOutcome,
    renamed: FinalizeStep,
)
    requires
        before.wf(),
        after_finalize_look(before, image_in_place, looked),
        after_rename(before, outcome, renamed),
    ensures
        looked is DropPart <==> image_in_place,
        looked is ClearDest ==> !image_in_place,
        looked is Rename ==> !image_in_place,
        renamed is ClearDest ==> before.replace,
        !before.replace && outcome == RenameOutcome::AlreadyExists ==> renamed is Look,
        renamed is Done <==> outcome == RenameOutcome::Renamed,
        looked is Fail ==> looked->drop_part && before.dest@.is_suffix_of(looked->message@),
        renamed is Fail ==> renamed->drop_part && before.dest@.is_suffix_of(renamed->message@),
{
    let message = finalize_failure(before.dest@);
    let n = message.len() as int;
    assert(before.dest@ =~= message.subrange(n - before.dest@.len(), n));
}

} // verus!
