//! Chains of tasks, in which each task hands its artifacts to the next.

use vstd::prelude::*;

use crate::path;
use crate::path::PathKind;
use crate::task;
use crate::task::LoadedTask;
use crate::text;
use crate::worker::error::{runtime, Error};
use crate::worker::launch::{unique_temp_path, TempMarks};
use crate::worker::launch;
use crate::worker::paths;
use crate::worker::progress::{send_chain_step, ChainStepProgress};
use crate::worker::result::{ChainRunResult, ChainStepResult, RunResult};

verus! {

/// A task of a chain.
#[derive(Debug)]
pub struct ChainStepPlan {
    /// The task's directory, in its canonical form.
    pub task_dir: String,
    pub loaded: LoadedTask,
}

/// The directories of the tasks of a chain.
pub open spec fn dirs_of(steps: Seq<ChainStepPlan>) -> Seq<Seq<char>> {
    steps.map_values(|s: ChainStepPlan| s.task_dir@)
}

/// A chain that is being followed. The task in `current` has not been loaded yet.
#[derive(Debug)]
pub struct ChainPlanner {
    pub steps: Vec<ChainStepPlan>,
    pub current: String,
}

/// What to do next about a chain.
#[derive(Debug)]
pub enum ChainStep {
    /// Find the canonical form of the path, and whether there is a task.
    Resolve { candidate: String },
    /// Nothing: the last task was loaded.
    Complete,
}

/// The message for a chain that leads back to a task of its own.
pub open spec fn cycle_message(dir: Seq<char>) -> Seq<char> {
    "Task chain cycle detected at "@ + dir
}

impl ChainPlanner {
    /// Whether no directory occurs twice.
    pub open spec fn wf(self) -> bool {
        &&& dirs_of(self.steps@).no_duplicates()
        &&& !dirs_of(self.steps@).contains(self.current@)
    }

    /// Whether no directory occurs twice among the tasks that were loaded.
    pub open spec fn loaded_wf(self) -> bool {
        dirs_of(self.steps@).no_duplicates()
    }

    /// Starts following the chain that begins in `start_task_dir`. `canonical` is the canonical form
    /// of that path, or why there is none.
    pub fn resolve_chain_steps(start_task_dir: &str, canonical: Result<String, String>) -> (r: Result<
        ChainPlanner,
        Error,
    >)
        ensures
            match canonical {
                Ok(dir) => r matches Ok(planner) && planner.wf() && planner.steps@.len() == 0
                    && planner.current == dir,
                Err(reason) => r matches Err(err) && err.is_runtime(
                    "Failed to resolve task directory "@ + start_task_dir@ + ": "@ + reason@,
                ),
            },
    {
        match canonical {
            Ok(current) => Ok(ChainPlanner { steps: Vec::new(), current }),
            Err(reason) => Err(
                runtime(
                    text::cat4(
                        "Failed to resolve task directory ",
                        start_task_dir,
                        ": ",
                        reason.as_str(),
                    ),
                ),
            ),
        }
    }

    /// Goes on once the task in the current directory was loaded.
    pub fn task_loaded(&mut self, reply: Result<LoadedTask, String>) -> (r: Result<ChainStep, Error>)
        requires
            old(self).wf(),
        ensures
            final(self).loaded_wf(),
            after_load(r, *old(self), *final(self), reply),
            final(self).current == old(self).current,
            match reply {
                Err(reason) => {
                    &&& r matches Err(err) && err.is_runtime(
                        "Failed to load task "@ + old(self).current@ + ": "@ + reason@,
                    )
                    &&& final(self).steps == old(self).steps
                },
                Ok(loaded) => {
                    &&& final(self).steps@.len() == old(self).steps@.len() + 1
                    &&& final(self).steps@.drop_last() == old(self).steps@
                    &&& final(self).steps@.last().task_dir@ == old(self).current@
                    &&& final(self).steps@.last().loaded == loaded
                    &&& match loaded.definition.next_task_dir {
                        None => r == Ok::<ChainStep, Error>(ChainStep::Complete),
                        Some(next) => match paths::relative_path_fault(
                            next@,
                            "next_task_dir"@,
                            true,
                        ) {
                            Some(message) => r matches Err(err) && err.is_runtime(message),
                            None => r matches Ok(ChainStep::Resolve { candidate }) && candidate@
                                == path::joined(old(self).current@, next@),
                        },
                    }
                },
            },
    {
        match reply {
            Err(reason) => Err(
                runtime(
                    text::cat4(
                        "Failed to load task ",
                        self.current.as_str(),
                        ": ",
                        reason.as_str(),
                    ),
                ),
            ),
            Ok(loaded) => {
                let next = loaded.definition.next_task_dir.clone();
                let ghost before = dirs_of(self.steps@);
                self.steps.push(ChainStepPlan { task_dir: self.current.clone(), loaded });
                proof {
                    assert(self.steps@.drop_last() =~= old(self).steps@);
                    assert(dirs_of(self.steps@) =~= before.push(self.current@));
                    assert forall|i: int, j: int|
                        0 <= i < dirs_of(self.steps@).len() && 0 <= j < dirs_of(self.steps@).len()
                            && i != j implies dirs_of(self.steps@)[i] != dirs_of(self.steps@)[j] by {
                        if i == before.len() {
                            assert(before.contains(before[j]));
                        } else if j == before.len() {
                            assert(before.contains(before[i]));
                        }
                    }
                }
                match next {
                    None => Ok(ChainStep::Complete),
                    Some(next) => match paths::parse_next_task_relative_path(next.as_str()) {
                        Err(err) => Err(err),
                        Ok(relative) => Ok(
                            ChainStep::Resolve {
                                candidate: path::join(self.current.as_str(), relative.as_str()),
                            },
                        ),
                    },
                }
            },
        }
    }

    /// Goes on once the next task's directory was looked up: `canonical` is the canonical form of its
    /// path, and `has_task` says whether it holds a task. A directory that was already visited is
    /// refused.
    pub fn resolve_next_task_dir(
        &mut self,
        next_task_dir: &str,
        canonical: Result<String, String>,
        has_task: bool,
    ) -> (r: Result<(), Error>)
        requires
            old(self).loaded_wf(),
        ensures
            final(self).steps == old(self).steps,
            after_lookup(r, *old(self), *final(self), canonical, has_task),
            match canonical {
                Err(reason) => r matches Err(err) && err.is_runtime(
                    "Failed to resolve next_task_dir '"@ + next_task_dir@ + "' from "@ + old(
                        self).current@ + ": "@ + reason@,
                ),
                Ok(dir) => if !has_task {
                    r matches Err(err) && err.is_runtime(
                        "Resolved next task directory "@ + dir@ + " does not contain task.json"@,
                    )
                } else if dirs_of(old(self).steps@).contains(dir@) {
                    r matches Err(err) && err.is_runtime(cycle_message(dir@))
                } else {
                    r is Ok && final(self).wf() && final(self).current == dir
                },
            },
    {
        let dir = match canonical {
            Ok(dir) => dir,
            Err(reason) => {
                return Err(
                    runtime(
                        text::cat6(
                            "Failed to resolve next_task_dir '",
                            next_task_dir,
                            "' from ",
                            self.current.as_str(),
                            ": ",
                            reason.as_str(),
                        ),
                    ),
                );
            },
        };
        if !has_task {
            return Err(
                runtime(
                    text::cat3(
                        "Resolved next task directory ",
                        dir.as_str(),
                        " does not contain task.json",
                    ),
                ),
            );
        }
        let mut i: usize = 0;
        while i < self.steps.len()
            invariant
                i <= self.steps@.len(),
                *self == *old(self),
                canonical == Ok::<String, String>(dir),
                has_task,
                forall|j: int| 0 <= j < i ==> (#[trigger] self.steps@[j]).task_dir@ != dir@,
            decreases self.steps@.len() - i,
        {
            if text::same(self.steps[i].task_dir.as_str(), dir.as_str()) {
                assert(dirs_of(self.steps@)[i as int] == dir@);
                return Err(runtime(text::cat2("Task chain cycle detected at ", dir.as_str())));
            }
            i = i + 1;
        }
        proof {
            assert forall|j: int| 0 <= j < dirs_of(self.steps@).len() implies dirs_of(self.steps@)[j]
                != dir@ by {
                assert(dirs_of(self.steps@)[j] == self.steps@[j].task_dir@);
            }
        }
        self.current = dir;
        Ok(())
    }
}

/// An artifact that one task hands to the next.
#[derive(Debug)]
pub struct HandoffArtifact {
    /// Its path below the output directory of the one and below the input directory of the other.
    pub relative_path: String,
    /// Where it lies.
    pub source_path: String,
}

/// Whether `handoff` is the artifact of the given name.
pub open spec fn hands_off(handoff: HandoffArtifact, output_dir: Seq<char>, artifact: Seq<char>) -> bool {
    handoff.relative_path@ == artifact && handoff.source_path@ == path::joined(
        output_dir,
        artifact,
    )
}

/// The artifacts that a task names, if it names any.
pub open spec fn named_artifacts(task: LoadedTask) -> Option<Seq<Seq<char>>> {
    match task.definition.artifacts {
        Some(list) => if list@.len() > 0 {
            Some(text::views(list@))
        } else {
            None
        },
        None => None,
    }
}

/// How messages name the directory of a task.
pub open spec fn dir_label(task: LoadedTask) -> Seq<char> {
    match launch::task_dir_of(task) {
        Some(dir) => dir,
        None => "<unknown>"@,
    }
}

/// The paths of what a task hands on, for their existence to be looked up.
pub fn handoff_paths(task: &LoadedTask) -> (r: Vec<String>)
    ensures
        text::views(r@) == (match task.definition.artifacts {
            Some(list) => text::views(list@).map_values(
                |a: Seq<char>| path::joined(task.output_dir@, a),
            ),
            None => seq![],
        }),
{
    let mut out: Vec<String> = Vec::new();
    let list = match &task.definition.artifacts {
        Some(list) => list,
        None => {
            assert(text::views(out@) =~= seq![]);
            return out;
        },
    };
    let ghost place = |a: Seq<char>| path::joined(task.output_dir@, a);
    let ghost all = text::views(list@);
    let mut i: usize = 0;
    assert(text::views(out@) =~= all.take(0).map_values(place));
    while i < list.len()
        invariant
            i <= list.len(),
            all == text::views(list@),
            place == (|a: Seq<char>| path::joined(task.output_dir@, a)),
            text::views(out@) == all.take(i as int).map_values(place),
        decreases list.len() - i,
    {
        let ghost before = text::views(out@);
        let at = path::join(task.output_dir.as_str(), list[i].as_str());
        out.push(at);
        proof {
            assert(text::views(out@) =~= before.push(at@));
            assert(all.take(i + 1).map_values(place) =~= before.push(at@));
        }
        i = i + 1;
    }
    assert(all.take(i as int) =~= all);
    out
}

/// Why the handing on of an artifact fails.
pub enum HandoffFault {
    /// Its path is refused.
    Path { message: Seq<char> },
    /// It is not there.
    Missing { file: Seq<char> },
}

/// The fault of an artifact.
pub open spec fn handoff_fault(artifact: Seq<char>, kind: PathKind) -> Option<HandoffFault> {
    match paths::relative_path_fault(artifact, "artifact"@, false) {
        Some(message) => Some(HandoffFault::Path { message }),
        None => if kind is Missing {
            Some(HandoffFault::Missing { file: artifact })
        } else {
            None
        },
    }
}

/// The fault of the first artifact that cannot be handed on.
pub open spec fn handoffs_fault(artifacts: Seq<Seq<char>>, kinds: Seq<PathKind>) -> Option<
    HandoffFault,
>
    decreases artifacts.len(),
{
    if artifacts.len() == 0 {
        None
    } else {
        match handoffs_fault(artifacts.drop_last(), kinds) {
            Some(fault) => Some(fault),
            None => handoff_fault(artifacts.last(), task::kind_at(kinds, artifacts.len() - 1)),
        }
    }
}

/// Whether an error tells of a fault.
pub open spec fn tells(err: Error, fault: HandoffFault) -> bool {
    match fault {
        HandoffFault::Path { message } => err.is_runtime(message),
        HandoffFault::Missing { file } => err matches Error::MissingArtifact { file: f } && f@
            == file,
    }
}

proof fn lemma_handoffs_fault_stays(artifacts: Seq<Seq<char>>, kinds: Seq<PathKind>, n: int)
    requires
        0 <= n <= artifacts.len(),
        handoffs_fault(artifacts.take(n), kinds) is Some,
    ensures
        handoffs_fault(artifacts, kinds) == handoffs_fault(artifacts.take(n), kinds),
    decreases artifacts.len(),
{
    if n < artifacts.len() {
        assert(artifacts.drop_last().take(n) =~= artifacts.take(n));
        lemma_handoffs_fault_stays(artifacts.drop_last(), kinds, n);
    } else {
        assert(artifacts.take(n) =~= artifacts);
    }
}

/// Lists what a task hands to the next one. `kinds` says what the path of each artifact leads to.
pub fn collect_handoff_artifacts(task: &LoadedTask, kinds: &[PathKind]) -> (r: Result<
    Vec<HandoffArtifact>,
    Error,
>)
    ensures
        match named_artifacts(*task) {
            None => r matches Err(err) && err.is_runtime(
                "Task "@ + dir_label(*task)
                    + " declares next_task_dir but has no artifacts to hand off"@,
            ),
            Some(artifacts) => match handoffs_fault(artifacts, kinds@) {
                Some(fault) => r matches Err(err) && tells(err, fault),
                None => r matches Ok(list) && list@.len() == artifacts.len() && forall|i: int|
                    0 <= i < list@.len() ==> hands_off(
                        #[trigger] list@[i],
                        task.output_dir@,
                        artifacts[i],
                    ),
            },
        },
{
    let none = match &task.definition.artifacts {
        Some(list) => list.len() == 0,
        None => true,
    };
    if none {
        let dir = match path::parent(task.output_dir.as_str()) {
            Some(dir) => dir,
            None => "<unknown>".to_owned(),
        };
        return Err(
            runtime(
                text::cat3(
                    "Task ",
                    dir.as_str(),
                    " declares next_task_dir but has no artifacts to hand off",
                ),
            ),
        );
    }
    let mut out: Vec<HandoffArtifact> = Vec::new();
    if let Some(artifacts) = &task.definition.artifacts {
        let ghost all = text::views(artifacts@);
        let mut i: usize = 0;
        while i < artifacts.len()
            invariant
                i <= artifacts.len(),
                artifacts@.len() > 0,
                task.definition.artifacts == Some(*artifacts),
                all == text::views(artifacts@),
                handoffs_fault(all.take(i as int), kinds@) is None,
                out@.len() == i,
                forall|j: int|
                    0 <= j < i ==> hands_off(#[trigger] out@[j], task.output_dir@, all[j]),
            decreases artifacts.len() - i,
        {
            let artifact = artifacts[i].as_str();
            let kind = if i < kinds.len() {
                kinds[i]
            } else {
                PathKind::Missing
            };
            proof {
                assert(all.take(i + 1).drop_last() =~= all.take(i as int));
                assert(all.take(i + 1).last() == artifact@);
                if handoffs_fault(all.take(i + 1), kinds@) is Some {
                    lemma_handoffs_fault_stays(all, kinds@, i + 1);
                }
            }
            let relative_path = match paths::parse_artifact_relative_path(artifact) {
                Ok(found) => found,
                Err(err) => return Err(err),
            };
            if !kind.is_found() {
                return Err(Error::MissingArtifact { file: artifact.to_owned() });
            }
            let source_path = path::join(task.output_dir.as_str(), relative_path.as_str());
            out.push(HandoffArtifact { relative_path, source_path });
            i = i + 1;
        }
        assert(all.take(i as int) =~= all);
    }
    Ok(out)
}

/// A directory for the input of a task together with what was handed to it.
pub fn next_overlay_input_dir(marks: &TempMarks) -> (r: String)
    ensures
        r@ == path::joined(
            marks.temp_dir@,
            launch::temp_name("vmize-chain-input"@, *marks, None),
        ),
{
    unique_temp_path("vmize-chain-input", marks, None)
}

/// Decides on an artifact's place in the overlay directory. It may not take the place of a file
/// of the task's own. `is_taken` says whether there is such a file.
pub fn create_overlay_input_dir(overlay_dir: &str, artifact: &HandoffArtifact, is_taken: bool) -> (r:
    Result<String, Error>)
    ensures
        is_place(r, overlay_dir@, *artifact, is_taken),
        ({
            let place = path::joined(overlay_dir@, artifact.relative_path@);
            match r {
                Ok(destination) => !is_taken && destination@ == place,
                Err(err) => is_taken && err.is_runtime(
                    "Artifact handoff conflict: "@ + place
                        + " already exists in downstream input"@,
                ),
            }
        }),
{
    let place = path::join(overlay_dir, artifact.relative_path.as_str());
    if is_taken {
        return Err(
            runtime(
                text::cat3(
                    "Artifact handoff conflict: ",
                    place.as_str(),
                    " already exists in downstream input",
                ),
            ),
        );
    }
    Ok(place)
}

/// The error for something that is neither a file nor a directory.
pub fn unsupported_artifact(src: &str) -> (r: Error)
    ensures
        r.is_runtime("Unsupported artifact type at "@ + src@),
{
    runtime(text::cat2("Unsupported artifact type at ", src))
}

/// What a chain waits for.
#[derive(Debug, Clone, Copy, PartialEq, Eq, Structural)]
pub enum ChainStage {
    /// An input directory for the current task that also holds what was handed to it.
    Overlaying,
    /// The run of the current task.
    Running,
    /// What the current task hands on.
    HandingOff,
    Finished,
}

/// A chain that runs.
#[derive(Debug)]
pub struct ChainRun {
    pub steps: Vec<ChainStepPlan>,
    pub stage: ChainStage,
    /// What the task before handed to the current one, until its input directory is made.
    pub handoff: Option<Vec<HandoffArtifact>>,
    /// The input directory that also holds what was handed to the current task.
    pub overlay: Option<String>,
    /// The outcome of the current task, while its artifacts are handed on.
    pub pending: Option<RunResult>,
    pub result: ChainRunResult,
    /// What was said since the listener last took it. `None` where nobody listens.
    pub progress: Option<Vec<ChainStepProgress>>,
}

/// Whether an event says that the task at position `i` was started.
pub open spec fn says_started(event: ChainStepProgress, steps: Seq<ChainStepPlan>, i: int) -> bool {
    event matches ChainStepProgress::StepStarted { step_index, total_steps, task_dir, task_name }
        && step_index == i + 1 && total_steps == steps.len() && task_dir@ == steps[i].task_dir@
        && text::opt_view(task_name) == text::opt_view(steps[i].loaded.definition.name)
}

/// Whether an outcome is that of the task at position `i`.
pub open spec fn step_outcome(outcome: ChainStepResult, steps: Seq<ChainStepPlan>, i: int) -> bool {
    &&& outcome.task_dir@ == steps[i].task_dir@
    &&& text::opt_view(outcome.task_name) == text::opt_view(steps[i].loaded.definition.name)
    &&& steps[i].loaded.definition.next_task_dir is None ==> outcome.handoff_artifacts@.len() == 0
    &&& steps[i].loaded.definition.next_task_dir is Some ==> named_artifacts(
        steps[i].loaded,
    ) == Some(text::views(outcome.handoff_artifacts@))
}

/// Whether a list holds what a task hands on: each of its artifacts, from its output directory.
pub open spec fn handed_on(list: Seq<HandoffArtifact>, task: LoadedTask) -> bool {
    named_artifacts(task) matches Some(artifacts) && list.len() == artifacts.len() && forall|i: int|
        0 <= i < list.len() ==> hands_off(#[trigger] list[i], task.output_dir@, artifacts[i])
}

impl ChainRun {
    /// The position of the current task.
    pub open spec fn at(self) -> int {
        self.result.steps@.len() as int
    }

    /// The current task, as it was loaded.
    pub open spec fn task(self) -> LoadedTask {
        self.steps@[self.at()].loaded
    }

    /// Whether the task before the current one has handed something on.
    pub open spec fn was_handed(self) -> bool {
        self.at() > 0 && self.steps@[self.at() - 1].loaded.definition.next_task_dir is Some
    }

    pub open spec fn wf(self) -> bool {
        &&& self.result.steps@.len() <= self.steps@.len()
        &&& self.stage is Finished ==> self.result.steps@.len() == self.steps@.len()
        &&& !(self.stage is Finished) ==> self.result.steps@.len() < self.steps@.len()
        &&& self.pending is Some <==> self.stage is HandingOff
        &&& self.stage is HandingOff
            ==> self.steps@[self.at()].loaded.definition.next_task_dir is Some
        &&& self.handoff is Some <==> self.stage is Overlaying
        &&& self.stage is Overlaying ==> self.was_handed() && handed_on(
            self.handoff->0@,
            self.steps@[self.at() - 1].loaded,
        )
        &&& self.overlay is Some <==> self.stage is Running && self.was_handed()
        &&& forall|i: int|
            0 <= i < self.result.steps@.len() ==> step_outcome(
                #[trigger] self.result.steps@[i],
                self.steps@,
                i,
            )
    }

    fn announce(&mut self)
        requires
            old(self).result.steps@.len() < old(self).steps@.len(),
        ensures
            *final(self) == (ChainRun { progress: final(self).progress, ..*old(self) }),
            match old(self).progress {
                None => final(self).progress is None,
                Some(events) => final(self).progress matches Some(now) && now@.len() == events@.len()
                    + 1 && now@.drop_last() == events@ && says_started(
                    now@.last(),
                    old(self).steps@,
                    old(self).at(),
                ),
            },
    {
        let i: usize = self.result.steps.len();
        let total: usize = self.steps.len();
        let event = ChainStepProgress::StepStarted {
            step_index: i + 1,
            total_steps: total,
            task_dir: self.steps[i].task_dir.clone(),
            task_name: self.steps[i].loaded.definition.name.clone(),
        };
        let ghost said = event;
        send_chain_step(&mut self.progress, event);
        proof {
            if let Some(events) = old(self).progress {
                assert(events@.push(said).drop_last() =~= events@);
            }
        }
    }

    /// Starts a chain with its first task.
    pub fn run_task_chain_blocking_with_progress(steps: Vec<ChainStepPlan>, listening: bool) -> (r:
        ChainRun)
        requires
            steps@.len() > 0,
        ensures
            r.wf(),
            r.steps == steps,
            r.stage is Running,
            r.result.steps@.len() == 0,
            if listening {
                r.progress matches Some(events) && events@.len() == 1 && says_started(
                    events@[0],
                    steps@,
                    0,
                )
            } else {
                r.progress is None
            },
    {
        let progress: Option<Vec<ChainStepProgress>> = if listening {
            Some(Vec::new())
        } else {
            None
        };
        let mut run = ChainRun {
            steps,
            stage: ChainStage::Running,
            handoff: None,
            overlay: None,
            pending: None,
            result: ChainRunResult::default(),
            progress,
        };
        run.announce();
        run
    }

    /// Takes what was said since the last time.
    pub fn take_progress(&mut self) -> (r: Vec<ChainStepProgress>)
        requires
            old(self).wf(),
        ensures
            final(self).wf(),
            *final(self) == (ChainRun { progress: final(self).progress, ..*old(self) }),
            match old(self).progress {
                Some(events) => r@ == events@ && (final(self).progress matches Some(now) && now@.len()
                    == 0),
                None => r@.len() == 0 && final(self).progress is None,
            },
    {
        match &mut self.progress {
            Some(events) => {
                let mut taken: Vec<ChainStepProgress> = Vec::new();
                taken.append(events);
                taken
            },
            None => Vec::new(),
        }
    }

    /// Goes on once the input directory of a task that something was handed to was to be made.
    pub fn overlay_made(&mut self, made: Result<String, Error>) -> (r: Result<(), Error>)
        requires
            old(self).wf(),
            old(self).stage is Overlaying,
        ensures
            final(self).wf(),
            match made {
                Err(err) => r == Err::<(), Error>(err) && *final(self) == *old(self),
                Ok(dir) => r is Ok && *final(self) == (ChainRun {
                    stage: ChainStage::Running,
                    handoff: None,
                    overlay: Some(dir),
                    ..*old(self)
                }),
            },
    {
        match made {
            Err(err) => Err(err),
            Ok(dir) => {
                self.stage = ChainStage::Running;
                self.handoff = None;
                self.overlay = Some(dir);
                Ok(())
            },
        }
    }

    /// The task to run: the current one, with the input directory made for it where something was
    /// handed to it, and else with its own.
    pub fn task_to_run(&self) -> (r: LoadedTask)
        requires
            self.wf(),
            self.stage is Running,
        ensures
            runs_as(r, *self),
            task::same_definition(r.definition, self.task().definition),
            r.input_dir@ == (if self.was_handed() {
                self.overlay->0@
            } else {
                self.task().input_dir@
            }),
            r.output_dir == self.task().output_dir,
            r.logs_dir == self.task().logs_dir,
    {
        let loaded = &self.steps[self.result.steps.len()].loaded;
        let input_dir = match &self.overlay {
            Some(dir) => dir.clone(),
            None => loaded.input_dir.clone(),
        };
        loaded.with_input_dir(input_dir)
    }

    fn record_step(
        &mut self,
        run_result: RunResult,
        handoff_artifacts: Vec<String>,
        handoff: Option<Vec<HandoffArtifact>>,
    )
        requires
            old(self).result.steps@.len() < old(self).steps@.len(),
            old(self).pending is None,
            old(self).overlay is None,
            handoff is Some <==> old(self).task().definition.next_task_dir is Some,
            handoff is Some ==> handed_on(handoff->0@, old(self).task()),
            forall|i: int|
                0 <= i < old(self).result.steps@.len() ==> step_outcome(
                    #[trigger] old(self).result.steps@[i],
                    old(self).steps@,
                    i,
                ),
            old(self).steps@[old(self).at()].loaded.definition.next_task_dir is None
                ==> handoff_artifacts@.len() == 0,
            old(self).steps@[old(self).at()].loaded.definition.next_task_dir is Some
                ==> named_artifacts(old(self).steps@[old(self).at()].loaded) == Some(
                text::views(handoff_artifacts@),
            ),
        ensures
            final(self).wf(),
            final(self).recorded(*old(self), run_result, handoff is Some),
            final(self).result.steps@.last().handoff_artifacts == handoff_artifacts,
    {
        let i: usize = self.result.steps.len();
        let total: usize = self.steps.len();
        let outcome = ChainStepResult {
            task_dir: self.steps[i].task_dir.clone(),
            task_name: self.steps[i].loaded.definition.name.clone(),
            handoff_artifacts,
            run_result,
        };
        self.result.steps.push(outcome);
        assert(self.result.steps@.drop_last() =~= old(self).result.steps@);
        if i + 1 == total {
            self.stage = ChainStage::Finished;
            self.handoff = None;
        } else {
            self.stage = if handoff.is_some() {
                ChainStage::Overlaying
            } else {
                ChainStage::Running
            };
            self.handoff = handoff;
            self.announce();
        }
    }

    /// Whether the current task of `before` is recorded with its outcome, and the next one is
    /// started if there is one. With `handing`, the next one first needs an input directory for
    /// what was handed to it.
    pub open spec fn recorded(self, before: ChainRun, run_result: RunResult, handing: bool) -> bool {
        &&& self.steps == before.steps
        &&& self.result.steps@.len() == before.result.steps@.len() + 1
        &&& self.result.steps@.drop_last() == before.result.steps@
        &&& self.result.steps@.last().run_result == run_result
        &&& if self.result.steps@.len() == self.steps@.len() {
            self.stage is Finished && self.progress == before.progress
        } else {
            &&& self.stage == (if handing {
                ChainStage::Overlaying
            } else {
                ChainStage::Running
            })
            &&& match before.progress {
                None => self.progress is None,
                Some(events) => self.progress matches Some(now) && now@.len() == events@.len() + 1
                    && now@.drop_last() == events@ && says_started(
                    now@.last(),
                    self.steps@,
                    self.at(),
                ),
            }
        }
    }

    /// Goes on once the current task has run. A task that fails ends the chain; one that has a
    /// successor hands its artifacts on first.
    pub fn task_ran(&mut self, reply: Result<RunResult, Error>) -> (r: Result<(), Error>)
        requires
            old(self).wf(),
            old(self).stage is Running,
        ensures
            final(self).wf(),
            final(self).steps == old(self).steps,
            after_task(r, *old(self), *final(self), reply),
            match reply {
                Err(cause) => {
                    &&& r matches Err(err) && err.is_runtime(
                        "Task chain failed at "@ + old(self).steps@[old(self).at()].task_dir@
                            + ": "@ + cause.text(),
                    )
                    &&& *final(self) == *old(self)
                },
                Ok(run_result) => {
                    &&& r is Ok
                    &&& if old(self).steps@[old(
                        self).at()].loaded.definition.next_task_dir is Some {
                        *final(self) == (ChainRun {
                            stage: ChainStage::HandingOff,
                            overlay: None,
                            pending: Some(run_result),
                            ..*old(self)
                        })
                    } else {
                        final(self).recorded(*old(self), run_result, false)
                    }
                },
            },
    {
        let i: usize = self.result.steps.len();
        match reply {
            Err(cause) => {
                let cause = cause.describe();
                Err(
                    runtime(
                        text::cat4(
                            "Task chain failed at ",
                            self.steps[i].task_dir.as_str(),
                            ": ",
                            cause.as_str(),
                        ),
                    ),
                )
            },
            Ok(run_result) => {
                self.overlay = None;
                if self.steps[i].loaded.definition.next_task_dir.is_some() {
                    self.stage = ChainStage::HandingOff;
                    self.pending = Some(run_result);
                } else {
                    self.record_step(run_result, Vec::new(), None);
                }
                Ok(())
            },
        }
    }

    /// Goes on once it is known what the paths of the current task's artifacts lead to.
    pub fn handed_off(&mut self, kinds: &[PathKind]) -> (r: Result<(), Error>)
        requires
            old(self).wf(),
            old(self).stage is HandingOff,
        ensures
            final(self).wf(),
            match named_artifacts(old(self).task()) {
                None => *final(self) == *old(self) && (r matches Err(err) && err.is_runtime(
                    "Task "@ + dir_label(old(self).task())
                        + " declares next_task_dir but has no artifacts to hand off"@,
                )),
                Some(artifacts) => match handoffs_fault(artifacts, kinds@) {
                    Some(fault) => *final(self) == *old(self) && (r matches Err(err) && tells(
                        err,
                        fault,
                    )),
                    None => {
                        &&& r is Ok
                        &&& final(self).recorded(*old(self), old(self).pending->0, true)
                        &&& text::views(final(self).result.steps@.last().handoff_artifacts@)
                            == artifacts
                    },
                },
            },
    {
        let i: usize = self.result.steps.len();
        let list = match collect_handoff_artifacts(&self.steps[i].loaded, kinds) {
            Ok(list) => list,
            Err(err) => return Err(err),
        };
        let names = handoff_names(&list);
        proof {
            let artifacts = named_artifacts(self.steps@[i as int].loaded)->0;
            assert(text::views(names@) =~= artifacts);
        }
        if let Some(run_result) = self.pending.take() {
            self.record_step(run_result, names, Some(list));
        }
        Ok(())
    }
}

/// The names of what is handed on.
fn handoff_names(list: &Vec<HandoffArtifact>) -> (r: Vec<String>)
    ensures
        r@.len() == list@.len(),
        forall|i: int| 0 <= i < r@.len() ==> (#[trigger] r@[i])@ == list@[i].relative_path@,
{
    let mut names: Vec<String> = Vec::new();
    let mut i: usize = 0;
    while i < list.len()
        invariant
            i <= list.len(),
            names@.len() == i,
            forall|j: int| 0 <= j < i ==> (#[trigger] names@[j])@ == list@[j].relative_path@,
        decreases list.len() - i,
    {
        names.push(list[i].relative_path.clone());
        i = i + 1;
    }
    names
}

/// A chain visits no directory twice, at any time while it is followed.
pub proof fn law_chain_has_no_cycle(planner: ChainPlanner, i: int, j: int)
    requires
        planner.loaded_wf(),
        0 <= i < j < planner.steps@.len(),
    ensures
        planner.steps@[i].task_dir@ != planner.steps@[j].task_dir@,
{
    assert(dirs_of(planner.steps@)[i] == planner.steps@[i].task_dir@);
    assert(dirs_of(planner.steps@)[j] == planner.steps@[j].task_dir@);
}

/// What a task hands on reaches the next one: a task runs with an input directory made for it
/// exactly if the task before it names a next one, and what that directory is made of are the
/// artifacts of the task before it, each from that task's output.
pub proof fn law_handoff_reaches_the_next_task(run: ChainRun)
    requires
        run.wf(),
    ensures
        run.stage is Running ==> (run.overlay is Some <==> run.at() > 0 && run.steps@[run.at()
            - 1].loaded.definition.next_task_dir is Some),
        run.handoff matches Some(list) ==> run.at() > 0 && handed_on(
            list@,
            run.steps@[run.at() - 1].loaded,
        ),
{
}

/// At every moment the outcomes of a chain are those of its first tasks in their order, and a task
/// has handed something on exactly if it has a successor and names artifacts.
pub proof fn law_chain_outcomes_in_order(run: ChainRun, i: int)
    requires
        run.wf(),
        0 <= i < run.result.steps@.len(),
    ensures
        i < run.steps@.len(),
        run.result.steps@[i].task_dir@ == run.steps@[i].task_dir@,
        run.result.steps@[i].handoff_artifacts@.len() > 0
            <==> run.steps@[i].loaded.definition.next_task_dir is Some,
{
    assert(step_outcome(run.result.steps@[i], run.steps@, i));
    let outcome = run.result.steps@[i];
    assert(text::views(outcome.handoff_artifacts@).len() == outcome.handoff_artifacts@.len());
}

/// An artifact is handed on from the output of the task that made it, under the path that the task
/// names it by.
pub proof fn law_artifact_is_handed_on_under_its_path(
    handoff: HandoffArtifact,
    output_dir: Seq<char>,
    artifact: Seq<char>,
)
    requires
        hands_off(handoff, output_dir, artifact),
        paths::relative_path_fault(artifact, "artifact"@, false) is None,
    ensures
        output_dir.is_prefix_of(handoff.source_path@),
        handoff.relative_path@.is_suffix_of(handoff.source_path@),
        handoff.relative_path@ == artifact,
{
    path::lemma_joined_ends(output_dir, artifact);
}

/// An artifact can be handed on exactly if its path is one that stays inside the output and there
/// is something at it; one that is not there is named.
pub proof fn law_missing_artifact_is_named(artifact: Seq<char>, kind: PathKind)
    ensures
        handoff_fault(artifact, kind) is None <==> paths::relative_path_fault(
            artifact,
            "artifact"@,
            false,
        ) is None && !(kind is Missing),
        handoff_fault(artifact, kind) matches Some(fault) ==> {
            ||| fault == (HandoffFault::Missing { file: artifact }) && kind is Missing
            ||| fault is Path && paths::relative_path_fault(artifact, "artifact"@, false) == Some(
                fault->message,
            )
        },
{
}

/// A task names artifacts exactly if it lists at least one.
pub proof fn law_named_artifacts_are_those_listed(task: LoadedTask)
    ensures
        named_artifacts(task) is Some <==> task.definition.artifacts is Some
            && task.definition.artifacts->0@.len() > 0,
        named_artifacts(task) matches Some(list) ==> list.len() == task.definition.artifacts->0@.len()
            && forall|i: int|
            0 <= i < list.len() ==> #[trigger] list[i] == task.definition.artifacts->0@[i]@,
{
}

/// The message for a chain that comes back to a task names the task's directory.
pub proof fn law_cycle_is_named(dir: Seq<char>)
    ensures
        ("Task chain cycle detected at "@).is_prefix_of(cycle_message(dir)),
        dir.is_suffix_of(cycle_message(dir)),
{
    let message = cycle_message(dir);
    let head = "Task chain cycle detected at "@;
    assert(head =~= message.subrange(0, head.len() as int));
    assert(dir =~= message.subrange(message.len() - dir.len(), message.len() as int));
}

/// The steps of a chain are counted from 1, and each is told with its own directory and name.
pub proof fn law_started_step_is_told(
    event: ChainStepProgress,
    steps: Seq<ChainStepPlan>,
    i: int,
)
    requires
        0 <= i < steps.len(),
        says_started(event, steps, i),
    ensures
        1 <= event->step_index <= event->total_steps,
        event->total_steps == steps.len(),
        steps[event->step_index - 1].task_dir@ == event->task_dir@,
        text::opt_view(event->task_name) == text::opt_view(
            steps[event->step_index - 1].loaded.definition.name,
        ),
{
}

/// Whether `r` is what is decided on an artifact's place in the overlay directory.
pub open spec fn is_place(
    r: Result<String, Error>,
    overlay_dir: Seq<char>,
    artifact: HandoffArtifact,
    is_taken: bool,
) -> bool {
    let place = path::joined(overlay_dir, artifact.relative_path@);
    match r {
        Ok(destination) => !is_taken && destination@ == place,
        Err(err) => is_taken && err.is_runtime(
            "Artifact handoff conflict: "@ + place + " already exists in downstream input"@,
        ),
    }
}

/// An artifact is put into the overlay directory under the path that it had in the output, unless
/// the task has a file of its own there; the message then names the place.
pub proof fn law_artifact_keeps_its_path(
    r: Result<String, Error>,
    overlay_dir: Seq<char>,
    artifact: HandoffArtifact,
    output_dir: Seq<char>,
    name: Seq<char>,
    is_taken: bool,
)
    requires
        hands_off(artifact, output_dir, name),
        paths::relative_path_fault(name, "artifact"@, false) is None,
        is_place(r, overlay_dir, artifact, is_taken),
    ensures
        r is Ok <==> !is_taken,
        r matches Ok(place) ==> overlay_dir.is_prefix_of(place@) && name.is_suffix_of(place@)
            && name.is_suffix_of(artifact.source_path@),
        r matches Err(err) ==> err is Runtime && ("Artifact handoff conflict: "@).is_prefix_of(
            err->Runtime_message@,
        ) && text::occurs_in(path::joined(overlay_dir, name), err->Runtime_message@) && (
        " already exists in downstream input"@).is_suffix_of(err->Runtime_message@),
{
    path::lemma_joined_ends(overlay_dir, name);
    path::lemma_joined_ends(output_dir, name);
    text::lemma_ends(
        "Artifact handoff conflict: "@,
        path::joined(overlay_dir, name),
        " already exists in downstream input"@,
    );
}

/// Whether `r` and the planner are what follows on the loading of a task.
pub open spec fn after_load(
    r: Result<ChainStep, Error>,
    before: ChainPlanner,
    after: ChainPlanner,
    reply: Result<LoadedTask, String>,
) -> bool {
    match reply {
        Err(reason) => r is Err && after.steps == before.steps,
        Ok(loaded) => {
            &&& after.steps@.len() == before.steps@.len() + 1
            &&& after.steps@.drop_last() == before.steps@
            &&& after.steps@.last().task_dir@ == before.current@
            &&& after.steps@.last().loaded == loaded
            &&& match loaded.definition.next_task_dir {
                None => r == Ok::<ChainStep, Error>(ChainStep::Complete),
                Some(next) => match paths::relative_path_fault(next@, "next_task_dir"@, true) {
                    Some(message) => r matches Err(err) && err.is_runtime(message),
                    None => r matches Ok(ChainStep::Resolve { candidate }) && candidate@
                        == path::joined(before.current@, next@),
                },
            }
        },
    }
}

/// A chain ends exactly with a task that names no next one. The next one is looked for below the
/// directory of the task that names it; each task is planned with its own directory, behind those
/// before it.
pub proof fn law_chain_goes_where_its_tasks_say(
    r: Result<ChainStep, Error>,
    before: ChainPlanner,
    after: ChainPlanner,
    loaded: LoadedTask,
)
    requires
        after_load(r, before, after, Ok(loaded)),
    ensures
        r matches Ok(step) && step is Complete <==> loaded.definition.next_task_dir is None,
        r is Ok && r->Ok_0 is Resolve ==> {
            let candidate = r->Ok_0->candidate@;
            let next = loaded.definition.next_task_dir->0@;
            &&& loaded.definition.next_task_dir is Some
            &&& before.current@.is_prefix_of(candidate)
            &&& next.is_suffix_of(candidate)
        },
        r is Err ==> loaded.definition.next_task_dir is Some,
        after.steps@.len() == before.steps@.len() + 1,
        after.steps@[before.steps@.len() as int].task_dir@ == before.current@,
        after.steps@[before.steps@.len() as int].loaded == loaded,
        forall|i: int| 0 <= i < before.steps@.len() ==> after.steps@[i] == #[trigger] before.steps@[i],
{
    if let Some(next) = loaded.definition.next_task_dir {
        path::lemma_joined_ends(before.current@, next@);
    }
    assert forall|i: int| 0 <= i < before.steps@.len() implies after.steps@[i]
        == #[trigger] before.steps@[i] by {
        assert(after.steps@.drop_last()[i] == after.steps@[i]);
    }
}

/// Whether `r` and the planner are what follows on the look-up of the next task's directory.
pub open spec fn after_lookup(
    r: Result<(), Error>,
    before: ChainPlanner,
    after: ChainPlanner,
    canonical: Result<String, String>,
    has_task: bool,
) -> bool {
    match canonical {
        Err(reason) => r is Err,
        Ok(dir) => if !has_task || dirs_of(before.steps@).contains(dir@) {
            r is Err
        } else {
            r is Ok && after.current == dir && after.steps == before.steps
        },
    }
}

/// A chain goes on to a directory exactly if it can be resolved, holds a task, and was not visited
/// before.
pub proof fn law_chain_goes_on_to_new_tasks(
    r: Result<(), Error>,
    before: ChainPlanner,
    after: ChainPlanner,
    canonical: Result<String, String>,
    has_task: bool,
)
    requires
        after_lookup(r, before, after, canonical, has_task),
    ensures
        r is Ok <==> canonical is Ok && has_task && forall|i: int|
            0 <= i < before.steps@.len() ==> (#[trigger] before.steps@[i]).task_dir@
                != canonical->Ok_0@,
        r is Ok ==> after.current@ == canonical->Ok_0@ && after.steps == before.steps,
{
    if let Ok(dir) = canonical {
        let dirs = dirs_of(before.steps@);
        if dirs.contains(dir@) {
            let i = choose|i: int| 0 <= i < dirs.len() && dirs[i] == dir@;
            assert(before.steps@[i].task_dir@ == dir@);
        } else {
            assert forall|i: int| 0 <= i < before.steps@.len() implies (
            #[trigger] before.steps@[i]).task_dir@ != dir@ by {
                assert(dirs[i] == before.steps@[i].task_dir@);
            }
        }
    }
}

/// Whether `task` is the task that a chain runs.
pub open spec fn runs_as(task: LoadedTask, run: ChainRun) -> bool {
    &&& task::same_definition(task.definition, run.task().definition)
    &&& task.input_dir@ == (if run.was_handed() {
        run.overlay->0@
    } else {
        run.task().input_dir@
    })
    &&& task.output_dir == run.task().output_dir
    &&& task.logs_dir == run.task().logs_dir
}

/// A task of a chain runs with its own commands and into its own output, on its own input unless
/// something was handed to it; then on the directory that was made for that.
pub proof fn law_task_of_a_chain_runs_as_its_own(task: LoadedTask, run: ChainRun)
    requires
        run.wf(),
        run.stage is Running,
        runs_as(task, run),
    ensures
        ({
            let step = run.steps@[run.result.steps@.len() as int];
            &&& task.definition.commands@ == step.loaded.definition.commands@
            &&& task.definition.next_task_dir == step.loaded.definition.next_task_dir
            &&& task.output_dir@ == step.loaded.output_dir@
            &&& task.logs_dir@ == step.loaded.logs_dir@
            &&& run.overlay matches Some(dir) ==> task.input_dir@ == dir@
            &&& run.overlay is None ==> task.input_dir@ == step.loaded.input_dir@
        }),
{
}

/// Whether `r` and the chain are what follows once the current task has run.
pub open spec fn after_task(
    r: Result<(), Error>,
    before: ChainRun,
    after: ChainRun,
    reply: Result<RunResult, Error>,
) -> bool {
    match reply {
        Err(cause) => {
            &&& r matches Err(err) && err.is_runtime(
                "Task chain failed at "@ + before.steps@[before.at()].task_dir@ + ": "@
                    + cause.text(),
            )
            &&& after == before
        },
        Ok(run_result) => {
            &&& r is Ok
            &&& if before.steps@[before.at()].loaded.definition.next_task_dir is Some {
                after.stage is HandingOff && after.pending == Some(run_result) && after.result
                    == before.result
            } else {
                after.recorded(before, run_result, false)
            }
        },
    }
}

/// A task that fails ends its chain, and the error names the task and the reason. One that
/// succeeds is recorded with its own result, once its artifacts are handed on where it has a
/// successor.
pub proof fn law_failed_task_ends_its_chain(
    r: Result<(), Error>,
    before: ChainRun,
    after: ChainRun,
    reply: Result<RunResult, Error>,
)
    requires
        before.wf(),
        before.stage is Running,
        after_task(r, before, after, reply),
    ensures
        r is Ok <==> reply is Ok,
        reply matches Err(cause) ==> {
            let message = r->Err_0->Runtime_message@;
            &&& r->Err_0 is Runtime
            &&& text::occurs_in(before.steps@[before.result.steps@.len() as int].task_dir@, message)
            &&& cause.text().is_suffix_of(message)
            &&& after.result == before.result
        },
        reply matches Ok(run_result) ==> {
            let step = before.steps@[before.result.steps@.len() as int];
            &&& step.loaded.definition.next_task_dir is Some ==> after.stage is HandingOff
                && after.pending == Some(run_result)
            &&& step.loaded.definition.next_task_dir is None ==> after.result.steps@.len()
                == before.result.steps@.len() + 1 && after.result.steps@.last().run_result
                == run_result
        },
{
    if let Err(cause) = reply {
        let message = r->Err_0->Runtime_message@;
        let dir = before.steps@[before.at()].task_dir@;
        let head = "Task chain failed at "@;
        text::lemma_occurs_between(head, dir, ": "@ + cause.text());
        assert(head + dir + (": "@ + cause.text()) =~= message);
        let n = message.len() as int;
        assert(cause.text() =~= message.subrange(n - cause.text().len(), n));
    }
}

} // verus!
