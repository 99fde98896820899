//! Running a command in a confined child: validating the request, locating
//! the image's root filesystem, and the ordered steps that the child takes.
use vstd::prelude::*;
use crate::text::child_path;
use crate::image::{image_error, tag_given, ImageError, ImageReference};

verus! {

/// A validated request to run a command in an image.
pub struct RunRequest {
    pub command: String,
    pub args: Vec<String>,
    pub image: ImageReference,
}

/// Why a run request is refused before any process or kernel work.
#[derive(Debug, Clone, Copy, PartialEq, Eq, Structural)]
pub enum RunError {
    /// The image reference does not name a tag.
    MissingTag,
    /// No command was given.
    EmptyCommand,
    /// The image reference does not parse.
    InvalidImage(ImageError),
}

/// The refusal, if any, of a run of `params` in `image`; the tag is checked
/// first, then the command, then the rest of the reference.
pub open spec fn run_error(params: Seq<String>, image: Seq<char>) -> Option<RunError> {
    if !tag_given(image) {
        Some(RunError::MissingTag)
    } else if params.len() == 0 {
        Some(RunError::EmptyCommand)
    } else {
        match image_error(image) {
            Some(e) => Some(RunError::InvalidImage(e)),
            None => None,
        }
    }
}

/// Validates a run request: `params` is the command followed by its
/// arguments, `image` a reference that must name its tag.
pub fn validate_run(params: &Vec<String>, image: &str) -> (r: Result<RunRequest, RunError>)
    ensures
        match r {
            Ok(req) => {
                &&& run_error(params@, image@).is_none()
                &&& req.command == params@[0]
                &&& req.args@ == params@.skip(1)
                &&& req.image.parsed_from(image@)
                &&& req.image.wf()
            },
            Err(e) => run_error(params@, image@) == Some(e),
        },
{
    if !crate::image::has_tag(image) {
        return Err(RunError::MissingTag);
    }
    if params.len() == 0 {
        return Err(RunError::EmptyCommand);
    }
    let img = match ImageReference::parse(image) {
        Ok(img) => img,
        Err(e) => return Err(RunError::InvalidImage(e)),
    };
    let mut args: Vec<String> = Vec::new();
    let mut i: usize = 1;
    while i < params.len()
        invariant
            1 <= i <= params@.len(),
            args@ == params@.subrange(1, i as int),
        decreases params@.len() - i,
    {
        args.push(params[i].clone());
        assert(params@.subrange(1, i + 1) == params@.subrange(1, i as int).push(params@[i as int]));
        i = i + 1;
    }
    assert(params@.subrange(1, params@.len() as int) == params@.skip(1));
    Ok(RunRequest { command: params[0].clone(), args, image: img })
}

/// A request whose image names no tag, or that holds no command, is
/// refused; the tag is looked at first.
pub proof fn lemma_refused_requests(params: Seq<String>, image: Seq<char>)
    ensures
        !tag_given(image) ==> run_error(params, image) == Some(RunError::MissingTag),
        tag_given(image) && params.len() == 0 ==> run_error(params, image) == Some(
            RunError::EmptyCommand,
        ),
        params.len() == 0 ==> run_error(params, image) is Some,
{
}

/// The root filesystem of `image` in the image store at `store`:
/// `store/repository/tag`.
pub fn rootfs_path(store: &str, image: &ImageReference) -> (r: String)
    ensures
        r@ == child_path(child_path(store@, image.repository@), image.tag@),
{
    let mut s = String::from_str(store);
    s.append("/");
    s.append(image.repository.as_str());
    s.append("/");
    s.append(image.tag.as_str());
    s
}

/// The hostname that the child sets in its own UTS namespace.
pub fn container_hostname() -> (r: &'static str)
    ensures
        r@ == "container"@,
{
    "container"
}

/// One variable of the command's environment.
pub struct EnvVar {
    pub name: String,
    pub value: String,
}

/// The whole environment of the confined command: the inherited one is
/// cleared and only these are set.
pub fn command_env() -> (r: Vec<EnvVar>)
    ensures
        r@.len() == 3,
        r@[0].name@ == "PATH"@,
        r@[0].value@ == "/usr/local/sbin:/usr/local/bin:/usr/sbin:/usr/bin:/sbin:/bin"@,
        r@[1].name@ == "TERM"@,
        r@[1].value@ == "xterm"@,
        r@[2].name@ == "HOME"@,
        r@[2].value@ == "/root"@,
{
    let mut v: Vec<EnvVar> = Vec::new();
    v.push(
        EnvVar {
            name: String::from_str("PATH"),
            value: String::from_str("/usr/local/sbin:/usr/local/bin:/usr/sbin:/usr/bin:/sbin:/bin"),
        },
    );
    v.push(EnvVar { name: String::from_str("TERM"), value: String::from_str("xterm") });
    v.push(EnvVar { name: String::from_str("HOME"), value: String::from_str("/root") });
    v
}

/// The steps that the confined child takes, in this order.
#[derive(Debug, Clone, Copy, PartialEq, Eq, Structural)]
pub enum Step {
    /// Create the cgroup, apply its limits and enroll the child itself.
    EnrollCgroup,
    /// Set the hostname inside the new UTS namespace.
    SetHostname,
    /// Check that the image's root filesystem is in the image store.
    CheckRoot,
    /// Change root to it and the working directory to `/`.
    SwitchRoot,
    /// Mount the process-information filesystem at `/proc`.
    MountProc,
    /// Spawn the command with its curated environment.
    SpawnCommand,
    /// Relay the command's output and wait for it to end.
    AwaitCommand,
    /// Unmount `/proc`.
    UnmountProc,
}

/// Where the child stands.
#[derive(Debug, Clone, Copy, PartialEq, Eq, Structural)]
pub enum Stage {
    /// The step to take next.
    Perform(Step),
    /// Done: the child exits with this code.
    Exit(i32),
    /// The step failed: the child exits with a failure code.
    Abort(Step),
}

/// What came of the step just taken.
#[derive(Debug, Clone, Copy, PartialEq, Eq, Structural)]
pub enum StepEvent {
    Done,
    Failed,
    /// The command ended, with its exit code if it has one.
    CommandExited(Option<i32>),
}

/// The exit code of a child that aborted.
pub open spec fn abort_code() -> i32 {
    1
}

/// Position of a step in the order.
pub open spec fn step_index(s: Step) -> nat {
    match s {
        Step::EnrollCgroup => 0,
        Step::SetHostname => 1,
        Step::CheckRoot => 2,
        Step::SwitchRoot => 3,
        Step::MountProc => 4,
        Step::SpawnCommand => 5,
        Step::AwaitCommand => 6,
        Step::UnmountProc => 7,
    }
}

/// The step that follows `s` when it succeeds (the last one has none).
pub open spec fn successor(s: Step) -> Option<Step> {
    match s {
        Step::EnrollCgroup => Some(Step::SetHostname),
        Step::SetHostname => Some(Step::CheckRoot),
        Step::CheckRoot => Some(Step::SwitchRoot),
        Step::SwitchRoot => Some(Step::MountProc),
        Step::MountProc => Some(Step::SpawnCommand),
        Step::SpawnCommand => Some(Step::AwaitCommand),
        Step::AwaitCommand => Some(Step::UnmountProc),
        Step::UnmountProc => None,
    }
}

/// The event with which step `s` succeeds: the command exiting with code 0
/// for the wait, `Done` for every other step.
pub open spec fn success_event(s: Step) -> StepEvent {
    if s == Step::AwaitCommand {
        StepEvent::CommandExited(Some(0))
    } else {
        StepEvent::Done
    }
}

/// The stage after `stage` when `ev` happens. A failing step aborts; a
/// command that exits unsuccessfully ends the child at once with its code
/// (1 when it has none), without unmounting `/proc`; after the unmount the
/// child exits with 0. An event that does not belong to the step aborts it.
/// The end stages stay as they are.
pub open spec fn next_stage_spec(stage: Stage, ev: StepEvent) -> Stage {
    match stage {
        Stage::Perform(s) => {
            if s == Step::AwaitCommand {
                match ev {
                    StepEvent::CommandExited(Some(c)) => if c == 0 {
                        Stage::Perform(Step::UnmountProc)
                    } else {
                        Stage::Exit(c)
                    },
                    StepEvent::CommandExited(None) => Stage::Exit(1),
                    _ => Stage::Abort(s),
                }
            } else if ev == StepEvent::Done {
                match successor(s) {
                    Some(t) => Stage::Perform(t),
                    None => Stage::Exit(0),
                }
            } else {
                Stage::Abort(s)
            }
        },
        _ => stage,
    }
}

/// The child's first stage.
pub fn first_stage() -> (r: Stage)
    ensures
        r == Stage::Perform(Step::EnrollCgroup),
{
    Stage::Perform(Step::EnrollCgroup)
}

fn successor_of(s: Step) -> (r: Option<Step>)
    ensures
        r == successor(s),
{
    match s {
        Step::EnrollCgroup => Some(Step::SetHostname),
        Step::SetHostname => Some(Step::CheckRoot),
        Step::CheckRoot => Some(Step::SwitchRoot),
        Step::SwitchRoot => Some(Step::MountProc),
        Step::MountProc => Some(Step::SpawnCommand),
        Step::SpawnCommand => Some(Step::AwaitCommand),
        Step::AwaitCommand => Some(Step::UnmountProc),
        Step::UnmountProc => None,
    }
}

/// Advances the child's lifecycle by one event.
pub fn next_stage(stage: Stage, ev: StepEvent) -> (r: Stage)
    ensures
        r == next_stage_spec(stage, ev),
{
    match stage {
        Stage::Perform(s) => {
            if s == Step::AwaitCommand {
                match ev {
                    StepEvent::CommandExited(Some(c)) => if c == 0 {
                        Stage::Perform(Step::UnmountProc)
                    } else {
                        Stage::Exit(c)
                    },
                    StepEvent::CommandExited(None) => Stage::Exit(1),
                    _ => Stage::Abort(s),
                }
            } else {
                match ev {
                    StepEvent::Done => match successor_of(s) {
                        Some(t) => Stage::Perform(t),
                        None => Stage::Exit(0),
                    },
                    _ => Stage::Abort(s),
                }
            }
        },
        _ => stage,
    }
}

/// The exit code of the child at an end stage.
pub fn exit_code(stage: Stage) -> (r: i32)
    ensures
        r == match stage {
            Stage::Exit(c) => c,
            _ => abort_code(),
        },
{
    match stage {
        Stage::Exit(c) => c,
        _ => 1,
    }
}

/// The stage after a sequence of events.
pub open spec fn drive(stage: Stage, evs: Seq<StepEvent>) -> Stage
    decreases evs.len(),
{
    if evs.len() == 0 {
        stage
    } else {
        drive(next_stage_spec(stage, evs[0]), evs.drop_first())
    }
}

/// The step at a position of the order.
pub open spec fn step_at(i: nat) -> Step {
    if i == 0 {
        Step::EnrollCgroup
    } else if i == 1 {
        Step::SetHostname
    } else if i == 2 {
        Step::CheckRoot
    } else if i == 3 {
        Step::SwitchRoot
    } else if i == 4 {
        Step::MountProc
    } else if i == 5 {
        Step::SpawnCommand
    } else if i == 6 {
        Step::AwaitCommand
    } else {
        Step::UnmountProc
    }
}

/// An end stage stays as it is, whatever happens after it.
pub proof fn lemma_end_stage_stays(stage: Stage, evs: Seq<StepEvent>)
    requires
        !(stage is Perform),
    ensures
        drive(stage, evs) == stage,
    decreases evs.len(),
{
    if evs.len() > 0 {
        lemma_end_stage_stays(stage, evs.drop_first());
    }
}

proof fn lemma_order_from(t: Step, s: Step, evs: Seq<StepEvent>)
    requires
        drive(Stage::Perform(t), evs) == Stage::Perform(s),
    ensures
        step_index(s) == step_index(t) + evs.len(),
        forall|i: int|
            0 <= i < evs.len() ==> #[trigger] evs[i] == success_event(
                step_at((step_index(t) + i) as nat),
            ),
    decreases evs.len(),
{
    if evs.len() > 0 {
        let next = next_stage_spec(Stage::Perform(t), evs[0]);
        if !(next is Perform) {
            lemma_end_stage_stays(next, evs.drop_first());
        } else {
            let t2 = next->Perform_0;
            lemma_order_from(t2, s, evs.drop_first());
            assert(step_index(t2) == step_index(t) + 1);
            assert(step_at(step_index(t)) == t);
            assert forall|i: int| 0 <= i < evs.len() implies #[trigger] evs[i] == success_event(
                step_at((step_index(t) + i) as nat),
            ) by {
                if i > 0 {
                    assert(evs[i] == evs.drop_first()[i - 1]);
                }
            }
        }
    }
}

/// The child reaches a step only after every earlier step has succeeded,
/// one after the other: cgroup enrollment, hostname, root check, root
/// switch, `/proc` mount, spawn, wait, unmount.
pub proof fn lemma_steps_in_order(evs: Seq<StepEvent>, s: Step)
    requires
        drive(Stage::Perform(Step::EnrollCgroup), evs) == Stage::Perform(s),
    ensures
        evs.len() == step_index(s),
        forall|i: int| 0 <= i < evs.len() ==> #[trigger] evs[i] == success_event(step_at(i as nat)),
{
    lemma_order_from(Step::EnrollCgroup, s, evs);
}

/// Every step is fatal on error: the child aborts at the step that failed,
/// and exits with a non-zero code.
pub proof fn lemma_failure_aborts(s: Step, evs: Seq<StepEvent>)
    ensures
        drive(Stage::Perform(s), seq![StepEvent::Failed] + evs) == Stage::Abort(s),
        abort_code() != 0,
{
    let all = seq![StepEvent::Failed] + evs;
    assert(all[0] == StepEvent::Failed);
    assert(all.drop_first() == evs);
    lemma_end_stage_stays(Stage::Abort(s), evs);
}

/// When every setup step succeeds, the child exits with the command's exit
/// code (1 when it has none); `/proc` is unmounted first only when the
/// command succeeded.
pub proof fn lemma_exit_code_propagates(code: Option<i32>)
    ensures
        ({
            let d = StepEvent::Done;
            let evs = seq![d, d, d, d, d, d, StepEvent::CommandExited(code), d];
            drive(Stage::Perform(Step::EnrollCgroup), evs) == match code {
                Some(c) => Stage::Exit(c),
                None => Stage::Exit(1),
            }
        }),
        drive(
            Stage::Perform(Step::EnrollCgroup),
            seq![
                StepEvent::Done,
                StepEvent::Done,
                StepEvent::Done,
                StepEvent::Done,
                StepEvent::Done,
                StepEvent::Done,
                StepEvent::CommandExited(code),
            ],
        ) == if code == Some(0i32) {
            Stage::Perform(Step::UnmountProc)
        } else {
            Stage::Exit(
                match code {
                    Some(c) => c,
                    None => 1,
                },
            )
        },
{
    reveal_with_fuel(drive, 9);
}

} // verus!
