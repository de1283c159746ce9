//! The run pipeline as a machine: from the state of a run and the outcome
//! of the last stage to the next state and the stage to perform next.
//!
//! The stages are build, archive, and then either a launch on the simulator
//! or export, locating the artifact, extracting it and deploying it to the
//! device. The first stage that fails ends the run.

use vstd::prelude::*;
use crate::apple::config::{ipa_choice, ConfigView};
use crate::apple::device::{DeviceView, RunError, RunErrorView};
use crate::apple::target::{PlatformError, PlatformErrorView};
use crate::env::Vars;
use crate::opts::{NoiseLevel, Profile};
use crate::process::{Command, CommandView, ProcessError, Resolution};

verus! {

/// What an [`Action`] holds, as sequences.
pub enum ActionView {
    Build { noise_level: NoiseLevel, profile: Profile },
    Archive { noise_level: NoiseLevel, profile: Profile },
    SimulatorRun { id: Seq<char> },
    Export { noise_level: NoiseLevel },
    LocateIpa { old: Seq<char>, new: Seq<char> },
    Unzip(CommandView),
    Deploy { non_interactive: bool, id: Seq<char> },
}

/// A stage for the caller to perform.
#[derive(Clone, Debug, PartialEq, Eq)]
pub enum Action {
    /// Build the target.
    Build { noise_level: NoiseLevel, profile: Profile },
    /// Archive the target.
    Archive { noise_level: NoiseLevel, profile: Profile },
    /// Launch the app on the simulator with this id.
    SimulatorRun { id: String },
    /// Export the archived target.
    Export { noise_level: NoiseLevel },
    /// Find out which of the two candidate paths of the artifact exist.
    LocateIpa { old: String, new: String },
    /// Run this command, which extracts the artifact, and wait for it.
    Unzip(Command),
    /// Install the app on the device with this id and start it under the
    /// debugger.
    Deploy { non_interactive: bool, id: String },
}

impl View for Action {
    type V = ActionView;

    open spec fn view(&self) -> ActionView {
        match self {
            Action::Build { noise_level, profile } => ActionView::Build {
                noise_level: *noise_level,
                profile: *profile,
            },
            Action::Archive { noise_level, profile } => ActionView::Archive {
                noise_level: *noise_level,
                profile: *profile,
            },
            Action::SimulatorRun { id } => ActionView::SimulatorRun { id: id@ },
            Action::Export { noise_level } => ActionView::Export { noise_level: *noise_level },
            Action::LocateIpa { old, new } => ActionView::LocateIpa { old: old@, new: new@ },
            Action::Unzip(command) => ActionView::Unzip(command@),
            Action::Deploy { non_interactive, id } => ActionView::Deploy {
                non_interactive: *non_interactive,
                id: id@,
            },
        }
    }
}

/// The line that tells the operator that a stage begins. The two launches
/// and the search for the artifact begin without a word.
pub open spec fn progress_line(action: ActionView) -> Option<Seq<char>> {
    match action {
        ActionView::Build { .. } => Some("Building app..."@),
        ActionView::Archive { .. } => Some("Archiving app..."@),
        ActionView::Export { .. } => Some("Exporting app..."@),
        ActionView::Unzip(_) => Some("Extracting IPA..."@),
        ActionView::SimulatorRun { .. } => None,
        ActionView::LocateIpa { .. } => None,
        ActionView::Deploy { .. } => None,
    }
}

impl Action {
    /// The line to print before this stage is performed, if it has one.
    pub fn announcement(&self) -> (res: Option<&'static str>)
        ensures
            match progress_line(self@) {
                Some(line) => res matches Some(text) && text@ == line,
                None => res is None,
            },
    {
        match self {
            Action::Build { .. } => Some("Building app..."),
            Action::Archive { .. } => Some("Archiving app..."),
            Action::Export { .. } => Some("Exporting app..."),
            Action::Unzip(_) => Some("Extracting IPA..."),
            Action::SimulatorRun { .. } => None,
            Action::LocateIpa { .. } => None,
            Action::Deploy { .. } => None,
        }
    }
}

/// The view of an action that may be absent.
pub open spec fn action_view(action: Option<Action>) -> Option<ActionView> {
    match action {
        Some(a) => Some(a@),
        None => None,
    }
}

/// What an [`Event`] holds, as sequences. A handle stands for itself.
pub enum EventView<H> {
    Begin,
    BuildEnded(Result<(), PlatformErrorView>),
    ArchiveEnded(Result<(), PlatformErrorView>),
    SimulatorRunEnded(Result<H, PlatformErrorView>),
    ExportEnded(Result<(), PlatformErrorView>),
    IpaProbed { old_exists: bool, new_exists: bool },
    UnzipEnded(Result<(), Seq<char>>),
    DeployEnded(Result<H, PlatformErrorView>),
}

/// What the caller reports: how the stage it was asked to perform ended.
/// `H` is the handle of a process that a launch leaves running.
#[derive(Debug, PartialEq, Eq)]
pub enum Event<H> {
    /// Nothing has been performed yet.
    Begin,
    BuildEnded(Result<(), PlatformError>),
    ArchiveEnded(Result<(), PlatformError>),
    SimulatorRunEnded(Result<H, PlatformError>),
    ExportEnded(Result<(), PlatformError>),
    /// Which of the two candidate paths of the artifact exist.
    IpaProbed { old_exists: bool, new_exists: bool },
    UnzipEnded(Result<(), ProcessError>),
    DeployEnded(Result<H, PlatformError>),
}

/// The view of an outcome: success as it is, failure by its view.
pub open spec fn outcome_view<A, E: View>(outcome: Result<A, E>) -> Result<A, E::V> {
    match outcome {
        Ok(a) => Ok(a),
        Err(e) => Err(e@),
    }
}

impl<H> View for Event<H> {
    type V = EventView<H>;

    open spec fn view(&self) -> EventView<H> {
        match self {
            Event::Begin => EventView::Begin,
            Event::BuildEnded(r) => EventView::BuildEnded(outcome_view(*r)),
            Event::ArchiveEnded(r) => EventView::ArchiveEnded(outcome_view(*r)),
            Event::SimulatorRunEnded(r) => EventView::SimulatorRunEnded(outcome_view(*r)),
            Event::ExportEnded(r) => EventView::ExportEnded(outcome_view(*r)),
            Event::IpaProbed { old_exists, new_exists } => EventView::IpaProbed {
                old_exists: *old_exists,
                new_exists: *new_exists,
            },
            Event::UnzipEnded(r) => EventView::UnzipEnded(outcome_view(*r)),
            Event::DeployEnded(r) => EventView::DeployEnded(outcome_view(*r)),
        }
    }
}

/// What a [`RunState`] holds, as sequences. A handle stands for itself.
pub enum RunStateView<H> {
    Start,
    Built,
    Archived,
    SimulatorDeployed(H),
    Exported,
    Unzipped,
    Deployed(H),
    Failed(RunErrorView),
}

/// How far a run has come. `SimulatorDeployed`, `Deployed` and `Failed` end
/// it: the first two hold the handle of the launched app, the last the
/// error of the stage that failed.
#[derive(Debug, PartialEq, Eq)]
pub enum RunState<H> {
    Start,
    Built,
    Archived,
    SimulatorDeployed(H),
    Exported,
    Unzipped,
    Deployed(H),
    Failed(RunError),
}

impl<H> View for RunState<H> {
    type V = RunStateView<H>;

    open spec fn view(&self) -> RunStateView<H> {
        match self {
            RunState::Start => RunStateView::Start,
            RunState::Built => RunStateView::Built,
            RunState::Archived => RunStateView::Archived,
            RunState::SimulatorDeployed(h) => RunStateView::SimulatorDeployed(*h),
            RunState::Exported => RunStateView::Exported,
            RunState::Unzipped => RunStateView::Unzipped,
            RunState::Deployed(h) => RunStateView::Deployed(*h),
            RunState::Failed(e) => RunStateView::Failed(e@),
        }
    }
}

impl<H> RunStateView<H> {
    /// Whether the run is over.
    pub open spec fn is_final(self) -> bool {
        self is SimulatorDeployed || self is Deployed || self is Failed
    }

    /// What the run came to, once it is over.
    pub open spec fn outcome(self) -> Option<Result<H, RunErrorView>> {
        match self {
            RunStateView::SimulatorDeployed(h) => Some(Ok(h)),
            RunStateView::Deployed(h) => Some(Ok(h)),
            RunStateView::Failed(e) => Some(Err(e)),
            _ => None,
        }
    }
}

impl<H> RunState<H> {
    /// What the run came to: the handle of the launched app or the error of
    /// the stage that failed, once the run is over; nothing before that.
    pub fn result(self) -> (res: Option<Result<H, RunError>>)
        ensures
            match self@.outcome() {
                None => res is None,
                Some(Ok(h)) => res == Some(Ok::<H, RunError>(h)),
                Some(Err(e)) => res matches Some(Err(err)) && err@ == e,
            },
    {
        match self {
            RunState::SimulatorDeployed(h) => Some(Ok(h)),
            RunState::Deployed(h) => Some(Ok(h)),
            RunState::Failed(e) => Some(Err(e)),
            _ => None,
        }
    }
}

/// The arguments of the extraction: the quiet flag unless the noise level is
/// the most verbose one, the overwrite flag always, then the artifact and
/// the directory to extract into.
pub open spec fn unzip_args(noise_level: NoiseLevel, artifact: Seq<char>, export_dir: Seq<char>)
    -> Seq<Seq<char>> {
    let flags = if noise_level.is_pedantic() {
        seq!["-o"@]
    } else {
        seq!["-q"@, "-o"@]
    };
    flags + seq![artifact, "-d"@, export_dir]
}

/// The command that extracts `artifact` into `export_dir`: `unzip`, found
/// on the search path, with `vars` as its environment.
pub open spec fn unzip_command(
    vars: Vars,
    noise_level: NoiseLevel,
    artifact: Seq<char>,
    export_dir: Seq<char>,
) -> CommandView {
    CommandView {
        program: "unzip"@,
        resolution: Resolution::SearchPath,
        args: unzip_args(noise_level, artifact, export_dir),
        env: vars,
    }
}

/// The command that extracts `artifact` into `export_dir`.
pub fn unzip(
    vars: Vec<(String, String)>,
    noise_level: NoiseLevel,
    artifact: String,
    export_dir: &str,
) -> (res: Command)
    ensures
        res@ == unzip_command(vars.deep_view(), noise_level, artifact@, export_dir@),
{
    let mut command = Command::on_search_path(String::from_str("unzip")).with_env_vars(vars);
    if !noise_level.pedantic() {
        command = command.with_arg(String::from_str("-q"));
    }
    let res = command.with_arg(String::from_str("-o")).with_arg(artifact).with_arg(
        String::from_str("-d"),
    ).with_arg(String::from_str(export_dir));
    assert(res@.args =~= unzip_args(noise_level, artifact@, export_dir@));
    res
}

/// Everything that stays the same throughout one run.
pub struct Setting<T> {
    pub device: DeviceView<T>,
    pub config: ConfigView,
    pub env: Vars,
    pub noise_level: NoiseLevel,
    pub non_interactive: bool,
    pub profile: Profile,
}

/// The stage that a state waits for; none once the run is over.
pub open spec fn pending_action<T, H>(setting: Setting<T>, state: RunStateView<H>) -> Option<
    ActionView,
> {
    match state {
        RunStateView::Start => Some(
            ActionView::Build { noise_level: setting.noise_level, profile: setting.profile },
        ),
        RunStateView::Built => Some(
            ActionView::Archive { noise_level: setting.noise_level, profile: setting.profile },
        ),
        RunStateView::Archived => Some(
            if setting.device.simulator {
                ActionView::SimulatorRun { id: setting.device.id }
            } else {
                ActionView::Export { noise_level: setting.noise_level }
            },
        ),
        RunStateView::Exported => Some(
            ActionView::LocateIpa { old: setting.config.ipa_old, new: setting.config.ipa_new },
        ),
        RunStateView::Unzipped => Some(
            ActionView::Deploy {
                non_interactive: setting.non_interactive,
                id: setting.device.id,
            },
        ),
        RunStateView::SimulatorDeployed(_) => None,
        RunStateView::Deployed(_) => None,
        RunStateView::Failed(_) => None,
    }
}

/// The state `next`, together with the stage it waits for.
pub open spec fn enter<T, H>(setting: Setting<T>, next: RunStateView<H>) -> (
    RunStateView<H>,
    Option<ActionView>,
) {
    (next, pending_action(setting, next))
}

/// The run fails with `error`; nothing more is to be performed.
pub open spec fn fail<H>(error: RunErrorView) -> (RunStateView<H>, Option<ActionView>) {
    (RunStateView::Failed(error), None)
}

/// One step of a run: the state that follows `state` once `event` has been
/// reported, and the stage to perform next, if any.
///
/// A stage that succeeded leads to the next state, a stage that failed to
/// `Failed` with the error of that stage. Once the artifact has been
/// located the state stays `Exported` and the extraction is asked for. An
/// event that does not report on the stage the state waits for changes
/// nothing: the state stays, and its stage is asked for again. A run that
/// is over stays as it is and asks for nothing.
pub open spec fn step<T, H>(setting: Setting<T>, state: RunStateView<H>, event: EventView<H>) -> (
    RunStateView<H>,
    Option<ActionView>,
) {
    match (state, event) {
        (RunStateView::Start, EventView::BuildEnded(Ok(_))) => enter(setting, RunStateView::Built),
        (RunStateView::Start, EventView::BuildEnded(Err(e))) => fail(RunErrorView::BuildFailed(e)),
        (RunStateView::Built, EventView::ArchiveEnded(Ok(_))) => enter(
            setting,
            RunStateView::Archived,
        ),
        (RunStateView::Built, EventView::ArchiveEnded(Err(e))) => fail(
            RunErrorView::ArchiveFailed(e),
        ),
        (RunStateView::Archived, EventView::SimulatorRunEnded(outcome)) => if setting.device.simulator {
            match outcome {
                Ok(handle) => (RunStateView::SimulatorDeployed(handle), None),
                Err(e) => fail(RunErrorView::SimulatorDeployFailed(e)),
            }
        } else {
            enter(setting, state)
        },
        (RunStateView::Archived, EventView::ExportEnded(outcome)) => if !setting.device.simulator {
            match outcome {
                Ok(_) => enter(setting, RunStateView::Exported),
                Err(e) => fail(RunErrorView::ExportFailed(e)),
            }
        } else {
            enter(setting, state)
        },
        (RunStateView::Exported, EventView::IpaProbed { old_exists, new_exists }) => match ipa_choice(
            setting.config,
            old_exists,
            new_exists,
        ) {
            Ok(artifact) => (
                RunStateView::Exported,
                Some(
                    ActionView::Unzip(
                        unzip_command(
                            setting.env,
                            setting.noise_level,
                            artifact,
                            setting.config.export_dir,
                        ),
                    ),
                ),
            ),
            Err((old, new)) => fail(RunErrorView::IpaMissing { old, new }),
        },
        (RunStateView::Exported, EventView::UnzipEnded(Ok(_))) => enter(
            setting,
            RunStateView::Unzipped,
        ),
        (RunStateView::Exported, EventView::UnzipEnded(Err(cause))) => fail(
            RunErrorView::UnzipFailed(cause),
        ),
        (RunStateView::Unzipped, EventView::DeployEnded(Ok(handle))) => (
            RunStateView::Deployed(handle),
            None,
        ),
        (RunStateView::Unzipped, EventView::DeployEnded(Err(e))) => fail(
            RunErrorView::DeployFailed(e),
        ),
        _ => enter(setting, state),
    }
}

/// The state of a run in which `events` have been reported one after
/// another, from the start.
pub open spec fn state_after<T, H>(setting: Setting<T>, events: Seq<EventView<H>>) -> RunStateView<
    H,
>
    decreases events.len(),
{
    if events.len() == 0 {
        RunStateView::Start
    } else {
        step(setting, state_after(setting, events.drop_last()), events.last()).0
    }
}

/// The stage that is asked for when the last of `events` has been
/// reported.
pub open spec fn action_after<T, H>(setting: Setting<T>, events: Seq<EventView<H>>) -> Option<
    ActionView,
> {
    if events.len() == 0 {
        None
    } else {
        step(setting, state_after(setting, events.drop_last()), events.last()).1
    }
}

/// Whether `event` reports on the stage that `state` waits for.
pub open spec fn reports_on<T, H>(
    setting: Setting<T>,
    state: RunStateView<H>,
    event: EventView<H>,
) -> bool {
    match (state, event) {
        (RunStateView::Start, EventView::BuildEnded(_)) => true,
        (RunStateView::Built, EventView::ArchiveEnded(_)) => true,
        (RunStateView::Archived, EventView::SimulatorRunEnded(_)) => setting.device.simulator,
        (RunStateView::Archived, EventView::ExportEnded(_)) => !setting.device.simulator,
        (RunStateView::Exported, EventView::IpaProbed { .. }) => true,
        (RunStateView::Exported, EventView::UnzipEnded(_)) => true,
        (RunStateView::Unzipped, EventView::DeployEnded(_)) => true,
        _ => false,
    }
}

/// The error that `event` stands for, where it reports a failure: the
/// stage's own diagnostic under the tag of that stage, or both candidate
/// paths where neither exists.
pub open spec fn failure_of<H>(config: ConfigView, event: EventView<H>) -> Option<RunErrorView> {
    match event {
        EventView::BuildEnded(Err(e)) => Some(RunErrorView::BuildFailed(e)),
        EventView::ArchiveEnded(Err(e)) => Some(RunErrorView::ArchiveFailed(e)),
        EventView::SimulatorRunEnded(Err(e)) => Some(RunErrorView::SimulatorDeployFailed(e)),
        EventView::ExportEnded(Err(e)) => Some(RunErrorView::ExportFailed(e)),
        EventView::IpaProbed { old_exists, new_exists } => if !old_exists && !new_exists {
            Some(RunErrorView::IpaMissing { old: config.ipa_old, new: config.ipa_new })
        } else {
            None
        },
        EventView::UnzipEnded(Err(cause)) => Some(RunErrorView::UnzipFailed(cause)),
        EventView::DeployEnded(Err(e)) => Some(RunErrorView::DeployFailed(e)),
        _ => None,
    }
}

/// Whether `next` is the state that follows `state` when its stage
/// succeeds.
pub open spec fn follows<T, H>(
    setting: Setting<T>,
    state: RunStateView<H>,
    next: RunStateView<H>,
) -> bool {
    match state {
        RunStateView::Start => next is Built,
        RunStateView::Built => next is Archived,
        RunStateView::Archived => if setting.device.simulator {
            next is SimulatorDeployed
        } else {
            next is Exported
        },
        RunStateView::Exported => next is Unzipped,
        RunStateView::Unzipped => next is Deployed,
        _ => false,
    }
}

/// A stage that belongs to the run on a physical device only.
pub open spec fn for_device_only(action: ActionView) -> bool {
    action is Export || action is LocateIpa || action is Unzip || action is Deploy
}

/// An error that only a stage of the run on a physical device gives.
pub open spec fn from_device_only(error: RunErrorView) -> bool {
    error is ExportFailed || error is IpaMissing || error is UnzipFailed || error is DeployFailed
}

/// A run fails exactly when the stage it waits for is reported to have
/// failed, and then with the error of that stage and at once: a state that
/// is not `Failed` is followed by `Failed(error)` if and only if the event
/// reports on the stage of that state and stands for `error`. No stage is
/// asked for on failure.
pub proof fn lemma_fails_exactly_when_stage_fails<T, H>(
    setting: Setting<T>,
    state: RunStateView<H>,
    event: EventView<H>,
    error: RunErrorView,
)
    requires
        !(state is Failed),
    ensures
        step(setting, state, event).0 == RunStateView::<H>::Failed(error) <==> reports_on(
            setting,
            state,
            event,
        ) && failure_of(setting.config, event) == Some(error),
        step(setting, state, event).0 is Failed ==> step(setting, state, event).1 is None,
{
}

/// A run fails for want of the artifact exactly when the app has been
/// exported and neither candidate path is reported to exist, and the error
/// then holds the two candidate paths of the configuration.
pub proof fn lemma_ipa_missing_iff<T, H>(
    setting: Setting<T>,
    state: RunStateView<H>,
    event: EventView<H>,
    old: Seq<char>,
    new: Seq<char>,
)
    requires
        !(state is Failed),
    ensures
        step(setting, state, event).0 == RunStateView::<H>::Failed(
            RunErrorView::IpaMissing { old, new },
        ) <==> {
            &&& state is Exported
            &&& event == EventView::<H>::IpaProbed { old_exists: false, new_exists: false }
            &&& old == setting.config.ipa_old
            &&& new == setting.config.ipa_new
        },
{
}

/// A run that is over stays as it is and asks for nothing, whatever is
/// reported.
pub proof fn lemma_final_state_stays<T, H>(
    setting: Setting<T>,
    state: RunStateView<H>,
    event: EventView<H>,
)
    requires
        state.is_final(),
    ensures
        step(setting, state, event) == (state, None::<ActionView>),
{
}

/// A stage is asked for exactly as long as the run is not over.
pub proof fn lemma_asks_until_over<T, H>(
    setting: Setting<T>,
    state: RunStateView<H>,
    event: EventView<H>,
)
    ensures
        step(setting, state, event).1 is None <==> step(setting, state, event).0.is_final(),
        step(setting, state, event).0.outcome() is Some <==> step(setting, state, event).0.is_final(),
{
}

/// No stage is skipped: one step leaves the state as it is, fails, or moves
/// to the state that follows directly.
pub proof fn lemma_no_stage_skipped<T, H>(
    setting: Setting<T>,
    state: RunStateView<H>,
    event: EventView<H>,
)
    ensures
        ({
            let next = step(setting, state, event).0;
            next == state || next is Failed || follows(setting, state, next)
        }),
{
}

/// Fail-fast: once a run has failed, whatever is reported afterwards, the
/// error stays the same and no stage is asked for.
pub proof fn lemma_fail_fast<T, H>(setting: Setting<T>, events: Seq<EventView<H>>, n: int)
    requires
        0 <= n <= events.len(),
        state_after(setting, events.take(n)) is Failed,
    ensures
        state_after(setting, events) == state_after(setting, events.take(n)),
        n < events.len() ==> action_after(setting, events) is None,
        n > 0 ==> action_after(setting, events.take(n)) is None,
    decreases events.len() - n,
{
    if n > 0 {
        let upto = events.take(n);
        let before = state_after(setting, upto.drop_last());
        if before is Failed {
            lemma_final_state_stays(setting, before, upto.last());
        } else {
            lemma_fails_exactly_when_stage_fails(
                setting,
                before,
                upto.last(),
                state_after(setting, upto)->Failed_0,
            );
        }
    }
    if n == events.len() {
        assert(events.take(n) =~= events);
    } else {
        let shorter = events.drop_last();
        assert(shorter.take(n) =~= events.take(n));
        lemma_fail_fast(setting, shorter, n);
        lemma_final_state_stays(setting, state_after(setting, shorter), events.last());
    }
}

/// Once the app is archived the run takes the branch of its device: the
/// launch on the simulator is asked for where the device is simulated, the
/// export where it is not.
pub proof fn lemma_branch_taken<T, H>(setting: Setting<T>)
    ensures
        step(
            setting,
            RunStateView::<H>::Built,
            EventView::<H>::ArchiveEnded(Ok(())),
        ) == (
            RunStateView::<H>::Archived,
            Some(
                if setting.device.simulator {
                    ActionView::SimulatorRun { id: setting.device.id }
                } else {
                    ActionView::Export { noise_level: setting.noise_level }
                },
            ),
        ),
{
}

/// A simulated device takes the simulator branch and a physical device the
/// other one, in every run: for a simulated device no stage of the
/// physical branch is ever asked for, none of its states is reached and
/// none of its errors arises; for a physical device the launch on the
/// simulator is never asked for, its state is never reached and its error
/// never arises.
pub proof fn lemma_branches_apart<T, H>(setting: Setting<T>, events: Seq<EventView<H>>)
    ensures
        ({
            let state = state_after(setting, events);
            let action = action_after(setting, events);
            if setting.device.simulator {
                &&& !(state is Exported || state is Unzipped || state is Deployed)
                &&& state matches RunStateView::Failed(error) ==> !from_device_only(error)
                &&& action matches Some(a) ==> !for_device_only(a)
            } else {
                &&& !(state is SimulatorDeployed)
                &&& state matches RunStateView::Failed(error) ==> !(error is SimulatorDeployFailed)
                &&& action matches Some(a) ==> !(a is SimulatorRun)
            }
        }),
    decreases events.len(),
{
    if events.len() > 0 {
        lemma_branches_apart(setting, events.drop_last());
    }
}

/// The overwrite flag is among the arguments of every extraction.
pub proof fn lemma_unzip_overwrites(
    noise_level: NoiseLevel,
    artifact: Seq<char>,
    export_dir: Seq<char>,
)
    ensures
        unzip_args(noise_level, artifact, export_dir).contains("-o"@),
{
    let args = unzip_args(noise_level, artifact, export_dir);
    if noise_level.is_pedantic() {
        assert(args[0] == "-o"@);
    } else {
        assert(args[1] == "-o"@);
    }
}

/// The quiet flag is among the arguments of an extraction exactly when the
/// noise level is not the most verbose one. This is said of paths that are
/// not themselves the text of the quiet flag.
pub proof fn lemma_unzip_quiet_iff(
    noise_level: NoiseLevel,
    artifact: Seq<char>,
    export_dir: Seq<char>,
)
    requires
        artifact != "-q"@,
        export_dir != "-q"@,
    ensures
        unzip_args(noise_level, artifact, export_dir).contains("-q"@) <==> !noise_level.is_pedantic(),
{
    let args = unzip_args(noise_level, artifact, export_dir);
    reveal_strlit("-q");
    reveal_strlit("-o");
    reveal_strlit("-d");
    assert("-q"@[1] != "-o"@[1]);
    assert("-q"@[1] != "-d"@[1]);
    if !noise_level.is_pedantic() {
        assert(args[0] == "-q"@);
    }
}

} // verus!
