//! Devices and the errors of a run.

use vstd::prelude::*;
use crate::apple::config::{Config, ConfigView};
use crate::apple::pipeline::{action_view, enter, step, unzip, Action, Event, RunState, Setting};
use crate::apple::target::{PlatformError, PlatformErrorView};
use crate::env::{Env, Vars};
use crate::opts::{NoiseLevel, Profile};
use crate::process::ProcessError;
use crate::report::{Report, ReportView};

verus! {

/// What a [`RunError`] holds, as sequences of characters.
pub enum RunErrorView {
    BuildFailed(PlatformErrorView),
    ArchiveFailed(PlatformErrorView),
    ExportFailed(PlatformErrorView),
    IpaMissing { old: Seq<char>, new: Seq<char> },
    UnzipFailed(Seq<char>),
    DeployFailed(PlatformErrorView),
    SimulatorDeployFailed(PlatformErrorView),
}

/// Why a run failed: one variant for each stage that can fail, with that
/// stage's own diagnostic.
#[derive(Clone, Debug, PartialEq, Eq)]
pub enum RunError {
    BuildFailed(PlatformError),
    ArchiveFailed(PlatformError),
    ExportFailed(PlatformError),
    /// The exported artifact lies at neither of the two places tried.
    IpaMissing { old: String, new: String },
    UnzipFailed(ProcessError),
    DeployFailed(PlatformError),
    SimulatorDeployFailed(PlatformError),
}

impl View for RunError {
    type V = RunErrorView;

    open spec fn view(&self) -> RunErrorView {
        match self {
            RunError::BuildFailed(e) => RunErrorView::BuildFailed(e@),
            RunError::ArchiveFailed(e) => RunErrorView::ArchiveFailed(e@),
            RunError::ExportFailed(e) => RunErrorView::ExportFailed(e@),
            RunError::IpaMissing { old, new } => RunErrorView::IpaMissing { old: old@, new: new@ },
            RunError::UnzipFailed(e) => RunErrorView::UnzipFailed(e@),
            RunError::DeployFailed(e) => RunErrorView::DeployFailed(e@),
            RunError::SimulatorDeployFailed(e) => RunErrorView::SimulatorDeployFailed(e@),
        }
    }
}

/// A path as the standard library's `Debug` formatting writes it: between
/// double quotes, with what cannot be printed escaped.
pub uninterp spec fn debug_text(path: Seq<char>) -> Seq<char>;

/// Formats `path` as a `std::path::Path` with `{:?}`. The text is a function
/// of the path alone; nothing more is claimed of it.
#[verifier::external_body]
fn debug_string(path: &str) -> (res: String)
    ensures
        res@ == debug_text(path@),
{
    format!("{:?}", std::path::Path::new(path))
}

/// The detail of the report on a missing artifact, from the two paths as
/// they are to be shown.
pub open spec fn ipa_missing_detail(old_shown: Seq<char>, new_shown: Seq<char>) -> Seq<char> {
    "Not found at either "@ + old_shown + " or "@ + new_shown
}

/// The one-line message of an error.
pub open spec fn message_of(err: RunErrorView) -> Seq<char> {
    match err {
        RunErrorView::BuildFailed(e) => e.message,
        RunErrorView::ArchiveFailed(e) => e.message,
        RunErrorView::ExportFailed(e) => e.message,
        RunErrorView::IpaMissing { old, new } => "IPA appears to be missing. "@
            + ipa_missing_detail(old, new),
        RunErrorView::UnzipFailed(cause) => "Failed to unzip archive: "@ + cause,
        RunErrorView::DeployFailed(e) => e.message,
        RunErrorView::SimulatorDeployFailed(e) => e.message,
    }
}

/// The report of an error. A stage's own report is passed on as it is; a
/// missing artifact names both paths that were tried; a failed extraction
/// gives the process's diagnostic as its detail.
pub open spec fn report_of(err: RunErrorView) -> ReportView {
    match err {
        RunErrorView::BuildFailed(e) => ReportView { title: e.title, detail: e.detail },
        RunErrorView::ArchiveFailed(e) => ReportView { title: e.title, detail: e.detail },
        RunErrorView::ExportFailed(e) => ReportView { title: e.title, detail: e.detail },
        RunErrorView::IpaMissing { old, new } => ReportView {
            title: "IPA appears to be missing"@,
            detail: ipa_missing_detail(debug_text(old), debug_text(new)),
        },
        RunErrorView::UnzipFailed(cause) => ReportView {
            title: "Failed to unzip archive"@,
            detail: cause,
        },
        RunErrorView::DeployFailed(e) => ReportView { title: e.title, detail: e.detail },
        RunErrorView::SimulatorDeployFailed(e) => ReportView { title: e.title, detail: e.detail },
    }
}

/// The report on a missing artifact, from the two paths as they are to be
/// shown.
pub fn ipa_missing_report(old_shown: &str, new_shown: &str) -> (res: Report)
    ensures
        res@ == (ReportView {
            title: "IPA appears to be missing"@,
            detail: ipa_missing_detail(old_shown@, new_shown@),
        }),
{
    let detail = String::from_str("Not found at either ").concat(old_shown).concat(" or ").concat(
        new_shown,
    );
    Report::error(String::from_str("IPA appears to be missing"), detail)
}

impl RunError {
    /// The one-line message of this error.
    pub fn message(&self) -> (res: String)
        ensures
            res@ == message_of(self@),
    {
        match self {
            RunError::BuildFailed(e) => e.message(),
            RunError::ArchiveFailed(e) => e.message(),
            RunError::ExportFailed(e) => e.message(),
            RunError::IpaMissing { old, new } => {
                let res = String::from_str("IPA appears to be missing. Not found at either ")
                    .concat(old.as_str()).concat(" or ").concat(new.as_str());
                proof {
                    reveal_strlit("IPA appears to be missing. Not found at either ");
                    reveal_strlit("IPA appears to be missing. ");
                    reveal_strlit("Not found at either ");
                    assert("IPA appears to be missing. Not found at either "@
                        =~= "IPA appears to be missing. "@ + "Not found at either "@);
                }
                res
            },
            RunError::UnzipFailed(e) => String::from_str("Failed to unzip archive: ").concat(
                e.message(),
            ),
            RunError::DeployFailed(e) => e.message(),
            RunError::SimulatorDeployFailed(e) => e.message(),
        }
    }

    /// The report of this error: a short title and the detail.
    pub fn report(&self) -> (res: Report)
        ensures
            res@ == report_of(self@),
    {
        match self {
            RunError::BuildFailed(e) => e.report(),
            RunError::ArchiveFailed(e) => e.report(),
            RunError::ExportFailed(e) => e.report(),
            RunError::IpaMissing { old, new } => {
                let old_shown = debug_string(old.as_str());
                let new_shown = debug_string(new.as_str());
                ipa_missing_report(old_shown.as_str(), new_shown.as_str())
            },
            RunError::UnzipFailed(e) => Report::error(
                String::from_str("Failed to unzip archive"),
                String::from_str(e.message()),
            ),
            RunError::DeployFailed(e) => e.report(),
            RunError::SimulatorDeployFailed(e) => e.report(),
        }
    }
}

/// What a [`Device`] holds: its strings as sequences of characters, and the
/// target it refers to.
pub struct DeviceView<T> {
    pub id: Seq<char>,
    pub name: Seq<char>,
    pub model: Seq<char>,
    pub target: T,
    pub simulator: bool,
}

/// A place to run an app on: a physical device or a simulated one. It
/// refers to its target and does not own it.
#[derive(Debug, Eq, Ord, PartialEq, PartialOrd)]
pub struct Device<'a, T> {
    id: String,
    name: String,
    model: String,
    target: &'a T,
    simulator: bool,
}

impl<'a, T> View for Device<'a, T> {
    type V = DeviceView<T>;

    closed spec fn view(&self) -> DeviceView<T> {
        DeviceView {
            id: self.id@,
            name: self.name@,
            model: self.model@,
            target: *self.target,
            simulator: self.simulator,
        }
    }
}

impl<'a, T> Device<'a, T> {
    /// A physical device.
    pub fn new(id: String, name: String, model: String, target: &'a T) -> (res: Self)
        ensures
            res@ == (DeviceView {
                id: id@,
                name: name@,
                model: model@,
                target: *target,
                simulator: false,
            }),
    {
        Self { id, name, model, target, simulator: false }
    }

    /// The same device as a simulated one. Everything else is unchanged.
    pub fn simulator(self) -> (res: Self)
        ensures
            res@ == (DeviceView { simulator: true, ..self@ }),
    {
        let mut res = self;
        res.simulator = true;
        res
    }

    /// The target this device belongs to.
    pub fn target(&self) -> (res: &'a T)
        ensures
            *res == self@.target,
    {
        self.target
    }

    /// The name of the device.
    pub fn name(&self) -> (res: &str)
        ensures
            res@ == self@.name,
    {
        self.name.as_str()
    }

    /// The device as shown to the operator: its name, then its model in
    /// round brackets.
    pub fn display(&self) -> (res: String)
        ensures
            res@ == self@.name + " ("@ + self@.model + ")"@,
    {
        self.name.clone().concat(" (").concat(self.model.as_str()).concat(")")
    }

    /// Moves to `next` and asks for the stage it waits for.
    fn proceed<H>(
        &self,
        config: &Config,
        Ghost(vars): Ghost<Vars>,
        noise_level: NoiseLevel,
        non_interactive: bool,
        profile: Profile,
        next: RunState<H>,
    ) -> (res: (RunState<H>, Option<Action>))
        ensures
            (res.0@, action_view(res.1)) == enter(
                run_setting(self@, config@, vars, noise_level, non_interactive, profile),
                next@,
            ),
    {
        let action = match &next {
            RunState::Start => Some(Action::Build { noise_level, profile }),
            RunState::Built => Some(Action::Archive { noise_level, profile }),
            RunState::Archived => if self.simulator {
                Some(Action::SimulatorRun { id: self.id.clone() })
            } else {
                Some(Action::Export { noise_level })
            },
            RunState::Exported => {
                let (old, new) = config.ipa_candidates();
                Some(Action::LocateIpa { old, new })
            },
            RunState::Unzipped => Some(Action::Deploy { non_interactive, id: self.id.clone() }),
            RunState::SimulatorDeployed(_) => None,
            RunState::Deployed(_) => None,
            RunState::Failed(_) => None,
        };
        (next, action)
    }

    /// One step of running the app on this device.
    ///
    /// The caller starts with the state `Start` and the event `Begin`,
    /// performs the stage it is handed, and calls again with the state it
    /// was handed and the outcome of that stage, until no stage is handed
    /// out: the run is then over, and the state holds the handle of the
    /// launched app or the error of the stage that failed.
    pub fn run<H>(
        &self,
        config: &Config,
        env: &Env,
        noise_level: NoiseLevel,
        non_interactive: bool,
        profile: Profile,
        state: RunState<H>,
        event: Event<H>,
    ) -> (res: (RunState<H>, Option<Action>))
        ensures
            (res.0@, action_view(res.1)) == step(
                run_setting(self@, config@, env@, noise_level, non_interactive, profile),
                state@,
                event@,
            ),
    {
        match state {
            RunState::Start => match event {
                Event::BuildEnded(Ok(_)) => self.proceed(
                    config,
                    Ghost(env@),
                    noise_level,
                    non_interactive,
                    profile,
                    RunState::Built,
                ),
                Event::BuildEnded(Err(e)) => (RunState::Failed(RunError::BuildFailed(e)), None),
                _ => self.proceed(
                    config,
                    Ghost(env@),
                    noise_level,
                    non_interactive,
                    profile,
                    RunState::Start,
                ),
            },
            RunState::Built => match event {
                Event::ArchiveEnded(Ok(_)) => self.proceed(
                    config,
                    Ghost(env@),
                    noise_level,
                    non_interactive,
                    profile,
                    RunState::Archived,
                ),
                Event::ArchiveEnded(Err(e)) => (RunState::Failed(RunError::ArchiveFailed(e)), None),
                _ => self.proceed(
                    config,
                    Ghost(env@),
                    noise_level,
                    non_interactive,
                    profile,
                    RunState::Built,
                ),
            },
            RunState::Archived => match event {
                Event::SimulatorRunEnded(outcome) if self.simulator => match outcome {
                    Ok(handle) => (RunState::SimulatorDeployed(handle), None),
                    Err(e) => (RunState::Failed(RunError::SimulatorDeployFailed(e)), None),
                },
                Event::ExportEnded(outcome) if !self.simulator => match outcome {
                    Ok(_) => self.proceed(
                        config,
                        Ghost(env@),
                        noise_level,
                        non_interactive,
                        profile,
                        RunState::Exported,
                    ),
                    Err(e) => (RunState::Failed(RunError::ExportFailed(e)), None),
                },
                _ => self.proceed(
                    config,
                    Ghost(env@),
                    noise_level,
                    non_interactive,
                    profile,
                    RunState::Archived,
                ),
            },
            RunState::Exported => match event {
                Event::IpaProbed { old_exists, new_exists } => match config.ipa_path(
                    old_exists,
                    new_exists,
                ) {
                    Ok(artifact) => {
                        let command = unzip(
                            env.explicit_env(),
                            noise_level,
                            artifact,
                            config.export_dir(),
                        );
                        (RunState::Exported, Some(Action::Unzip(command)))
                    },
                    Err((old, new)) => (RunState::Failed(RunError::IpaMissing { old, new }), None),
                },
                Event::UnzipEnded(Ok(_)) => self.proceed(
                    config,
                    Ghost(env@),
                    noise_level,
                    non_interactive,
                    profile,
                    RunState::Unzipped,
                ),
                Event::UnzipEnded(Err(cause)) => (
                    RunState::Failed(RunError::UnzipFailed(cause)),
                    None,
                ),
                _ => self.proceed(
                    config,
                    Ghost(env@),
                    noise_level,
                    non_interactive,
                    profile,
                    RunState::Exported,
                ),
            },
            RunState::Unzipped => match event {
                Event::DeployEnded(Ok(handle)) => (RunState::Deployed(handle), None),
                Event::DeployEnded(Err(e)) => (RunState::Failed(RunError::DeployFailed(e)), None),
                _ => self.proceed(
                    config,
                    Ghost(env@),
                    noise_level,
                    non_interactive,
                    profile,
                    RunState::Unzipped,
                ),
            },
            RunState::SimulatorDeployed(handle) => (RunState::SimulatorDeployed(handle), None),
            RunState::Deployed(handle) => (RunState::Deployed(handle), None),
            RunState::Failed(error) => (RunState::Failed(error), None),
        }
    }
}

/// The setting of a run of the app on `device`.
pub open spec fn run_setting<T>(
    device: DeviceView<T>,
    config: ConfigView,
    env: Vars,
    noise_level: NoiseLevel,
    non_interactive: bool,
    profile: Profile,
) -> Setting<T> {
    Setting { device, config, env, noise_level, non_interactive, profile }
}

} // verus!
