use cargo_mobile::apple::config::Config;
use cargo_mobile::apple::device::{Device, RunError};
use cargo_mobile::apple::pipeline::{unzip, Action, Event, RunState};
use cargo_mobile::apple::target::PlatformError;
use cargo_mobile::env::Env;
use cargo_mobile::opts::{NoiseLevel, Profile};
use cargo_mobile::process::{Command, ProcessError, Resolution};

/// How each stage ends when it is performed.
#[derive(Clone)]
struct Script {
    build: Result<(), PlatformError>,
    archive: Result<(), PlatformError>,
    simulator_run: Result<u32, PlatformError>,
    export: Result<(), PlatformError>,
    old_exists: bool,
    new_exists: bool,
    unzip: Result<(), ProcessError>,
    deploy: Result<u32, PlatformError>,
}

fn all_well() -> Script {
    Script {
        build: Ok(()),
        archive: Ok(()),
        simulator_run: Ok(7),
        export: Ok(()),
        old_exists: true,
        new_exists: true,
        unzip: Ok(()),
        deploy: Ok(9),
    }
}

fn failure(stage: &str) -> PlatformError {
    PlatformError::new(
        format!("{} went wrong", stage),
        format!("Failed to {}", stage),
        format!("{}: exit status 65", stage),
    )
}

fn config() -> Config {
    Config::new("/a/export".to_string(), "/a/old.ipa".to_string(), "/a/new.ipa".to_string())
}

fn env() -> Env {
    Env::new(vec![
        ("PATH".to_string(), "/usr/bin".to_string()),
        ("HOME".to_string(), "/home/me".to_string()),
    ])
}

fn phone(target: &u8) -> Device<'_, u8> {
    Device::new("00008030".to_string(), "Phone".to_string(), "iPhone 13".to_string(), target)
}

/// The name of a stage, for counting.
fn stage(action: &Action) -> &'static str {
    match action {
        Action::Build { .. } => "build",
        Action::Archive { .. } => "archive",
        Action::SimulatorRun { .. } => "simulator_run",
        Action::Export { .. } => "export",
        Action::LocateIpa { .. } => "locate_ipa",
        Action::Unzip(_) => "unzip",
        Action::Deploy { .. } => "deploy",
    }
}

/// Runs the pipeline to its end, performing each stage as the script says,
/// and returns what the run came to with the stages in the order performed.
fn drive(
    device: &Device<'_, u8>,
    noise_level: NoiseLevel,
    non_interactive: bool,
    script: &Script,
) -> (Result<u32, RunError>, Vec<Action>) {
    let config = config();
    let env = env();
    let profile = Profile::Debug;
    let mut performed = Vec::new();
    let (mut state, mut action) = device.run(
        &config,
        &env,
        noise_level,
        non_interactive,
        profile,
        RunState::Start,
        Event::Begin,
    );
    while let Some(a) = action {
        assert!(performed.len() < 20);
        let event = match &a {
            Action::Build { .. } => Event::BuildEnded(script.build.clone()),
            Action::Archive { .. } => Event::ArchiveEnded(script.archive.clone()),
            Action::SimulatorRun { .. } => Event::SimulatorRunEnded(script.simulator_run.clone()),
            Action::Export { .. } => Event::ExportEnded(script.export.clone()),
            Action::LocateIpa { .. } => Event::IpaProbed {
                old_exists: script.old_exists,
                new_exists: script.new_exists,
            },
            Action::Unzip(_) => Event::UnzipEnded(script.unzip.clone()),
            Action::Deploy { .. } => Event::DeployEnded(script.deploy.clone()),
        };
        performed.push(a);
        let next = device.run(&config, &env, noise_level, non_interactive, profile, state, event);
        state = next.0;
        action = next.1;
    }
    (state.result().expect("the run is over"), performed)
}

fn stages(performed: &[Action]) -> Vec<&'static str> {
    performed.iter().map(stage).collect()
}

#[test]
fn physical_run_performs_every_stage_in_order() {
    let target = 1u8;
    let (result, performed) = drive(&phone(&target), NoiseLevel::Polite, true, &all_well());
    assert_eq!(result, Ok(9));
    assert_eq!(
        stages(&performed),
        vec!["build", "archive", "export", "locate_ipa", "unzip", "deploy"]
    );
    assert_eq!(
        performed[0],
        Action::Build { noise_level: NoiseLevel::Polite, profile: Profile::Debug }
    );
    assert_eq!(
        performed[1],
        Action::Archive { noise_level: NoiseLevel::Polite, profile: Profile::Debug }
    );
    assert_eq!(performed[2], Action::Export { noise_level: NoiseLevel::Polite });
    assert_eq!(
        performed[3],
        Action::LocateIpa { old: "/a/old.ipa".to_string(), new: "/a/new.ipa".to_string() }
    );
    assert_eq!(
        performed[5],
        Action::Deploy { non_interactive: true, id: "00008030".to_string() }
    );
}

#[test]
fn simulator_run_performs_three_stages() {
    let target = 1u8;
    let device = phone(&target).simulator();
    let (result, performed) = drive(&device, NoiseLevel::Polite, false, &all_well());
    assert_eq!(result, Ok(7));
    assert_eq!(stages(&performed), vec!["build", "archive", "simulator_run"]);
    assert_eq!(performed[2], Action::SimulatorRun { id: "00008030".to_string() });
}

#[test]
fn build_failure_stops_the_run() {
    let target = 1u8;
    let mut script = all_well();
    script.build = Err(failure("build"));
    let (result, performed) = drive(&phone(&target), NoiseLevel::Polite, false, &script);
    assert_eq!(result, Err(RunError::BuildFailed(failure("build"))));
    assert_eq!(stages(&performed), vec!["build"]);
}

#[test]
fn archive_failure_stops_the_run() {
    let target = 1u8;
    let mut script = all_well();
    script.archive = Err(failure("archive"));
    let (result, performed) = drive(&phone(&target), NoiseLevel::Polite, false, &script);
    assert_eq!(result, Err(RunError::ArchiveFailed(failure("archive"))));
    assert_eq!(stages(&performed), vec!["build", "archive"]);
}

#[test]
fn export_failure_stops_the_run() {
    let target = 1u8;
    let mut script = all_well();
    script.export = Err(failure("export"));
    let (result, performed) = drive(&phone(&target), NoiseLevel::Polite, false, &script);
    assert_eq!(result, Err(RunError::ExportFailed(failure("export"))));
    assert_eq!(stages(&performed), vec!["build", "archive", "export"]);
}

#[test]
fn unzip_failure_stops_the_run() {
    let target = 1u8;
    let mut script = all_well();
    script.unzip = Err(ProcessError::new("exit status 9".to_string()));
    let (result, performed) = drive(&phone(&target), NoiseLevel::Polite, false, &script);
    assert_eq!(
        result,
        Err(RunError::UnzipFailed(ProcessError::new("exit status 9".to_string())))
    );
    assert_eq!(stages(&performed), vec!["build", "archive", "export", "locate_ipa", "unzip"]);
}

#[test]
fn deploy_failure_ends_the_run_with_its_cause() {
    let target = 1u8;
    let mut script = all_well();
    script.deploy = Err(failure("deploy"));
    let (result, performed) = drive(&phone(&target), NoiseLevel::Polite, false, &script);
    assert_eq!(result, Err(RunError::DeployFailed(failure("deploy"))));
    assert_eq!(
        stages(&performed),
        vec!["build", "archive", "export", "locate_ipa", "unzip", "deploy"]
    );
}

#[test]
fn missing_ipa_ends_the_run_before_unzip() {
    let target = 1u8;
    let mut script = all_well();
    script.old_exists = false;
    script.new_exists = false;
    let (result, performed) = drive(&phone(&target), NoiseLevel::Polite, false, &script);
    assert_eq!(
        result,
        Err(RunError::IpaMissing { old: "/a/old.ipa".to_string(), new: "/a/new.ipa".to_string() })
    );
    assert_eq!(stages(&performed), vec!["build", "archive", "export", "locate_ipa"]);
}

#[test]
fn ipa_is_missing_only_when_both_candidates_are() {
    let target = 1u8;
    for (old_exists, new_exists) in [(true, true), (true, false), (false, true)] {
        let mut script = all_well();
        script.old_exists = old_exists;
        script.new_exists = new_exists;
        let (result, performed) = drive(&phone(&target), NoiseLevel::Polite, false, &script);
        assert_eq!(result, Ok(9));
        assert_eq!(performed.len(), 6);
    }
}

#[test]
fn simulator_failure_ends_the_run_with_its_cause() {
    let target = 1u8;
    let device = phone(&target).simulator();
    let mut script = all_well();
    script.simulator_run = Err(failure("launch"));
    let (result, performed) = drive(&device, NoiseLevel::Polite, false, &script);
    assert_eq!(result, Err(RunError::SimulatorDeployFailed(failure("launch"))));
    assert_eq!(stages(&performed), vec!["build", "archive", "simulator_run"]);
}

#[test]
fn simulator_never_performs_a_stage_of_the_physical_branch() {
    let target = 1u8;
    let device = phone(&target).simulator();
    let mut script = all_well();
    script.export = Err(failure("export"));
    script.old_exists = false;
    script.new_exists = false;
    script.unzip = Err(ProcessError::new("no".to_string()));
    script.deploy = Err(failure("deploy"));
    let (result, performed) = drive(&device, NoiseLevel::Polite, false, &script);
    assert_eq!(result, Ok(7));
    for name in stages(&performed) {
        assert!(!["export", "locate_ipa", "unzip", "deploy"].contains(&name));
    }
}

#[test]
fn physical_device_never_launches_the_simulator() {
    let target = 1u8;
    let mut script = all_well();
    script.simulator_run = Err(failure("launch"));
    let (result, performed) = drive(&phone(&target), NoiseLevel::Polite, false, &script);
    assert_eq!(result, Ok(9));
    assert!(!stages(&performed).contains(&"simulator_run"));
}

#[test]
fn unzip_is_quiet_unless_pedantic() {
    let quiet = unzip(env().explicit_env(), NoiseLevel::Polite, "/a/old.ipa".to_string(), "/a/export");
    let args: Vec<&str> = quiet.args().iter().map(|s| s.as_str()).collect();
    assert_eq!(args, vec!["-q", "-o", "/a/old.ipa", "-d", "/a/export"]);
    let loud = unzip(
        env().explicit_env(),
        NoiseLevel::LoudAndProud,
        "/a/old.ipa".to_string(),
        "/a/export",
    );
    let args: Vec<&str> = loud.args().iter().map(|s| s.as_str()).collect();
    assert_eq!(args, vec!["-q", "-o", "/a/old.ipa", "-d", "/a/export"]);
}

#[test]
fn unzip_is_not_quiet_when_pedantic() {
    let command = unzip(
        env().explicit_env(),
        NoiseLevel::FranklyQuitePedantic,
        "/a/new.ipa".to_string(),
        "/a/export",
    );
    let args: Vec<&str> = command.args().iter().map(|s| s.as_str()).collect();
    assert_eq!(args, vec!["-o", "/a/new.ipa", "-d", "/a/export"]);
    assert!(args.contains(&"-o"));
    assert!(!args.contains(&"-q"));
}

#[test]
fn unzip_is_found_on_the_search_path_with_the_forwarded_variables() {
    let command = unzip(env().explicit_env(), NoiseLevel::Polite, "/a/old.ipa".to_string(), "/x");
    assert_eq!(command.program(), "unzip");
    assert_eq!(command.resolution(), Resolution::SearchPath);
    assert_eq!(command.env(), &env().explicit_env());
}

#[test]
fn run_asks_for_the_unzip_command_of_the_located_artifact() {
    let target = 1u8;
    let mut script = all_well();
    script.old_exists = false;
    let (_, performed) = drive(&phone(&target), NoiseLevel::FranklyQuitePedantic, false, &script);
    let expected = Command::on_search_path("unzip".to_string())
        .with_env_vars(env().explicit_env())
        .with_arg("-o".to_string())
        .with_arg("/a/new.ipa".to_string())
        .with_arg("-d".to_string())
        .with_arg("/a/export".to_string());
    assert_eq!(performed[4], Action::Unzip(expected));
}

#[test]
fn old_artifact_is_preferred_when_both_exist() {
    let target = 1u8;
    let (_, performed) = drive(&phone(&target), NoiseLevel::Polite, false, &all_well());
    match &performed[4] {
        Action::Unzip(command) => assert_eq!(command.args()[2], "/a/old.ipa"),
        other => panic!("{:?}", other),
    }
}

#[test]
fn end_to_end_missing_ipa() {
    let target = 1u8;
    let device = phone(&target);
    let config = Config::new(
        "/a/export".to_string(),
        "/a/old.ipa".to_string(),
        "/a/new.ipa".to_string(),
    );
    let env = env();
    let step = |state, event| {
        device.run::<u32>(&config, &env, NoiseLevel::Polite, false, Profile::Release, state, event)
    };
    let (state, action) = step(RunState::Start, Event::Begin);
    assert_eq!(
        action,
        Some(Action::Build { noise_level: NoiseLevel::Polite, profile: Profile::Release })
    );
    let (state, action) = step(state, Event::BuildEnded(Ok(())));
    assert_eq!(state, RunState::Built);
    assert_eq!(
        action,
        Some(Action::Archive { noise_level: NoiseLevel::Polite, profile: Profile::Release })
    );
    let (state, action) = step(state, Event::ArchiveEnded(Ok(())));
    assert_eq!(state, RunState::Archived);
    assert_eq!(action, Some(Action::Export { noise_level: NoiseLevel::Polite }));
    let (state, action) = step(state, Event::ExportEnded(Ok(())));
    assert_eq!(state, RunState::Exported);
    assert_eq!(
        action,
        Some(Action::LocateIpa { old: "/a/old.ipa".to_string(), new: "/a/new.ipa".to_string() })
    );
    let (state, action) = step(state, Event::IpaProbed { old_exists: false, new_exists: false });
    assert_eq!(action, None);
    assert_eq!(
        state.result(),
        Some(Err(RunError::IpaMissing {
            old: "/a/old.ipa".to_string(),
            new: "/a/new.ipa".to_string()
        }))
    );
}

#[test]
fn end_to_end_simulator_failure() {
    let target = 1u8;
    let device = phone(&target).simulator();
    let config = config();
    let env = env();
    let cause = failure("launch");
    let step = |state, event| {
        device.run::<u32>(&config, &env, NoiseLevel::Polite, false, Profile::Debug, state, event)
    };
    let (state, _) = step(RunState::Start, Event::Begin);
    let (state, _) = step(state, Event::BuildEnded(Ok(())));
    let (state, action) = step(state, Event::ArchiveEnded(Ok(())));
    assert_eq!(action, Some(Action::SimulatorRun { id: "00008030".to_string() }));
    let (state, action) = step(state, Event::SimulatorRunEnded(Err(cause.clone())));
    assert_eq!(action, None);
    assert_eq!(state, RunState::Failed(RunError::SimulatorDeployFailed(cause.clone())));
    let (state, action) = step(state, Event::ExportEnded(Ok(())));
    assert_eq!(action, None);
    assert_eq!(state.result(), Some(Err(RunError::SimulatorDeployFailed(cause))));
}

#[test]
fn a_failed_run_stays_failed_whatever_is_reported() {
    let target = 1u8;
    let device = phone(&target);
    let config = config();
    let env = env();
    let error = RunError::BuildFailed(failure("build"));
    let events: Vec<Event<u32>> = vec![
        Event::Begin,
        Event::BuildEnded(Ok(())),
        Event::ArchiveEnded(Ok(())),
        Event::SimulatorRunEnded(Ok(1)),
        Event::ExportEnded(Ok(())),
        Event::IpaProbed { old_exists: true, new_exists: true },
        Event::UnzipEnded(Ok(())),
        Event::DeployEnded(Ok(2)),
    ];
    let mut state = RunState::Failed(error.clone());
    for event in events {
        let (next, action) =
            device.run(&config, &env, NoiseLevel::Polite, false, Profile::Debug, state, event);
        assert_eq!(action, None);
        assert_eq!(next, RunState::Failed(error.clone()));
        state = next;
    }
}

#[test]
fn a_finished_run_keeps_its_handle() {
    let target = 1u8;
    let device = phone(&target);
    let (state, action) = device.run(
        &config(),
        &env(),
        NoiseLevel::Polite,
        false,
        Profile::Debug,
        RunState::Deployed(5u32),
        Event::DeployEnded(Ok(6)),
    );
    assert_eq!(action, None);
    assert_eq!(state.result(), Some(Ok(5)));
}

#[test]
fn an_event_for_another_stage_changes_nothing() {
    let target = 1u8;
    let device = phone(&target);
    let (state, action) = device.run::<u32>(
        &config(),
        &env(),
        NoiseLevel::Polite,
        false,
        Profile::Debug,
        RunState::Built,
        Event::DeployEnded(Ok(3)),
    );
    assert_eq!(state, RunState::Built);
    assert_eq!(
        action,
        Some(Action::Archive { noise_level: NoiseLevel::Polite, profile: Profile::Debug })
    );
    let (state, action) = device.run::<u32>(
        &config(),
        &env(),
        NoiseLevel::Polite,
        false,
        Profile::Debug,
        RunState::Archived,
        Event::SimulatorRunEnded(Ok(3)),
    );
    assert_eq!(state, RunState::Archived);
    assert_eq!(action, Some(Action::Export { noise_level: NoiseLevel::Polite }));
}

#[test]
fn a_run_in_progress_has_no_result() {
    assert_eq!(RunState::<u32>::Start.result(), None);
    assert_eq!(RunState::<u32>::Built.result(), None);
    assert_eq!(RunState::<u32>::Archived.result(), None);
    assert_eq!(RunState::<u32>::Exported.result(), None);
    assert_eq!(RunState::<u32>::Unzipped.result(), None);
    assert_eq!(RunState::SimulatorDeployed(4u32).result(), Some(Ok(4)));
}

#[test]
fn four_stages_announce_themselves() {
    let build = Action::Build { noise_level: NoiseLevel::Polite, profile: Profile::Debug };
    let archive = Action::Archive { noise_level: NoiseLevel::Polite, profile: Profile::Debug };
    let export = Action::Export { noise_level: NoiseLevel::Polite };
    let extract = Action::Unzip(Command::on_search_path("unzip".to_string()));
    assert_eq!(build.announcement(), Some("Building app..."));
    assert_eq!(archive.announcement(), Some("Archiving app..."));
    assert_eq!(export.announcement(), Some("Exporting app..."));
    assert_eq!(extract.announcement(), Some("Extracting IPA..."));
    assert_eq!(Action::SimulatorRun { id: "x".to_string() }.announcement(), None);
    assert_eq!(
        Action::LocateIpa { old: "a".to_string(), new: "b".to_string() }.announcement(),
        None
    );
    assert_eq!(
        Action::Deploy { non_interactive: false, id: "x".to_string() }.announcement(),
        None
    );
}

#[test]
fn stages_are_announced_in_the_order_performed() {
    let target = 1u8;
    let (_, performed) = drive(&phone(&target), NoiseLevel::Polite, false, &all_well());
    let lines: Vec<&str> = performed.iter().filter_map(|a| a.announcement()).collect();
    assert_eq!(
        lines,
        vec!["Building app...", "Archiving app...", "Exporting app...", "Extracting IPA..."]
    );
}
