use rbot_deploy::command::BuildMode;
use rbot_deploy::config::DeployConfig;
use rbot_deploy::pipeline::{Action, DeployError, Deployer, Event, Stage, PROBE_TIMEOUT_SECS};

/// What a simulated world did while a deploy ran.
#[derive(Default, Debug)]
struct Log {
    builds: usize,
    probes: Vec<String>,
    script_copies: Vec<String>,
    artifact_copies: Vec<String>,
    runs: Vec<String>,
}

/// Runs a deploy against a world where the build gives `build_ok`, the hosts
/// in `answering` answer, and copies and runs give `copy_ok` and `run_ok`.
fn simulate(
    d: &mut Deployer,
    build_ok: bool,
    answering: &[&str],
    copy_ok: bool,
    run_ok: bool,
) -> (Log, Action) {
    let mut log = Log::default();
    let mut a = d.step(Event::Start);
    loop {
        let e = match &a {
            Action::Build(_) => {
                log.builds += 1;
                Event::Built(build_ok)
            }
            Action::Probe { addr, timeout_secs } => {
                assert_eq!(*timeout_secs, PROBE_TIMEOUT_SECS);
                log.probes.push(addr.clone());
                Event::Probed(answering.contains(&addr.as_str()))
            }
            Action::CopyScript(h) => {
                log.script_copies.push(h.clone());
                Event::Copied(copy_ok)
            }
            Action::CopyArtifact(h) => {
                log.artifact_copies.push(h.clone());
                Event::Copied(copy_ok)
            }
            Action::Execute(h) => {
                log.runs.push(h.clone());
                Event::Ran(run_ok)
            }
            Action::Succeed(_) | Action::Fail(_) | Action::Wait => return (log, a),
        };
        a = d.step(e);
    }
}

fn team_config(team: usize, rio_ip: Option<&str>) -> DeployConfig {
    DeployConfig { name: "bot".to_string(), team, rio_ip: rio_ip.map(|s| s.to_string()) }
}

#[test]
fn scenario_only_numeric_answers() {
    let mut d = Deployer::new(&team_config(4413, None), BuildMode::Debug, PROBE_TIMEOUT_SECS);
    let (log, last) = simulate(&mut d, true, &["10.44.13.2"], true, true);
    assert!(matches!(last, Action::Succeed(ref h) if h == "10.44.13.2"));
    assert_eq!(d.stage(), Stage::Succeeded);
    assert_eq!(log.builds, 1);
    assert_eq!(log.probes, vec!["roborio-4413-FRC.local", "10.44.13.2"]);
    assert_eq!(log.script_copies, vec!["10.44.13.2"]);
    assert_eq!(log.artifact_copies, vec!["10.44.13.2"]);
    assert_eq!(log.runs, vec!["10.44.13.2"]);
    assert_eq!(d.target().as_deref(), Some("10.44.13.2"));
    assert_eq!(d.failure(), None);
}

#[test]
fn scenario_fixed_address_silent() {
    let mut d = Deployer::new(
        &team_config(4413, Some("192.168.1.50")),
        BuildMode::Release,
        PROBE_TIMEOUT_SECS,
    );
    assert_eq!(d.candidates(), &vec!["192.168.1.50".to_string()]);
    let (log, last) = simulate(&mut d, true, &[], true, true);
    assert!(matches!(last, Action::Fail(DeployError::Discovery)));
    assert_eq!(d.stage(), Stage::Failed);
    assert_eq!(d.failure(), Some(DeployError::Discovery));
    assert_eq!(log.probes, vec!["192.168.1.50"]);
    assert!(log.script_copies.is_empty());
    assert!(log.artifact_copies.is_empty());
    assert!(log.runs.is_empty());
    assert_eq!(d.target(), None);
}

#[test]
fn scenario_build_fails() {
    let mut d = Deployer::new(&team_config(4413, None), BuildMode::Debug, PROBE_TIMEOUT_SECS);
    let (log, last) = simulate(&mut d, false, &["10.44.13.2"], true, true);
    assert!(matches!(last, Action::Fail(DeployError::Build)));
    assert_eq!(d.failure(), Some(DeployError::Build));
    assert_eq!(log.builds, 1);
    assert!(log.probes.is_empty());
    assert!(log.script_copies.is_empty() && log.runs.is_empty());
}

#[test]
fn second_candidate_only_never_tries_third() {
    let cands = vec!["a".to_string(), "b".to_string(), "c".to_string()];
    let mut d = Deployer::with_candidates(cands, BuildMode::Debug, 2);
    let (log, last) = simulate(&mut d, true, &["b", "c"], true, true);
    assert_eq!(log.probes, vec!["a", "b"]);
    assert!(matches!(last, Action::Succeed(ref h) if h == "b"));
}

#[test]
fn no_candidate_answers_probes_each_once() {
    let cands = vec!["a".to_string(), "b".to_string(), "c".to_string()];
    let mut d = Deployer::with_candidates(cands, BuildMode::Debug, 2);
    let (log, last) = simulate(&mut d, true, &[], true, true);
    assert_eq!(log.probes, vec!["a", "b", "c"]);
    assert!(matches!(last, Action::Fail(DeployError::Discovery)));
}

#[test]
fn no_candidates_fails_discovery() {
    let mut d = Deployer::with_candidates(Vec::new(), BuildMode::Debug, 2);
    let (log, last) = simulate(&mut d, true, &[], true, true);
    assert!(log.probes.is_empty());
    assert!(matches!(last, Action::Fail(DeployError::Discovery)));
}

#[test]
fn transfer_failure_stops_before_running() {
    let mut d = Deployer::new(&team_config(4413, None), BuildMode::Debug, PROBE_TIMEOUT_SECS);
    let (log, last) = simulate(&mut d, true, &["roborio-4413-FRC.local"], false, true);
    assert!(matches!(last, Action::Fail(DeployError::Transfer)));
    assert_eq!(log.script_copies.len(), 1);
    assert!(log.artifact_copies.is_empty());
    assert!(log.runs.is_empty());
}

#[test]
fn execution_failure_is_reported() {
    let mut d = Deployer::new(&team_config(4413, None), BuildMode::Debug, PROBE_TIMEOUT_SECS);
    let (log, last) = simulate(&mut d, true, &["172.22.11.2"], true, false);
    assert!(matches!(last, Action::Fail(DeployError::Execution)));
    assert_eq!(log.probes.len(), 3);
    assert_eq!(log.runs, vec!["172.22.11.2"]);
    assert_eq!(d.stage(), Stage::Failed);
}

#[test]
fn events_out_of_turn_are_ignored() {
    let mut d = Deployer::new(&team_config(1, None), BuildMode::Debug, PROBE_TIMEOUT_SECS);
    assert!(matches!(d.step(Event::Probed(true)), Action::Wait));
    assert_eq!(d.stage(), Stage::Idle);
    assert!(matches!(d.step(Event::Start), Action::Build(BuildMode::Debug)));
    assert!(matches!(d.step(Event::Start), Action::Wait));
    assert_eq!(d.stage(), Stage::Building);
}

#[test]
fn scenario_from_descriptor_fields() {
    let config = DeployConfig::from_fields("bot".to_string(), "4413", None).unwrap();
    let mut d = Deployer::new(&config, BuildMode::Debug, PROBE_TIMEOUT_SECS);
    let (log, last) = simulate(&mut d, true, &["10.44.13.2"], true, true);
    assert!(matches!(last, Action::Succeed(ref h) if h == "10.44.13.2"));
    assert_eq!(log.probes, vec!["roborio-4413-FRC.local", "10.44.13.2"]);
    assert_eq!(log.script_copies, vec!["10.44.13.2"]);
    assert_eq!(log.artifact_copies, vec!["10.44.13.2"]);
    assert_eq!(log.runs, vec!["10.44.13.2"]);
}
