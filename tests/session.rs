use docker_wsl::command::{distro_dir_path, output_in_wsl, run_in_wsl, Command, Config, IoMode, Outcome};
use docker_wsl::dispatch::{
    execute_wrapped, forwarded_exit_code, handle_extra_subcommand, reserved_step_result, Dispatch,
};
use docker_wsl::readiness::{
    advance, ensure_docker, first_stage, setup_docker_on_distro, Action, EngineStep, SetupError, Stage,
};
use docker_wsl::session::{InvokeError, Invocation, Report, Step};
use docker_wsl::rewrite::{convert_path, converted_path, loose_candidates, modify_args, mount_sources};

fn strings(parts: &[&str]) -> Vec<String> {
    parts.iter().map(|p| p.to_string()).collect()
}

fn cfg() -> Config {
    Config::new("C:\\Users\\me", "\\")
}

const DIR: &str = "C:\\Users\\me\\wsl-distros\\custom-docker-host";

/// Runs the readiness check from `stage`, answering each action from `answer`,
/// and records what was asked.
fn run_readiness(
    cfg: &Config,
    mut stage: Stage,
    log: &mut Vec<String>,
    answer: &mut dyn FnMut(&Action) -> Outcome,
) -> Result<(), SetupError> {
    loop {
        let action = ensure_docker(cfg, stage);
        let out = match &action {
            Action::Finish(r) => return *r,
            Action::Run(c) => {
                log.push(c.argv.join(" "));
                answer(&action)
            }
            Action::CreateDir(p) => {
                log.push(format!("mkdir {p}"));
                answer(&action)
            }
            Action::CheckFile(p) => {
                log.push(format!("exists {p}"));
                answer(&action)
            }
        };
        stage = advance(stage, out);
    }
}

#[test]
fn staging_directory_layout() {
    assert_eq!(distro_dir_path("/home/u", "/", "g"), "/home/u/wsl-distros/g");
    let c = cfg();
    assert_eq!(c.distro_dir, DIR);
    assert_eq!(c.distro_name, "custom-docker-host");
    assert!(c.rootfs_url.ends_with("ubuntu-jammy-wsl-amd64-wsl.rootfs.tar.gz"));
}

#[test]
fn guest_commands_carry_the_guest_prefix() {
    let c = cfg();
    let r = run_in_wsl(&c, &strings(&["ls", "/"]), true);
    assert_eq!(r.argv, strings(&["wsl", "-d", "custom-docker-host", "-e", "ls", "/"]));
    assert_eq!(r.mode, IoMode::Silent);
    assert_eq!(run_in_wsl(&c, &strings(&[]), false).mode, IoMode::Inherit);
    let o = output_in_wsl(&c, &strings(&["pwd"]));
    assert_eq!(o.argv, strings(&["wsl", "-d", "custom-docker-host", "-e", "pwd"]));
    assert_eq!(o.mode, IoMode::Capture);
}

#[test]
fn stage_transitions() {
    assert_eq!(first_stage(), Stage::Probe);
    assert_eq!(advance(Stage::Probe, Outcome::Success), Stage::Start);
    assert_eq!(advance(Stage::Probe, Outcome::Failure), Stage::PrepareDir);
    assert_eq!(advance(Stage::Probe, Outcome::Fault), Stage::Failed(SetupError::Launch));
    assert_eq!(advance(Stage::PrepareDir, Outcome::Failure), Stage::Failed(SetupError::Directory));
    assert_eq!(advance(Stage::CheckArchive, Outcome::Success), Stage::Import);
    assert_eq!(advance(Stage::CheckArchive, Outcome::Failure), Stage::Download);
    assert_eq!(advance(Stage::Download, Outcome::Failure), Stage::Failed(SetupError::Download));
    assert_eq!(advance(Stage::Import, Outcome::Failure), Stage::Failed(SetupError::Import));
    assert_eq!(advance(Stage::Install, Outcome::Failure), Stage::Failed(SetupError::Install));
    assert_eq!(advance(Stage::DetachKeys, Outcome::Failure), Stage::Failed(SetupError::DetachKeys));
    assert_eq!(advance(Stage::Buildkit, Outcome::Failure), Stage::Failed(SetupError::Buildkit));
    assert_eq!(advance(Stage::Buildkit, Outcome::Success), Stage::Start);
    assert_eq!(advance(Stage::Start, Outcome::Failure), Stage::Failed(SetupError::Start));
    assert_eq!(advance(Stage::Start, Outcome::Fault), Stage::Failed(SetupError::Launch));
    assert_eq!(advance(Stage::Start, Outcome::Success), Stage::Ready);
    assert_eq!(advance(Stage::Ready, Outcome::Failure), Stage::Ready);
}

#[test]
fn engine_setup_commands() {
    let c = cfg();
    let i = setup_docker_on_distro(&c, EngineStep::Install);
    assert_eq!(i.argv[4..], strings(&["sh", "-c", "curl -fsSL https://get.docker.com/ | sh"])[..]);
    assert_eq!(i.mode, IoMode::Inherit);
    let d = setup_docker_on_distro(&c, EngineStep::DetachKeys);
    assert_eq!(d.argv[6], r#"mkdir -p ~/.docker && echo '{"detachKeys":"ctrl-^"}' > ~/.docker/config"#);
    assert_eq!(d.mode, IoMode::Silent);
    let b = setup_docker_on_distro(&c, EngineStep::Buildkit);
    assert_eq!(
        b.argv[6],
        r#"mkdir -p /etc/docker && echo '{"features":{"buildkit":true}}' > /etc/docker/daemon.json"#
    );
    assert_eq!(b.mode, IoMode::Silent);
}

#[test]
fn running_engine_is_only_probed_and_started() {
    let c = cfg();
    for _ in 0..2 {
        let mut log = Vec::new();
        let r = run_readiness(&c, first_stage(), &mut log, &mut |_| Outcome::Success);
        assert_eq!(r, Ok(()));
        assert_eq!(
            log,
            vec![
                "wsl -d custom-docker-host -e which docker".to_string(),
                "wsl -d custom-docker-host -e /sbin/service docker start".to_string(),
            ]
        );
    }
}

#[test]
fn reset_registration_bootstraps_afresh() {
    let c = cfg();
    let d = handle_extra_subcommand(&c, &strings(&["reset-registration"]));
    let Dispatch::Reserved { steps, ready_from } = d else { panic!("not reserved") };
    let argvs: Vec<Vec<String>> = steps.iter().map(|s: &Command| s.argv.clone()).collect();
    assert_eq!(argvs, vec![strings(&["wsl", "--shutdown"]), strings(&["wsl", "--unregister", "custom-docker-host"])]);
    assert!(steps.iter().all(|s| s.mode == IoMode::Silent));
    assert_eq!(ready_from, Some(Stage::Probe));
    // The guest was destroyed: the probe finds no engine and the installer runs again.
    let mut log = Vec::new();
    let r = run_readiness(&c, ready_from.unwrap(), &mut log, &mut |a| match a {
        Action::Run(cmd) if cmd.argv.last().map(|s| s == "docker").unwrap_or(false) => Outcome::Failure,
        _ => Outcome::Success,
    });
    assert_eq!(r, Ok(()));
    assert!(log[0].ends_with("which docker"));
    assert!(log.iter().any(|l| l.ends_with("curl -fsSL https://get.docker.com/ | sh")));
}

#[test]
fn stop_daemon_and_forwarding() {
    let c = cfg();
    match handle_extra_subcommand(&c, &strings(&["stop-daemon", "x"])) {
        Dispatch::Reserved { steps, ready_from } => {
            assert_eq!(steps.len(), 1);
            assert_eq!(steps[0].argv, strings(&["wsl", "--shutdown"]));
            assert_eq!(ready_from, None);
        }
        Dispatch::Forward => panic!("stop-daemon is reserved"),
    }
    for v in [strings(&[]), strings(&["ps"]), strings(&["Stop-Daemon"]), strings(&["run", "stop-daemon"])] {
        assert!(matches!(handle_extra_subcommand(&c, &v), Dispatch::Forward));
    }
    assert_eq!(reserved_step_result(Outcome::Failure), Ok(()));
    assert_eq!(reserved_step_result(Outcome::Fault), Err(SetupError::Launch));
}

#[test]
fn bootstrap_failure_names_its_stage() {
    let c = cfg();
    let mut log = Vec::new();
    let r = run_readiness(&c, first_stage(), &mut log, &mut |a| match a {
        Action::Run(cmd) if cmd.argv.iter().any(|s| s == "--import") => Outcome::Failure,
        Action::Run(cmd) if cmd.argv.iter().any(|s| s == "which") => Outcome::Failure,
        _ => Outcome::Success,
    });
    assert_eq!(r, Err(SetupError::Import));
    assert_eq!(log.len(), 4);
}

#[test]
fn forwarding_command_and_exit_code() {
    let c = cfg();
    let f = execute_wrapped(&c, &strings(&["ps", "-a"]));
    assert_eq!(f.argv, strings(&["wsl", "-d", "custom-docker-host", "-e", "docker", "ps", "-a"]));
    assert_eq!(f.mode, IoMode::Inherit);
    assert_eq!(forwarded_exit_code(Some(0)), 0);
    assert_eq!(forwarded_exit_code(Some(125)), 125);
    assert_eq!(forwarded_exit_code(None), 1);
}

#[test]
fn end_to_end_create_on_fresh_guest() {
    let c = cfg();
    let mut args = strings(&["create", "--mount", "type=bind,source=/c/tmp,target=/x"]);
    assert!(matches!(handle_extra_subcommand(&c, &args), Dispatch::Forward));
    let mut log = Vec::new();
    let r = run_readiness(&c, first_stage(), &mut log, &mut |a| match a {
        Action::Run(cmd) if cmd.argv.last().map(|s| s == "docker").unwrap_or(false) => Outcome::Failure,
        _ => Outcome::Success,
    });
    assert_eq!(r, Ok(()));
    let archive = format!("{DIR}\\rootfs.tar.gz");
    let root = format!("{DIR}\\root");
    assert_eq!(
        log,
        vec![
            "wsl -d custom-docker-host -e which docker".to_string(),
            format!("mkdir {root}"),
            format!("exists {archive}"),
            format!("wsl --import custom-docker-host {root} {archive}"),
            "wsl -d custom-docker-host -e sh -c curl -fsSL https://get.docker.com/ | sh".to_string(),
            r#"wsl -d custom-docker-host -e sh -c mkdir -p ~/.docker && echo '{"detachKeys":"ctrl-^"}' > ~/.docker/config"#.to_string(),
            r#"wsl -d custom-docker-host -e sh -c mkdir -p /etc/docker && echo '{"features":{"buildkit":true}}' > /etc/docker/daemon.json"#.to_string(),
            "wsl -d custom-docker-host -e /sbin/service docker start".to_string(),
        ]
    );
    let paths = mount_sources(&args);
    assert_eq!(paths, strings(&["/c/tmp"]));
    let conv = convert_path(&c, &paths[0]);
    assert_eq!(conv.argv[4..], strings(&["wslpath", "-u", "/c/tmp"])[..]);
    let translated = vec![converted_path(Outcome::Success, "/mnt/c/tmp\n").unwrap()];
    let loose = loose_candidates(&args, &translated);
    assert!(loose.iter().all(|l| l.is_none()));
    modify_args(&mut args, &translated, &loose);
    let fwd = execute_wrapped(&c, &args);
    assert_eq!(
        fwd.argv,
        strings(&["wsl", "-d", "custom-docker-host", "-e", "docker", "create", "--mount", "type=bind,source=/mnt/c/tmp,target=/x"])
    );
    assert_eq!(forwarded_exit_code(Some(3)), 3);
}

#[test]
fn download_runs_only_without_archive() {
    let c = cfg();
    let mut log = Vec::new();
    let r = run_readiness(&c, Stage::PrepareDir, &mut log, &mut |a| match a {
        Action::CheckFile(_) => Outcome::Failure,
        _ => Outcome::Success,
    });
    assert_eq!(r, Ok(()));
    assert_eq!(log[2], format!("curl -L {} -o {DIR}\\rootfs.tar.gz", c.rootfs_url));
    assert_eq!(log.len(), 8);
}

fn report(outcome: Outcome, output: &str, code: Option<i32>) -> Report {
    Report { outcome, output: output.to_string(), code }
}

/// Runs an invocation to its end, answering each action from `answer`, and
/// records the commands it asked for.
fn drive(
    cfg: &Config,
    args: &[&str],
    answer: &mut dyn FnMut(&Action) -> Report,
) -> (Result<i32, InvokeError>, Vec<String>) {
    let mut inv = Invocation::new(cfg, strings(args));
    let mut log = Vec::new();
    for _ in 0..100 {
        match inv.next_step(cfg) {
            Step::Exit(r) => {
                assert_eq!(inv.args, strings(args));
                return (r, log);
            }
            Step::Perform(a) => {
                match &a {
                    Action::Run(c) => log.push(c.argv.join(" ")),
                    Action::CreateDir(p) => log.push(format!("mkdir {p}")),
                    Action::CheckFile(p) => log.push(format!("exists {p}")),
                    Action::Finish(_) => panic!("finish is never asked for"),
                }
                let rep = answer(&a);
                inv.record(rep);
            }
        }
    }
    panic!("the invocation did not end");
}

fn is_probe(a: &Action) -> bool {
    matches!(a, Action::Run(c) if c.argv.last().map(|s| s == "docker").unwrap_or(false))
}

fn is_conversion(a: &Action) -> bool {
    matches!(a, Action::Run(c) if c.mode == IoMode::Capture)
}

#[test]
fn invocation_end_to_end_on_fresh_guest() {
    let c = cfg();
    let (r, log) = drive(&c, &["create", "--mount", "type=bind,source=/c/tmp,target=/x"], &mut |a| {
        if is_probe(a) {
            report(Outcome::Failure, "", Some(1))
        } else if is_conversion(a) {
            report(Outcome::Success, "/mnt/c/tmp\n", Some(0))
        } else if matches!(a, Action::Run(c) if c.argv.get(4).map(|s| s == "docker").unwrap_or(false)) {
            report(Outcome::Failure, "", Some(7))
        } else {
            report(Outcome::Success, "", Some(0))
        }
    });
    assert_eq!(r, Ok(7));
    let archive = format!("{DIR}\\rootfs.tar.gz");
    let root = format!("{DIR}\\root");
    assert_eq!(log.len(), 10);
    assert_eq!(log[0], "wsl -d custom-docker-host -e which docker");
    assert_eq!(log[2], format!("exists {archive}"));
    assert_eq!(log[3], format!("wsl --import custom-docker-host {root} {archive}"));
    assert!(log[4].ends_with("curl -fsSL https://get.docker.com/ | sh"));
    assert_eq!(log[7], "wsl -d custom-docker-host -e /sbin/service docker start");
    assert_eq!(log[8], "wsl -d custom-docker-host -e wslpath -u /c/tmp");
    assert_eq!(
        log[9],
        "wsl -d custom-docker-host -e docker create --mount type=bind,source=/mnt/c/tmp,target=/x"
    );
}

#[test]
fn invocation_failed_readiness_converts_and_forwards_nothing() {
    let c = cfg();
    let (r, log) = drive(&c, &["create", "--mount", "source=C:\\x", "C:\\y"], &mut |a| match a {
        Action::Run(c) if c.argv.iter().any(|s| s == "--import") => report(Outcome::Failure, "", Some(1)),
        a if is_probe(a) => report(Outcome::Failure, "", Some(1)),
        _ => report(Outcome::Success, "", Some(0)),
    });
    assert_eq!(r, Err(InvokeError::Setup(SetupError::Import)));
    assert!(!log.iter().any(|l| l.contains("wslpath") || l.contains(" docker create")));
}

#[test]
fn invocation_failed_mount_conversion_forwards_nothing() {
    let c = cfg();
    let (r, log) = drive(&c, &["create", "--mount", "source=C:\\x", "img"], &mut |a| {
        if is_conversion(a) {
            report(Outcome::Failure, "", Some(1))
        } else {
            report(Outcome::Success, "", Some(0))
        }
    });
    assert_eq!(r, Err(InvokeError::Conversion));
    assert_eq!(log.len(), 3);
    assert!(log[2].contains("wslpath"));
}

#[test]
fn invocation_failed_backslash_conversion_keeps_argument() {
    let c = cfg();
    let (r, log) = drive(&c, &["run", "C:\\a", "-v", "C:\\b:/b"], &mut |a| match a {
        Action::Run(c) if c.mode == IoMode::Capture && c.argv[6] == "C:\\a" => report(Outcome::Failure, "", None),
        Action::Run(c) if c.mode == IoMode::Capture => report(Outcome::Success, " /mnt/c/b:/b ", None),
        _ => report(Outcome::Success, "", Some(0)),
    });
    assert_eq!(r, Ok(0));
    assert_eq!(log.last().unwrap(), "wsl -d custom-docker-host -e docker run C:\\a -v /mnt/c/b:/b");
    assert_eq!(log.len(), 5);
}

#[test]
fn invocation_forwarded_without_code_exits_with_one() {
    let c = cfg();
    let (r, log) = drive(&c, &["ps"], &mut |a| {
        if matches!(a, Action::Run(c) if c.argv.get(4).map(|s| s == "docker").unwrap_or(false)) {
            report(Outcome::Failure, "", None)
        } else {
            report(Outcome::Success, "", Some(0))
        }
    });
    assert_eq!(r, Ok(1));
    assert_eq!(log.len(), 3);
}

#[test]
fn invocation_reset_runs_maintenance_then_bootstraps() {
    let c = cfg();
    let (r, log) = drive(&c, &["reset-registration"], &mut |a| {
        if is_probe(a) {
            report(Outcome::Failure, "", Some(1))
        } else {
            report(Outcome::Success, "", Some(0))
        }
    });
    assert_eq!(r, Ok(0));
    assert_eq!(log[0], "wsl --shutdown");
    assert_eq!(log[1], "wsl --unregister custom-docker-host");
    assert_eq!(log[2], "wsl -d custom-docker-host -e which docker");
    assert!(log.iter().any(|l| l.ends_with("curl -fsSL https://get.docker.com/ | sh")));
    assert!(!log.iter().any(|l| l.contains("reset-registration")));
}

#[test]
fn invocation_reset_reports_readiness_error() {
    let c = cfg();
    let (r, log) = drive(&c, &["reset-registration"], &mut |a| match a {
        Action::Run(c) if c.argv.get(1).map(|s| s == "--unregister").unwrap_or(false) => report(Outcome::Failure, "", Some(1)),
        Action::CreateDir(_) => report(Outcome::Failure, "", None),
        a if is_probe(a) => report(Outcome::Failure, "", Some(1)),
        _ => report(Outcome::Success, "", Some(0)),
    });
    assert_eq!(r, Err(InvokeError::Setup(SetupError::Directory)));
    assert_eq!(log.len(), 4);
}

#[test]
fn invocation_stop_daemon_only_shuts_down() {
    let c = cfg();
    let (r, log) = drive(&c, &["stop-daemon"], &mut |_| report(Outcome::Failure, "", Some(1)));
    assert_eq!(r, Ok(0));
    assert_eq!(log, vec!["wsl --shutdown".to_string()]);
    let (r, _) = drive(&c, &["stop-daemon"], &mut |_| report(Outcome::Fault, "", None));
    assert_eq!(r, Err(InvokeError::Setup(SetupError::Launch)));
}
