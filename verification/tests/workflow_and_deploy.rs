use blzrd::cli::CommonArgs;
use blzrd::deploy::{
    activation_commands, activation_unit_name, build_output_path, nix_ssh_options,
    RemoteCommand,
};
use blzrd::models::{BuildResult, JobMap, JobSpec, SystemType};
use blzrd::op::{validate, Operation};
use blzrd::ssh::HostKeyPolicy;
use blzrd::systemd::{next_poll_delay, parse_systemd_state, poll_outcome, timed_out_error, PollOutcome};
use blzrd::workflow::{
    deployment_label, filter_jobs, node_listing, host_key_policy, prepare_jobs, sorted_job_names, sorted_jobs,
};

fn strings(items: &[&str]) -> Vec<String> {
    items.iter().map(|s| s.to_string()).collect()
}

fn spec(hostname: &str, system: SystemType, user: &str) -> JobSpec {
    JobSpec {
        hostname: hostname.into(),
        system,
        user: user.into(),
        drv_path: format!("/nix/store/{hostname}.drv"),
    }
}

fn fleet() -> JobMap {
    let mut jobs = JobMap::new();
    jobs.insert("workstation".into(), spec("workstation", SystemType::Nixos, "root"));
    jobs.insert("server".into(), spec("server", SystemType::Nixos, "deploy"));
    jobs.insert("fortree".into(), spec("fortree", SystemType::Darwin, "aly"));
    jobs
}

fn common(nodes: &[&str], skip: &[&str]) -> CommonArgs {
    CommonArgs {
        nodes: strings(nodes),
        skip: strings(skip),
        build_host: "localhost".into(),
        accept_new_host_keys: false,
        parallel: 5,
    }
}

fn view(c: &RemoteCommand) -> (String, Vec<String>) {
    (c.program.clone(), c.arguments.clone())
}

#[test]
fn filter_keeps_everything_by_default() {
    let (kept, unknown) = filter_jobs(fleet(), &common(&[], &[])).unwrap();
    assert_eq!(kept.names(), strings(&["fortree", "server", "workstation"]));
    assert!(unknown.is_empty());
}

#[test]
fn filter_applies_nodes_and_skip() {
    let (kept, unknown) =
        filter_jobs(fleet(), &common(&["server", "fortree"], &["fortree", "ghost"])).unwrap();
    assert_eq!(kept.names(), strings(&["server"]));
    assert_eq!(unknown, strings(&["ghost"]));
    let (kept, _) = filter_jobs(fleet(), &common(&[], &["server"])).unwrap();
    assert_eq!(kept.names(), strings(&["fortree", "workstation"]));
}

#[test]
fn filter_rejects_unknown_nodes() {
    let e = filter_jobs(fleet(), &common(&["server", "nowhere", "gone"], &[])).unwrap_err();
    assert_eq!(e.message, "node 'nowhere' not found in flake");
}

#[test]
fn prepare_warns_about_unknown_skips_then_validates() {
    let prepared = prepare_jobs(fleet(), &common(&[], &["ghost"]), Operation::Boot);
    assert_eq!(prepared.warnings, strings(&["ignoring unknown node 'ghost' in --skip"]));
    assert_eq!(
        prepared.jobs.unwrap_err().message,
        "job fortree: 'boot' is not a valid darwin operation"
    );
    let prepared = prepare_jobs(fleet(), &common(&[], &["fortree", "ghost"]), Operation::Boot);
    assert_eq!(prepared.warnings.len(), 1);
    assert_eq!(prepared.jobs.unwrap().names(), strings(&["server", "workstation"]));
    let prepared = prepare_jobs(fleet(), &common(&["nope"], &["ghost"]), Operation::Switch);
    assert!(prepared.warnings.is_empty());
    assert!(prepared.jobs.is_err());
}

#[test]
fn validate_reports_the_first_darwin_job() {
    let mut jobs = fleet();
    jobs.insert("aaa-mac".into(), spec("aaa-mac", SystemType::Darwin, "aly"));
    assert!(validate(&jobs, Operation::Switch).is_ok());
    let e = validate(&jobs, Operation::Boot).unwrap_err();
    assert_eq!(e.message, "job aaa-mac: 'boot' is not a valid darwin operation");
}

#[test]
fn host_key_policy_follows_the_flag() {
    let mut args = common(&[], &[]);
    assert_eq!(host_key_policy(&args), HostKeyPolicy::Strict);
    args.accept_new_host_keys = true;
    assert_eq!(host_key_policy(&args), HostKeyPolicy::AcceptNew);
}

#[test]
fn jobs_come_out_sorted() {
    let jobs = fleet();
    assert_eq!(sorted_job_names(&jobs), strings(&["fortree", "server", "workstation"]));
    let entries = sorted_jobs(jobs);
    let names: Vec<&str> = entries.iter().map(|(n, _)| n.as_str()).collect();
    assert_eq!(names, vec!["fortree", "server", "workstation"]);
    assert_eq!(entries[1].1.user, "deploy");
}

#[test]
fn deployment_label_shows_target() {
    let s = spec("server", SystemType::Nixos, "deploy");
    assert_eq!(deployment_label("server", &s), "server -> deploy@server");
}

#[test]
fn activation_for_nixos_switch_runs_in_a_unit() {
    let s = spec("server", SystemType::Nixos, "root");
    let cmds = activation_commands(&s, "/nix/store/sys", Operation::Switch, "unit-1").unwrap();
    assert_eq!(cmds.len(), 2);
    assert_eq!(
        view(&cmds[0]),
        (
            "/run/current-system/sw/bin/nix-env".to_string(),
            strings(&["-p", "/nix/var/nix/profiles/system", "--set", "/nix/store/sys"])
        )
    );
    assert_eq!(
        view(&cmds[1]),
        (
            "/run/current-system/sw/bin/systemd-run".to_string(),
            strings(&[
                "--unit",
                "unit-1",
                "--remain-after-exit",
                "--no-block",
                "--",
                "/nix/store/sys/bin/switch-to-configuration",
                "switch"
            ])
        )
    );
}

#[test]
fn activation_for_nixos_boot_uses_sudo_for_other_users() {
    let s = spec("server", SystemType::Nixos, "deploy");
    let cmds = activation_commands(&s, "/nix/store/sys", Operation::Boot, "unit-1").unwrap();
    assert_eq!(
        view(&cmds[0]),
        (
            "sudo".to_string(),
            strings(&[
                "-n",
                "/run/current-system/sw/bin/nix-env",
                "-p",
                "/nix/var/nix/profiles/system",
                "--set",
                "/nix/store/sys"
            ])
        )
    );
    assert_eq!(
        view(&cmds[1]),
        (
            "sudo".to_string(),
            strings(&["-n", "/nix/store/sys/bin/switch-to-configuration", "boot"])
        )
    );
}

#[test]
fn activation_for_darwin() {
    let s = spec("fortree", SystemType::Darwin, "aly");
    let cmds = activation_commands(&s, "/nix/store/drw", Operation::Switch, "u").unwrap();
    assert_eq!(view(&cmds[1]), ("sudo".to_string(), strings(&["-n", "/nix/store/drw/activate"])));
    let e = activation_commands(&s, "/nix/store/drw", Operation::Boot, "u").unwrap_err();
    assert_eq!(e.message, "job fortree: 'boot' is not a valid darwin operation");
}

#[test]
fn build_output_path_reads_the_first_out() {
    let results = vec![
        BuildResult { outputs: vec![("out".into(), "/nix/store/first".into())] },
        BuildResult { outputs: vec![("out".into(), "/nix/store/second".into())] },
    ];
    assert_eq!(build_output_path(results).unwrap(), "/nix/store/first");
    let e = build_output_path(vec![]).unwrap_err();
    assert_eq!(e.message, "build result missing 'out' output");
    let e = build_output_path(vec![BuildResult { outputs: vec![("dev".into(), "/x".into())] }])
        .unwrap_err();
    assert_eq!(e.message, "build result missing 'out' output");
}

#[test]
fn nix_ssh_options_extend_the_environment() {
    assert_eq!(nix_ssh_options(None, HostKeyPolicy::Strict), "-o StrictHostKeyChecking=yes");
    assert_eq!(
        nix_ssh_options(Some("  ".into()), HostKeyPolicy::AcceptNew),
        "-o StrictHostKeyChecking=accept-new"
    );
    assert_eq!(
        nix_ssh_options(Some("-p 2222".into()), HostKeyPolicy::Strict),
        "-p 2222 -o StrictHostKeyChecking=yes"
    );
}

#[test]
fn activation_unit_names_are_fresh_and_well_formed() {
    let a = activation_unit_name();
    let b = activation_unit_name();
    assert!(a.starts_with("blzrd-activate-"));
    let id = &a["blzrd-activate-".len()..];
    assert_eq!(id.len(), 32);
    assert!(id.chars().all(|c| c.is_ascii_digit() || ('a'..='f').contains(&c)));
    assert_ne!(a, b);
}

#[test]
fn systemd_state_takes_the_last_values() {
    let out = b"Id=x.service\nSubState=running\nExecMainStatus=0\nSubState= exited \r\nExecMainStatus=3\n";
    assert_eq!(parse_systemd_state(out), (Some("exited".to_string()), Some(3)));
    assert_eq!(parse_systemd_state(b""), (None, None));
    assert_eq!(
        parse_systemd_state(b"ExecMainStatus=1\nExecMainStatus=oops"),
        (None, None)
    );
    assert_eq!(parse_systemd_state(b"SubState=failed"), (Some("failed".to_string()), None));
    assert_eq!(
        parse_systemd_state(b"\xffSubState=x\nSubState=\xfe\n"),
        (Some("\u{fffd}".to_string()), None)
    );
}

#[test]
fn poll_outcomes() {
    let exited = Some("exited".to_string());
    assert!(matches!(poll_outcome("root@h", &exited, None), PollOutcome::Succeeded));
    assert!(matches!(poll_outcome("root@h", &exited, Some(0)), PollOutcome::Succeeded));
    match poll_outcome("root@h", &exited, Some(4)) {
        PollOutcome::Failed(e) => assert_eq!(
            e.message,
            "activation on root@h: switch-to-configuration exited with code 4"
        ),
        _ => panic!("expected a failure"),
    }
    match poll_outcome("root@h", &Some("failed".to_string()), None) {
        PollOutcome::Failed(e) => {
            assert_eq!(e.message, "activation on root@h: unit failed (ExecMainStatus=-1)")
        }
        _ => panic!("expected a failure"),
    }
    assert!(matches!(
        poll_outcome("root@h", &Some("running".to_string()), Some(1)),
        PollOutcome::Pending
    ));
    assert!(matches!(poll_outcome("root@h", &None, None), PollOutcome::Pending));
    assert_eq!(
        timed_out_error("root@h", "u").message,
        "activation on root@h: timed out waiting for u unit"
    );
}

#[test]
fn poll_delays_double_up_to_a_minute() {
    let mut delay = 5;
    let mut seen = vec![delay];
    for _ in 0..5 {
        delay = next_poll_delay(delay);
        seen.push(delay);
    }
    assert_eq!(seen, vec![5, 10, 20, 40, 60, 60]);
}

#[test]
fn listing_shows_each_node_in_name_order() {
    assert_eq!(
        node_listing(&fleet()),
        vec![
            "fortree -> aly@fortree".to_string(),
            "server -> deploy@server".to_string(),
            "workstation -> root@workstation".to_string(),
        ]
    );
    assert!(node_listing(&JobMap::new()).is_empty());
}
