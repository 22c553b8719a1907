use blzrd::closure::{
    build_closure, deploy_closure, BuildAction, BuildEvent, BuildStage, DeployAction,
    DeployEvent, DeployStage,
};
use blzrd::deploy::{LocalCommand, RemoteCommand};
use blzrd::error::DeployError;
use blzrd::evaluate::{
    build_job_specs, cache_home, collect_basics, eval_jobs_command, evaluated_job_name,
    infer_system_type, node_metadata_command, resolve_job, EvaluationProgress, NodeMetadata,
};
use blzrd::models::{BuildResult, JobSpec, NixEvalJobsResult, SystemType};
use blzrd::op::Operation;
use blzrd::ssh::HostKeyPolicy;

fn strings(items: &[&str]) -> Vec<String> {
    items.iter().map(|s| s.to_string()).collect()
}

fn record(name: &str, system: &str, out: &str) -> NixEvalJobsResult {
    NixEvalJobsResult {
        attr: format!("{name}.output"),
        attr_path: Some(strings(&[name, "output"])),
        drv_path: Some(format!("/nix/store/{name}.drv")),
        error: None,
        outputs: Some(vec![("out".to_string(), out.to_string())]),
        system: Some(system.to_string()),
    }
}

fn metadata(hostname: Option<&str>, user: Option<&str>, node_type: Option<&str>) -> NodeMetadata {
    NodeMetadata {
        hostname: hostname.map(str::to_owned),
        user: user.map(str::to_owned),
        node_type: node_type.map(str::to_owned),
    }
}

fn local(c: &LocalCommand) -> (String, Vec<String>, Vec<(String, String)>) {
    (c.program.clone(), c.arguments.clone(), c.environment.clone())
}

fn remote(c: &RemoteCommand) -> (String, Vec<String>) {
    (c.program.clone(), c.arguments.clone())
}

#[test]
fn evaluation_commands() {
    let c = eval_jobs_command("github:a/infra", "/home/u/.cache/blzrd");
    assert_eq!(
        local(&c),
        (
            "nix-eval-jobs".to_string(),
            strings(&[
                "--gc-roots-dir",
                "/home/u/.cache/blzrd",
                "--force-recurse",
                "--flake",
                "github:a/infra#blzrd.nodes"
            ]),
            vec![]
        )
    );
    let c = node_metadata_command(".", "server");
    assert_eq!(c.program, "nix");
    assert_eq!(c.arguments[0..3], strings(&["eval", "--json", "--apply"])[..]);
    assert!(c.arguments[3].starts_with("node: { hostname = node.hostname or \"\";"));
    assert_eq!(c.arguments[4], ".#blzrd.nodes.server");
}

#[test]
fn cache_home_prefers_xdg() {
    assert_eq!(cache_home(Some("/xdg".into()), Some("/home/u".into())), Some("/xdg".into()));
    assert_eq!(cache_home(Some("".into()), Some("/home/u".into())), Some("/home/u/.cache".into()));
    assert_eq!(cache_home(None, Some("/home/u".into())), Some("/home/u/.cache".into()));
    assert_eq!(cache_home(None, None), None);
}

#[test]
fn evaluated_names_come_from_the_attribute_path() {
    let r = record("server", "x86_64-linux", "/nix/store/s");
    assert_eq!(evaluated_job_name(&r), "server");
    let mut r2 = r;
    r2.attr_path = None;
    assert_eq!(evaluated_job_name(&r2), "server.output");
}

#[test]
fn collect_basics_reads_each_record() {
    let mut second = record("server", "x86_64-linux", "/nix/store/s2");
    second.drv_path = None;
    let rs = vec![
        record("server", "x86_64-linux", "/nix/store/s1"),
        record("mac", "aarch64-darwin", "/nix/store/m"),
        second,
    ];
    let basics = collect_basics(&rs).unwrap();
    assert_eq!(basics.names(), strings(&["mac", "server"]));
    assert_eq!(
        basics.get("server"),
        Some(&("/nix/store/s2".to_string(), String::new()))
    );
    assert_eq!(
        basics.get("mac"),
        Some(&("/nix/store/m".to_string(), "/nix/store/mac.drv".to_string()))
    );
}

#[test]
fn collect_basics_reports_bad_records() {
    let mut bad = record("a", "x86_64-linux", "/o");
    bad.error = Some("evaluation failed".into());
    assert_eq!(collect_basics(&vec![bad]).unwrap_err().message, "job a.output: evaluation failed");

    let mut bad = record("a", "x86_64-linux", "/o");
    bad.attr_path = None;
    assert_eq!(collect_basics(&vec![bad]).unwrap_err().message, "job a.output: missing attr_path");

    let mut bad = record("a", "x86_64-linux", "/o");
    bad.attr_path = Some(strings(&["a"]));
    assert_eq!(
        collect_basics(&vec![bad]).unwrap_err().message,
        "job a.output: malformed attr_path: [\"a\"]"
    );

    let mut bad = record("a", "x86_64-linux", "/o");
    bad.outputs = None;
    assert_eq!(collect_basics(&vec![bad]).unwrap_err().message, "job a: missing outputs");

    let mut bad = record("a", "x86_64-linux", "/o");
    bad.outputs = Some(vec![("bin".into(), "/b".into())]);
    assert_eq!(collect_basics(&vec![bad]).unwrap_err().message, "job a: missing 'out' output");

    let mut bad = record("b", "x86_64-linux", "/o");
    bad.outputs = None;
    let rs = vec![record("a", "x86_64-linux", "/o"), bad];
    assert_eq!(collect_basics(&rs).unwrap_err().message, "job b: missing outputs");
}

#[test]
fn system_types_are_inferred_from_the_platform() {
    let rs = vec![
        record("server", "x86_64-linux", "/s"),
        record("mac", "aarch64-darwin", "/m"),
        record("odd", "riscv64-none", "/o"),
    ];
    assert_eq!(infer_system_type("server", &rs).unwrap(), "nixos");
    assert_eq!(infer_system_type("mac", &rs).unwrap(), "darwin");
    assert_eq!(
        infer_system_type("odd", &rs).unwrap_err().message,
        "job odd: unknown system type: riscv64-none"
    );
    assert_eq!(
        infer_system_type("missing", &rs).unwrap_err().message,
        "job missing: unknown system type: "
    );
}

#[test]
fn node_metadata_defaults() {
    let rs = vec![record("mac", "aarch64-darwin", "/m")];
    let m = metadata(Some(""), None, Some(""));
    assert_eq!(m.hostname_or_name("mac"), "mac");
    assert_eq!(m.user(), "");
    assert_eq!(m.system_type("mac", &rs).unwrap(), SystemType::Darwin);
    let m = metadata(Some("mac.local"), Some("aly"), Some("nixos"));
    assert_eq!(m.hostname_or_name("mac"), "mac.local");
    assert_eq!(m.system_type("mac", &rs).unwrap(), SystemType::Nixos);
    let m = metadata(None, None, Some("bsd"));
    assert_eq!(
        m.system_type("mac", &rs).unwrap_err().message,
        "job mac: unsupported system type: bsd"
    );
    let d = NodeMetadata::default();
    assert!(d.hostname.is_none() && d.user.is_none() && d.node_type.is_none());
}

#[test]
fn resolve_job_checks_in_order() {
    let rs = vec![record("server", "x86_64-linux", "/nix/store/s")];
    let basics = collect_basics(&rs).unwrap();
    let job = resolve_job("server", &basics, &metadata(None, Some("root"), None), &rs).unwrap();
    assert_eq!(job.hostname, "server");
    assert_eq!(job.user, "root");
    assert_eq!(job.system, SystemType::Nixos);
    assert_eq!(job.drv_path, "/nix/store/server.drv");
    assert_eq!(
        resolve_job("server", &basics, &metadata(None, None, None), &rs).unwrap_err().message,
        "job server: missing user"
    );
    assert_eq!(
        resolve_job("other", &basics, &metadata(None, None, Some("nixos")), &rs)
            .unwrap_err()
            .message,
        "job other: missing output path"
    );
    assert_eq!(
        resolve_job("other", &basics, &metadata(None, None, None), &rs).unwrap_err().message,
        "job other: unknown system type: "
    );
}

#[test]
fn job_specs_are_collected_in_name_order() {
    let rs = vec![
        record("zeta", "x86_64-linux", "/nix/store/z"),
        record("alpha", "aarch64-darwin", "/nix/store/a"),
    ];
    let mut collection = build_job_specs(collect_basics(&rs).unwrap());
    assert_eq!(collection.next_name().unwrap(), "alpha");
    match collection.accept(&metadata(Some("alpha.lan"), Some("aly"), None), &rs).unwrap() {
        EvaluationProgress::MetadataResolved { name } => assert_eq!(name, "alpha"),
        _ => panic!("unexpected progress"),
    }
    assert_eq!(collection.next_name().unwrap(), "zeta");
    collection.accept(&metadata(None, Some("root"), None), &rs).unwrap();
    assert!(collection.next_name().is_none());
    let jobs = collection.into_jobs();
    assert_eq!(jobs.names(), strings(&["alpha", "zeta"]));
    assert_eq!(jobs.get("alpha").unwrap().hostname, "alpha.lan");
    assert_eq!(jobs.get("alpha").unwrap().system, SystemType::Darwin);
    assert_eq!(jobs.get("zeta").unwrap().target(), "root@zeta");
}

fn job(system: SystemType, user: &str) -> JobSpec {
    JobSpec {
        hostname: "host".into(),
        system,
        user: user.into(),
        drv_path: "/nix/store/x.drv".into(),
    }
}

fn fail(message: &str) -> DeployError {
    DeployError::new(message.to_string())
}

#[test]
fn local_build_runs_one_nix_build() {
    let mut b = build_closure(&job(SystemType::Nixos, "root"), "localhost", HostKeyPolicy::Strict, None);
    assert_eq!(b.current_stage(), BuildStage::Start);
    match b.step(BuildEvent::Begin) {
        BuildAction::RunJson(c) => assert_eq!(
            local(&c),
            ("nix".to_string(), strings(&["build", "--no-link", "--json", "/nix/store/x.drv^*"]), vec![])
        ),
        _ => panic!("expected a build"),
    }
    let results = vec![BuildResult { outputs: vec![("out".into(), "/nix/store/built".into())] }];
    match b.step(BuildEvent::Built(results)) {
        BuildAction::Finish(Ok(path)) => assert_eq!(path, "/nix/store/built"),
        _ => panic!("expected the output path"),
    }
    assert_eq!(b.current_stage(), BuildStage::Done);
}

#[test]
fn remote_build_copies_builds_and_copies_back() {
    let mut b = build_closure(
        &job(SystemType::Nixos, "root"),
        "builder",
        HostKeyPolicy::AcceptNew,
        Some("-i key".into()),
    );
    let env = vec![(
        "NIX_SSHOPTS".to_string(),
        "-i key -o StrictHostKeyChecking=accept-new".to_string(),
    )];
    match b.step(BuildEvent::Begin) {
        BuildAction::Run(c) => assert_eq!(
            local(&c),
            (
                "nix".to_string(),
                strings(&["copy", "--to", "ssh-ng://builder", "/nix/store/x.drv^*"]),
                env.clone()
            )
        ),
        _ => panic!("expected a copy"),
    }
    match b.step(BuildEvent::Succeeded) {
        BuildAction::RunJson(c) => assert_eq!(
            c.arguments,
            strings(&["build", "--no-link", "--json", "--store", "ssh-ng://builder", "/nix/store/x.drv^*"])
        ),
        _ => panic!("expected a build"),
    }
    let results = vec![BuildResult { outputs: vec![("out".into(), "/nix/store/o".into())] }];
    match b.step(BuildEvent::Built(results)) {
        BuildAction::Run(c) => assert_eq!(
            local(&c),
            (
                "nix".to_string(),
                strings(&["copy", "--from", "ssh-ng://builder", "/nix/store/o", "--no-check-sigs"]),
                env
            )
        ),
        _ => panic!("expected a copy back"),
    }
    match b.step(BuildEvent::Succeeded) {
        BuildAction::Finish(Ok(p)) => assert_eq!(p, "/nix/store/o"),
        _ => panic!("expected the output path"),
    }
}

#[test]
fn remote_build_failures_name_the_step() {
    let mut b = build_closure(&job(SystemType::Nixos, "root"), "builder", HostKeyPolicy::Strict, None);
    b.step(BuildEvent::Begin);
    match b.step(BuildEvent::Failed(fail("nix copy failed: no route"))) {
        BuildAction::Finish(Err(e)) => {
            assert_eq!(e.message, "nix copy failed: no route");
            assert_eq!(e.context, strings(&["copy to builder"]));
        }
        _ => panic!("expected a failure"),
    }
    let mut b = build_closure(&job(SystemType::Nixos, "root"), "builder", HostKeyPolicy::Strict, None);
    b.step(BuildEvent::Begin);
    b.step(BuildEvent::Succeeded);
    match b.step(BuildEvent::Failed(fail("boom"))) {
        BuildAction::Finish(Err(e)) => assert_eq!(e.context, strings(&["build on builder"])),
        _ => panic!("expected a failure"),
    }
    let mut b = build_closure(&job(SystemType::Nixos, "root"), "builder", HostKeyPolicy::Strict, None);
    b.step(BuildEvent::Begin);
    b.step(BuildEvent::Succeeded);
    match b.step(BuildEvent::Built(vec![])) {
        BuildAction::Finish(Err(e)) => {
            assert_eq!(e.message, "build result missing 'out' output");
            assert!(e.context.is_empty());
        }
        _ => panic!("expected a failure"),
    }
}

#[test]
fn nixos_switch_deployment_waits_for_the_unit() {
    let spec = job(SystemType::Nixos, "deploy");
    let mut d = deploy_closure(&spec, "/nix/store/sys", Operation::Switch, HostKeyPolicy::Strict, None);
    let unit = match d.step(DeployEvent::Begin) {
        DeployAction::RunLocal(c) => {
            assert_eq!(
                local(&c),
                (
                    "nix".to_string(),
                    strings(&["copy", "--to", "ssh-ng://deploy@host", "/nix/store/sys", "--no-check-sigs"]),
                    vec![("NIX_SSHOPTS".to_string(), "-o StrictHostKeyChecking=yes".to_string())]
                )
            );
            String::new()
        }
        _ => panic!("expected a copy"),
    };
    assert!(unit.is_empty());
    match d.step(DeployEvent::Succeeded) {
        DeployAction::RunRemote(c) => assert_eq!(
            remote(&c).1,
            strings(&["-n", "/run/current-system/sw/bin/nix-env", "-p", "/nix/var/nix/profiles/system", "--set", "/nix/store/sys"])
        ),
        _ => panic!("expected the profile update"),
    }
    let unit = match d.step(DeployEvent::Succeeded) {
        DeployAction::RunRemote(c) => {
            assert_eq!(c.program, "sudo");
            assert_eq!(c.arguments[1], "/run/current-system/sw/bin/systemd-run");
            c.arguments[3].clone()
        }
        _ => panic!("expected the activation"),
    };
    assert!(unit.starts_with("blzrd-activate-"));
    match d.step(DeployEvent::Succeeded) {
        DeployAction::StartPolling { timeout_seconds } => assert_eq!(timeout_seconds, 300),
        _ => panic!("expected polling"),
    }
    let query = match d.step(DeployEvent::PollStarted) {
        DeployAction::Query(c) => remote(&c),
        _ => panic!("expected a query"),
    };
    assert_eq!(query, ("systemctl".to_string(), vec!["show".to_string(), unit.clone()]));
    let mut waits = vec![];
    for answer in [None, Some(b"SubState=running\n".to_vec()), Some(b"SubState=start\n".to_vec())] {
        match d.step(DeployEvent::PollAnswered(answer)) {
            DeployAction::Sleep { seconds } => waits.push(seconds),
            _ => panic!("expected a wait"),
        }
        assert_eq!(d.current_stage(), DeployStage::Sleeping);
        match d.step(DeployEvent::Woke) {
            DeployAction::Query(_) => {}
            _ => panic!("expected a query"),
        }
    }
    assert_eq!(waits, vec![5, 10, 20]);
    match d.step(DeployEvent::PollAnswered(Some(b"SubState=exited\nExecMainStatus=0\n".to_vec()))) {
        DeployAction::Finish(Ok(())) => {}
        _ => panic!("expected success"),
    }
    assert_eq!(d.current_stage(), DeployStage::Done);
}

#[test]
fn deployment_failures_carry_context() {
    let spec = job(SystemType::Nixos, "root");
    let mut d = deploy_closure(&spec, "/nix/store/sys", Operation::Switch, HostKeyPolicy::Strict, None);
    d.step(DeployEvent::Begin);
    d.step(DeployEvent::Succeeded);
    d.step(DeployEvent::Succeeded);
    d.step(DeployEvent::Succeeded);
    d.step(DeployEvent::PollStarted);
    match d.step(DeployEvent::PollAnswered(Some(b"SubState=exited\nExecMainStatus=2".to_vec()))) {
        DeployAction::Finish(Err(e)) => {
            assert_eq!(e.message, "activation on root@host: switch-to-configuration exited with code 2");
            assert_eq!(e.context, strings(&["activation on root@host"]));
        }
        _ => panic!("expected failure"),
    }

    let mut d = deploy_closure(&spec, "/nix/store/sys", Operation::Switch, HostKeyPolicy::Strict, None);
    d.step(DeployEvent::Begin);
    d.step(DeployEvent::Succeeded);
    d.step(DeployEvent::Succeeded);
    d.step(DeployEvent::Succeeded);
    d.step(DeployEvent::PollStarted);
    match d.step(DeployEvent::PollExpired) {
        DeployAction::Finish(Err(e)) => {
            assert!(e.message.starts_with("activation on root@host: timed out waiting for blzrd-activate-"));
            assert!(e.message.ends_with(" unit"));
        }
        _ => panic!("expected a timeout"),
    }

    let mut d = deploy_closure(&spec, "/nix/store/sys", Operation::Boot, HostKeyPolicy::Strict, None);
    d.step(DeployEvent::Begin);
    match d.step(DeployEvent::Failed(fail("nix copy failed"))) {
        DeployAction::Finish(Err(e)) => assert_eq!(e.context, strings(&["copy to root@host"])),
        _ => panic!("expected failure"),
    }

    let mut d = deploy_closure(&spec, "/nix/store/sys", Operation::Boot, HostKeyPolicy::Strict, None);
    d.step(DeployEvent::Begin);
    d.step(DeployEvent::Succeeded);
    match d.step(DeployEvent::Failed(fail("ssh failed"))) {
        DeployAction::Finish(Err(e)) => assert_eq!(e.context, strings(&["activation on root@host"])),
        _ => panic!("expected failure"),
    }
}

#[test]
fn boot_and_darwin_deployments_do_not_wait() {
    let spec = job(SystemType::Nixos, "root");
    let mut d = deploy_closure(&spec, "/nix/store/sys", Operation::Boot, HostKeyPolicy::Strict, None);
    d.step(DeployEvent::Begin);
    d.step(DeployEvent::Succeeded);
    match d.step(DeployEvent::Succeeded) {
        DeployAction::RunRemote(c) => assert_eq!(
            remote(&c),
            ("/nix/store/sys/bin/switch-to-configuration".to_string(), strings(&["boot"]))
        ),
        _ => panic!("expected the activation"),
    }
    assert!(matches!(d.step(DeployEvent::Succeeded), DeployAction::Finish(Ok(()))));

    let mac = job(SystemType::Darwin, "aly");
    let mut d = deploy_closure(&mac, "/nix/store/drw", Operation::Switch, HostKeyPolicy::Strict, None);
    d.step(DeployEvent::Begin);
    d.step(DeployEvent::Succeeded);
    d.step(DeployEvent::Succeeded);
    assert!(matches!(d.step(DeployEvent::Succeeded), DeployAction::Finish(Ok(()))));

    let mut d = deploy_closure(&mac, "/nix/store/drw", Operation::Boot, HostKeyPolicy::Strict, None);
    d.step(DeployEvent::Begin);
    match d.step(DeployEvent::Succeeded) {
        DeployAction::Finish(Err(e)) => {
            assert_eq!(e.message, "job host: 'boot' is not a valid darwin operation")
        }
        _ => panic!("expected failure"),
    }
    assert!(!d.accepts(&DeployEvent::Succeeded));
}
