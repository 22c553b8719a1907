use blzrd::deploy::root_command;
use blzrd::evaluate::NodeMetadata;
use blzrd::models::{JobMap, JobSpec, SystemType};
use blzrd::op::{validate, Operation};

/// Build a minimal `JobSpec` with the given system type and default
/// user/host values.
fn job(system: SystemType) -> JobSpec {
    JobSpec {
        hostname: "host".into(),
        system,
        user: "deploy".into(),
        drv_path: "/nix/store/dummy-drv".into(),
    }
}

fn job_for_user(user: &str) -> JobSpec {
    JobSpec {
        hostname: "host".to_owned(),
        system: SystemType::Nixos,
        user: user.to_owned(),
        drv_path: "/nix/store/example.drv".to_owned(),
    }
}

#[test]
fn validate_nixos_switch_ok() {
    let mut jobs = JobMap::new();
    jobs.insert("nixos-host".into(), job(SystemType::Nixos));
    validate(&jobs, Operation::Switch).unwrap();
}

#[test]
fn validate_darwin_boot_errors() {
    let mut jobs = JobMap::new();
    jobs.insert("mac".into(), job(SystemType::Darwin));
    assert!(validate(&jobs, Operation::Boot).is_err());
}

#[test]
fn target_formats_user_at_host() {
    let spec = job(SystemType::Nixos);
    assert_eq!(spec.target(), "deploy@host");
}

#[test]
fn root_command_runs_directly_for_root() {
    let command = root_command(&job_for_user("root"), "activate", vec!["switch".to_owned()]);

    assert_eq!(command.program, "activate");
    assert_eq!(command.arguments, ["switch"]);
}

#[test]
fn root_command_uses_noninteractive_sudo_for_other_users() {
    let command = root_command(&job_for_user("deploy"), "activate", vec!["switch".to_owned()]);

    assert_eq!(command.program, "sudo");
    assert_eq!(command.arguments, ["-n", "activate", "switch"]);
}

/// Decode the JSON as the metadata projection does: a missing or `null`
/// field is `None`.
fn metadata_from_json(text: &str) -> NodeMetadata {
    let value: serde_json::Value = serde_json::from_str(text).unwrap();
    let field = |key: &str| value.get(key).and_then(|v| v.as_str()).map(str::to_owned);
    NodeMetadata {
        hostname: field("hostname"),
        user: field("user"),
        node_type: field("type"),
    }
}

#[test]
fn node_metadata_accepts_a_null_hostname() {
    let metadata = metadata_from_json(r#"{"hostname":null,"type":"nixos","user":"root"}"#);

    assert_eq!(metadata.hostname_or_name("jubilife"), "jubilife");
    assert_eq!(metadata.user(), "root");
}
