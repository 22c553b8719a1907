use blzrd::error::DeployError;
use blzrd::ui::Separators;
use blzrd::workflow::{build_failure, deployment_outcome};

#[test]
fn build_failure_adds_the_job_name_as_context() {
    let inner = DeployError::new("nix build failed: boom".to_string()).with_context("copy to host".to_string());
    let outer = build_failure("web", inner);
    assert_eq!(outer.message, "nix build failed: boom");
    assert_eq!(outer.context, vec!["copy to host".to_string(), "building web".to_string()]);
    assert_eq!(outer.headline(), "building web");
}

#[test]
fn headline_is_the_message_without_context() {
    let error = DeployError::new("node 'x' not found in flake".to_string());
    assert_eq!(error.headline(), "node 'x' not found in flake");
}

#[test]
fn deployment_outcome_succeeds_when_every_job_succeeded() {
    assert!(deployment_outcome(&vec![Ok(()), Ok(())]).is_ok());
    assert!(deployment_outcome(&Vec::new()).is_ok());
}

#[test]
fn deployment_outcome_fails_when_any_job_failed() {
    let results = vec![Ok(()), Err(DeployError::new("copy failed".to_string())), Ok(())];
    let error = deployment_outcome(&results).unwrap_err();
    assert_eq!(error.message, "deployment failed");
    assert!(error.context.is_empty());
}

#[test]
fn separator_only_after_a_finished_phase() {
    let mut separators = Separators::new();
    assert!(!separators.take());
    separators.phase_finished();
    assert!(separators.take());
    assert!(!separators.take());
    separators.phase_finished();
    separators.phase_finished();
    assert!(separators.take());
    assert!(!separators.take());
}
