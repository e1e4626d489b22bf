use gcloud_ssh::command::keygen_command;
use gcloud_ssh::command::listing_command;
use gcloud_ssh::credentials::directory_setup_outcome;
use gcloud_ssh::credentials::key_directory_path;
use gcloud_ssh::credentials::key_pair_present;
use gcloud_ssh::credentials::keygen_outcome;
use gcloud_ssh::credentials::private_key_path;
use gcloud_ssh::credentials::public_key_path;
use gcloud_ssh::credentials::resolve_home;
use gcloud_ssh::workflow::advance;
use gcloud_ssh::workflow::next_stage;
use gcloud_ssh::workflow::Stage;
use gcloud_ssh::workflow::WorkflowState;
use gcloud_ssh::ProvisionError;

#[test]
fn stages_run_in_the_fixed_order() {
    assert_eq!(next_stage(Stage::EnsureKey), Some(Stage::ListInstances));
    assert_eq!(next_stage(Stage::ListInstances), Some(Stage::SelectInstance));
    assert_eq!(next_stage(Stage::SelectInstance), Some(Stage::DeployKey));
    assert_eq!(next_stage(Stage::DeployKey), Some(Stage::ReportConnection));
    assert_eq!(next_stage(Stage::ReportConnection), None);
}

#[test]
fn success_moves_to_the_next_stage() {
    match advance(Stage::EnsureKey, None) {
        WorkflowState::Running(s) => assert_eq!(s, Stage::ListInstances),
        other => panic!("unexpected state: {:?}", other),
    }
}

#[test]
fn success_at_the_last_stage_completes() {
    assert!(matches!(
        advance(Stage::ReportConnection, None),
        WorkflowState::Completed
    ));
}

#[test]
fn failure_halts_at_the_failing_stage_with_its_error() {
    match advance(Stage::DeployKey, Some(ProvisionError::NoExternalIp)) {
        WorkflowState::Failed(stage, e) => {
            assert_eq!(stage, Stage::DeployKey);
            assert!(matches!(e, ProvisionError::NoExternalIp));
        },
        other => panic!("unexpected state: {:?}", other),
    }
}

#[test]
fn home_resolution_failure_is_its_own_error() {
    let r = resolve_home(None);
    assert!(matches!(r, Err(ProvisionError::HomeDirectoryUnavailable)));
    assert_eq!(resolve_home(Some("/home/ops".to_string())).unwrap(), "/home/ops");
}

#[test]
fn credential_paths_are_fixed() {
    assert_eq!(key_directory_path("/home/ops"), "/home/ops/.ssh");
    assert_eq!(public_key_path("/home/ops"), "/home/ops/.ssh/id_rsa.pub");
    assert_eq!(private_key_path("/home/ops"), "/home/ops/.ssh/id_rsa");
}

#[test]
fn a_partial_pair_is_no_usable_pair() {
    assert!(key_pair_present(true, true));
    assert!(!key_pair_present(true, false));
    assert!(!key_pair_present(false, true));
    assert!(!key_pair_present(false, false));
}

#[test]
fn directory_setup_failures_are_io_failures() {
    assert!(matches!(
        directory_setup_outcome(false, true, true),
        Err(ProvisionError::IoFailure)
    ));
    assert!(matches!(
        directory_setup_outcome(true, true, false),
        Err(ProvisionError::IoFailure)
    ));
    assert!(directory_setup_outcome(true, true, true).is_ok());
    assert!(directory_setup_outcome(true, false, false).is_ok());
}

#[test]
fn keygen_failure_keeps_stderr_verbatim() {
    match keygen_outcome(false, "permission denied".to_string()) {
        Err(ProvisionError::KeyGenerationFailed(detail)) => {
            assert_eq!(detail, "permission denied")
        },
        other => panic!("unexpected outcome: {:?}", other),
    }
    assert!(keygen_outcome(true, String::new()).is_ok());
}

#[test]
fn cli_invocations_are_fixed() {
    let c = keygen_command();
    assert_eq!(c.program, "gcloud");
    let args: Vec<&str> = c.args.iter().map(|a| a.as_str()).collect();
    assert_eq!(args, vec!["compute", "ssh-keys", "create"]);

    let c = listing_command();
    assert_eq!(c.program, "gcloud");
    let args: Vec<&str> = c.args.iter().map(|a| a.as_str()).collect();
    assert_eq!(args, vec!["compute", "instances", "list", "--format=json"]);
}

#[test]
fn error_messages_name_each_condition() {
    assert_eq!(
        ProvisionError::HomeDirectoryUnavailable.message(),
        "could not find home directory"
    );
    assert_eq!(
        ProvisionError::KeyGenerationFailed("boom".to_string()).message(),
        "failed to generate an SSH key: boom"
    );
    assert_eq!(
        ProvisionError::ListingFailed("quota".to_string()).message(),
        "failed to list VM instances: quota"
    );
    assert_eq!(
        ProvisionError::DecodingFailed.message(),
        "failed to parse VM instance JSON data"
    );
    assert_eq!(
        ProvisionError::NoInstancesFound.message(),
        "no VM instances found in the active project"
    );
    assert_eq!(
        ProvisionError::SelectionAborted.message(),
        "VM selection was cancelled"
    );
    assert_eq!(
        ProvisionError::DeploymentFailed("refused".to_string()).message(),
        "failed to copy SSH key to VM: refused"
    );
    assert_eq!(
        ProvisionError::NoExternalIp.message(),
        "VM does not have an external IP address"
    );
    assert_eq!(
        ProvisionError::IoFailure.message(),
        "a local file operation failed"
    );
}
