use gcloud_ssh::deploy::build_remote_command;
use gcloud_ssh::deploy::deploy_outcome;
use gcloud_ssh::deploy::deployment_command;
use gcloud_ssh::deploy::public_key_read_outcome;
use gcloud_ssh::AccessConfig;
use gcloud_ssh::Instance;
use gcloud_ssh::NetworkInterface;
use gcloud_ssh::ProvisionError;

const KEY: &str = "ssh-rsa AAAAB3Nza user@host";

fn worker() -> Instance {
    Instance {
        name: "worker-1".to_string(),
        zone_url: "projects/p/zones/us-central1-a".to_string(),
        network_interfaces: vec![NetworkInterface {
            access_configs: vec![AccessConfig {
                nat_ip: Some("34.1.2.3".to_string()),
            }],
        }],
    }
}

#[test]
fn remote_command_is_exact() {
    let cmd = build_remote_command("ssh-rsa KEYDATA user@host\n");
    let expected = "mkdir -p ~/.ssh && chmod 700 ~/.ssh && echo 'ssh-rsa KEYDATA user@host' >> ~/.ssh/authorized_keys && chmod 600 ~/.ssh/authorized_keys";
    assert_eq!(cmd, expected);
}

#[test]
fn remote_command_trims_the_key() {
    let with_whitespace = build_remote_command("  ssh-rsa KEYDATA u@h \n");
    let bare = build_remote_command("ssh-rsa KEYDATA u@h");
    assert_eq!(with_whitespace, bare);
}

#[test]
fn remote_command_appends_unconditionally_on_every_run() {
    let first = build_remote_command(KEY);
    let second = build_remote_command(KEY);
    assert_eq!(first, second);
    assert!(first.contains(">> ~/.ssh/authorized_keys"));
    assert!(second.contains(">> ~/.ssh/authorized_keys"));
}

#[test]
fn remote_command_orders_the_steps() {
    let cmd = build_remote_command(KEY);
    let mkdir = cmd.find("mkdir -p ~/.ssh").unwrap();
    let restrict_dir = cmd.find("chmod 700 ~/.ssh").unwrap();
    let append = cmd.find(">> ~/.ssh/authorized_keys").unwrap();
    let restrict_file = cmd.find("chmod 600 ~/.ssh/authorized_keys").unwrap();
    assert!(mkdir < restrict_dir);
    assert!(restrict_dir < append);
    assert!(append < restrict_file);
}

#[test]
fn deployment_command_addresses_the_instance() {
    let c = deployment_command(&worker(), KEY);
    assert_eq!(c.program, "gcloud");
    let args: Vec<&str> = c.args.iter().map(|a| a.as_str()).collect();
    assert_eq!(args[0], "compute");
    assert_eq!(args[1], "ssh");
    assert_eq!(args[2], "worker-1");
    assert_eq!(args[3], "--zone");
    assert_eq!(args[4], "us-central1-a");
    assert_eq!(args[5], "--command");
    assert_eq!(args[6], build_remote_command(KEY));
    assert_eq!(args.len(), 7);
}

#[test]
fn deploy_failure_keeps_stderr_verbatim() {
    let r = deploy_outcome(false, "connection refused".to_string());
    match r {
        Err(ProvisionError::DeploymentFailed(detail)) => {
            assert_eq!(detail, "connection refused")
        },
        other => panic!("unexpected outcome: {:?}", other),
    }
}

#[test]
fn deploy_success_is_ok() {
    assert!(deploy_outcome(true, String::new()).is_ok());
}

#[test]
fn unreadable_public_key_is_an_io_failure() {
    let r = public_key_read_outcome(None);
    assert!(matches!(r, Err(ProvisionError::IoFailure)));
    let k = public_key_read_outcome(Some("ssh-rsa AAA u@h".to_string())).unwrap();
    assert_eq!(k, "ssh-rsa AAA u@h");
}
