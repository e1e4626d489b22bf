use vstd::prelude::*;
use vstd::string::*;
use crate::text::strings_view;

verus! {

/// One invocation of the external CLI collaborator: a program name and its
/// arguments, ready for an outside process runner to execute. The library
/// only builds these; running them, and handing back the exit status and the
/// captured output, is the runner's job.
#[derive(Debug)]
pub struct CommandRequest {
    /// The program to invoke.
    pub program: String,
    /// Its arguments, in order.
    pub args: Vec<String>,
}

/// The key-generation invocation of the cloud CLI.
pub fn keygen_command() -> (c: CommandRequest)
    ensures
        c.program@ == "gcloud"@,
        strings_view(c.args@) == seq!["compute"@, "ssh-keys"@, "create"@],
{
    let c = CommandRequest {
        program: String::from_str("gcloud"),
        args: vec![
            String::from_str("compute"),
            String::from_str("ssh-keys"),
            String::from_str("create"),
        ],
    };
    proof {
        assert(strings_view(c.args@) =~= seq!["compute"@, "ssh-keys"@, "create"@]);
    }
    c
}

/// The instance-listing invocation of the cloud CLI, requesting
/// machine-readable (JSON) output.
pub fn listing_command() -> (c: CommandRequest)
    ensures
        c.program@ == "gcloud"@,
        strings_view(c.args@) == seq!["compute"@, "instances"@, "list"@, "--format=json"@],
{
    let c = CommandRequest {
        program: String::from_str("gcloud"),
        args: vec![
            String::from_str("compute"),
            String::from_str("instances"),
            String::from_str("list"),
            String::from_str("--format=json"),
        ],
    };
    proof {
        assert(strings_view(c.args@) =~= seq![
            "compute"@,
            "instances"@,
            "list"@,
            "--format=json"@,
        ]);
    }
    c
}

/// The remote-execution invocation of the cloud CLI: runs one shell command
/// on the named instance in the named zone.
pub fn remote_exec_command(instance_name: &str, zone: &str, remote: &str) -> (c: CommandRequest)
    ensures
        c.program@ == "gcloud"@,
        strings_view(c.args@) == seq![
            "compute"@,
            "ssh"@,
            instance_name@,
            "--zone"@,
            zone@,
            "--command"@,
            remote@,
        ],
{
    let c = CommandRequest {
        program: String::from_str("gcloud"),
        args: vec![
            String::from_str("compute"),
            String::from_str("ssh"),
            String::from_str(instance_name),
            String::from_str("--zone"),
            String::from_str(zone),
            String::from_str("--command"),
            String::from_str(remote),
        ],
    };
    proof {
        assert(strings_view(c.args@) =~= seq![
            "compute"@,
            "ssh"@,
            instance_name@,
            "--zone"@,
            zone@,
            "--command"@,
            remote@,
        ]);
    }
    c
}

} // verus!
