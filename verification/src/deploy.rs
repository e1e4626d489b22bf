use vstd::prelude::*;
use vstd::string::*;
use crate::command::CommandRequest;
use crate::command::remote_exec_command;
use crate::errors::ProvisionError;
use crate::instance::Instance;
use crate::instance::zone_of;
use crate::text::strings_view;
use crate::text::trim;
use crate::text::trim_of;

verus! {

/// The fixed head of the remote installation command: create the remote
/// `.ssh` directory and restrict it to its owner before anything is written
/// into it.
pub open spec fn remote_command_head() -> Seq<char> {
    "mkdir -p ~/.ssh && chmod 700 ~/.ssh && echo '"@
}

/// The fixed tail of the remote installation command: append the quoted key
/// line to the authorized-keys file, then restrict that file to owner
/// read/write, so the file is never left world-readable.
pub open spec fn remote_command_tail() -> Seq<char> {
    "' >> ~/.ssh/authorized_keys && chmod 600 ~/.ssh/authorized_keys"@
}

/// The remote shell command that installs a public key: directory creation
/// and permissioning first, then an unconditional append of the trimmed key
/// line, then the final permission tightening, in that order.
pub open spec fn remote_command_for(key: Seq<char>) -> Seq<char> {
    remote_command_head() + trim_of(key) + remote_command_tail()
}

/// Builds the remote shell command that installs the given public key into
/// the target machine's authorized-keys file.
pub fn build_remote_command(public_key: &str) -> (cmd: String)
    ensures
        cmd@ == remote_command_for(public_key@),
{
    let mut cmd = String::from_str("mkdir -p ~/.ssh && chmod 700 ~/.ssh && echo '");
    cmd.append(trim(public_key));
    cmd.append("' >> ~/.ssh/authorized_keys && chmod 600 ~/.ssh/authorized_keys");
    cmd
}

/// Law: the remote installation command appends unconditionally. Whatever
/// the key text is, the command starts with the same create-and-restrict
/// head and ends with the same append-and-restrict tail, so running the
/// deployment twice against the same machine appends the key twice — the
/// append is never skipped or deduplicated.
pub proof fn lemma_remote_command_always_appends(key: Seq<char>)
    ensures
        remote_command_for(key).len() >= remote_command_head().len()
            + remote_command_tail().len(),
        remote_command_for(key).take(remote_command_head().len() as int)
            == remote_command_head(),
        remote_command_for(key).skip(
            remote_command_for(key).len() - remote_command_tail().len(),
        ) == remote_command_tail(),
{
    assert(remote_command_for(key).take(remote_command_head().len() as int)
        =~= remote_command_head());
    assert(remote_command_for(key).skip(
        remote_command_for(key).len() - remote_command_tail().len(),
    ) =~= remote_command_tail());
}

/// Interprets the read of the local public-key file that precedes a
/// deployment: an unreadable or missing file is a local I/O failure.
pub fn public_key_read_outcome(content: Option<String>) -> (r: Result<String, ProvisionError>)
    ensures
        content matches Some(c) ==> (r matches Ok(k) && k == c),
        content is None ==> (r matches Err(e) && e is IoFailure),
{
    match content {
        Some(c) => Ok(c),
        None => Err(ProvisionError::IoFailure),
    }
}

/// Interprets the exit of the remote-execution command: a non-zero exit
/// carries the raw stderr text as a deployment failure.
pub fn deploy_outcome(success: bool, stderr: String) -> (r: Result<(), ProvisionError>)
    ensures
        success ==> r is Ok,
        !success ==> (r matches Err(ProvisionError::DeploymentFailed(d)) && d == stderr),
{
    if success {
        Ok(())
    } else {
        Err(ProvisionError::DeploymentFailed(stderr))
    }
}

/// Builds the full deployment invocation for one instance: the remote
/// installation command for the given key, addressed to the instance by name
/// and derived zone.
pub fn deployment_command(instance: &Instance, public_key: &str) -> (c: CommandRequest)
    ensures
        c.program@ == "gcloud"@,
        strings_view(c.args@) == seq![
            "compute"@,
            "ssh"@,
            instance@.name,
            "--zone"@,
            zone_of(instance@.zone_url),
            "--command"@,
            remote_command_for(public_key@),
        ],
{
    let zone = instance.zone();
    let remote = build_remote_command(public_key);
    remote_exec_command(instance.name.as_str(), zone.as_str(), remote.as_str())
}

} // verus!
