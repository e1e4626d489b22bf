use vstd::prelude::*;
use vstd::string::*;
use crate::errors::ProvisionError;
use crate::instance::Instance;
use crate::instance::first_ip_of_interfaces;
use crate::instance::zone_of;

verus! {

/// The canonical connection command for a user name and an address.
pub open spec fn connection_command_for(username: Seq<char>, ip: Seq<char>) -> Seq<char> {
    "ssh "@ + username + "@"@ + ip
}

/// What the operator needs in order to connect to the selected machine.
#[derive(Debug)]
pub struct ConnectionInfo {
    /// The machine's name, for display.
    pub vm_name: String,
    /// The machine's zone name, for display.
    pub zone: String,
    /// The local operator's user name.
    pub username: String,
    /// The machine's external IP address.
    pub external_ip: String,
    /// The ready-to-run connection command.
    pub command: String,
}

/// Derives the connection report for an instance and a user name: the
/// machine's name and derived zone, its external address, and the connection
/// command. An instance with no external address across all its interfaces
/// is a distinct, expected failure — never a malformed command.
pub fn report_connection(instance: &Instance, username: &str) -> (r: Result<
    ConnectionInfo,
    ProvisionError,
>)
    ensures
        r is Err <==> first_ip_of_interfaces(instance@.network_interfaces) is None,
        r matches Err(e) ==> e is NoExternalIp,
        r matches Ok(info) ==> ({
            &&& Some(info.external_ip@) == first_ip_of_interfaces(instance@.network_interfaces)
            &&& info.command@ == connection_command_for(username@, info.external_ip@)
            &&& info.vm_name@ == instance@.name
            &&& info.zone@ == zone_of(instance@.zone_url)
            &&& info.username@ == username@
        }),
{
    let ip = match instance.external_ip() {
        Some(ip) => ip,
        None => {
            return Err(ProvisionError::NoExternalIp);
        },
    };
    let mut command = String::from_str("ssh ");
    command.append(username);
    command.append("@");
    command.append(ip.as_str());
    Ok(
        ConnectionInfo {
            vm_name: instance.name.clone(),
            zone: instance.zone(),
            username: String::from_str(username),
            external_ip: ip,
            command,
        },
    )
}

/// Relies on whoami::username: the local login name. The result depends on
/// the machine's environment, so nothing more is stated of it; the call
/// itself never fails.
#[verifier::external_body]
fn local_username() -> (r: String) {
    whoami::username()
}

/// Derives the connection report for the local operator: like
/// [`report_connection`], with the user name read from the environment.
pub fn report_connection_for_current_user(instance: &Instance) -> (r: Result<
    ConnectionInfo,
    ProvisionError,
>)
    ensures
        r is Err <==> first_ip_of_interfaces(instance@.network_interfaces) is None,
        r matches Err(e) ==> e is NoExternalIp,
        r matches Ok(info) ==> ({
            &&& Some(info.external_ip@) == first_ip_of_interfaces(instance@.network_interfaces)
            &&& info.command@ == connection_command_for(info.username@, info.external_ip@)
            &&& info.vm_name@ == instance@.name
            &&& info.zone@ == zone_of(instance@.zone_url)
        }),
{
    let username = local_username();
    report_connection(instance, username.as_str())
}

} // verus!
