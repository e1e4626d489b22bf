use vstd::prelude::*;
use vstd::string::StringExecFns;

verus! {

/// The failure taxonomy of the provisioning workflow: one variant per
/// distinct failure condition, so that every stage failure stays separately
/// diagnosable. Variants that wrap a `String` carry the raw standard-error
/// text of the external command, verbatim and unparsed.
#[derive(Debug)]
pub enum ProvisionError {
    /// The operator's home directory could not be resolved.
    HomeDirectoryUnavailable,
    /// A local filesystem operation (create, read, permission) failed.
    IoFailure,
    /// The external key-generation command exited non-zero.
    KeyGenerationFailed(String),
    /// The external instance-listing command exited non-zero.
    ListingFailed(String),
    /// The listing command succeeded but its output did not have the
    /// expected JSON shape.
    DecodingFailed,
    /// The listing decoded successfully but held no instances.
    NoInstancesFound,
    /// The operator cancelled the interactive selection.
    SelectionAborted,
    /// The remote key-deployment command exited non-zero.
    DeploymentFailed(String),
    /// The selected instance exposes no external IP address.
    NoExternalIp,
}

impl ProvisionError {
    /// The diagnostic line shown for this error.
    pub open spec fn message_spec(&self) -> Seq<char> {
        match self {
            ProvisionError::HomeDirectoryUnavailable => "could not find home directory"@,
            ProvisionError::IoFailure => "a local file operation failed"@,
            ProvisionError::KeyGenerationFailed(detail) => "failed to generate an SSH key: "@
                + detail@,
            ProvisionError::ListingFailed(detail) => "failed to list VM instances: "@ + detail@,
            ProvisionError::DecodingFailed => "failed to parse VM instance JSON data"@,
            ProvisionError::NoInstancesFound => "no VM instances found in the active project"@,
            ProvisionError::SelectionAborted => "VM selection was cancelled"@,
            ProvisionError::DeploymentFailed(detail) => "failed to copy SSH key to VM: "@
                + detail@,
            ProvisionError::NoExternalIp => "VM does not have an external IP address"@,
        }
    }

    /// Renders the human-readable diagnostic for this error.
    pub fn message(&self) -> (m: String)
        ensures
            m@ == self.message_spec(),
    {
        match self {
            ProvisionError::HomeDirectoryUnavailable => {
                String::from_str("could not find home directory")
            },
            ProvisionError::IoFailure => String::from_str("a local file operation failed"),
            ProvisionError::KeyGenerationFailed(detail) => {
                let m = String::from_str("failed to generate an SSH key: ");
                m.concat(detail.as_str())
            },
            ProvisionError::ListingFailed(detail) => {
                let m = String::from_str("failed to list VM instances: ");
                m.concat(detail.as_str())
            },
            ProvisionError::DecodingFailed => {
                String::from_str("failed to parse VM instance JSON data")
            },
            ProvisionError::NoInstancesFound => {
                String::from_str("no VM instances found in the active project")
            },
            ProvisionError::SelectionAborted => String::from_str("VM selection was cancelled"),
            ProvisionError::DeploymentFailed(detail) => {
                let m = String::from_str("failed to copy SSH key to VM: ");
                m.concat(detail.as_str())
            },
            ProvisionError::NoExternalIp => {
                String::from_str("VM does not have an external IP address")
            },
        }
    }
}

} // verus!
