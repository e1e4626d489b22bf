use vstd::prelude::*;
use vstd::string::*;
use crate::errors::ProvisionError;

verus! {

/// Relies on dirs::home_dir: the operator's home directory, when the
/// platform can name one. The result depends on the machine's environment,
/// so nothing more is stated of it.
#[verifier::external_body]
fn home_directory() -> (r: Option<String>) {
    dirs::home_dir().map(|p| p.to_string_lossy().into_owned())
}

/// Interprets home-directory resolution: a home that cannot be determined is
/// its own failure — resolution is never assumed to succeed.
pub fn resolve_home(home: Option<String>) -> (r: Result<String, ProvisionError>)
    ensures
        home matches Some(h) ==> (r matches Ok(p) && p == h),
        home is None ==> (r matches Err(e) && e is HomeDirectoryUnavailable),
{
    match home {
        Some(h) => Ok(h),
        None => Err(ProvisionError::HomeDirectoryUnavailable),
    }
}

/// Resolves the operator's home directory through the platform, failing with
/// the dedicated error when none can be determined.
pub fn resolve_home_directory() -> (r: Result<String, ProvisionError>)
    ensures
        r matches Err(e) ==> e is HomeDirectoryUnavailable,
{
    resolve_home(home_directory())
}

/// The credential-store directory under a home directory.
pub fn key_directory_path(home: &str) -> (p: String)
    ensures
        p@ == home@ + "/.ssh"@,
{
    String::from_str(home).concat("/.ssh")
}

/// The fixed public-key file of the credential store.
pub fn public_key_path(home: &str) -> (p: String)
    ensures
        p@ == home@ + "/.ssh/id_rsa.pub"@,
{
    String::from_str(home).concat("/.ssh/id_rsa.pub")
}

/// The fixed private-key file of the credential store.
pub fn private_key_path(home: &str) -> (p: String)
    ensures
        p@ == home@ + "/.ssh/id_rsa"@,
{
    String::from_str(home).concat("/.ssh/id_rsa")
}

/// Whether a usable key pair is present: both files must exist. A partial
/// pair — only one of the two files — counts as no usable pair, and leads to
/// regeneration like a missing pair.
pub fn key_pair_present(public_present: bool, private_present: bool) -> (r: bool)
    ensures
        r == (public_present && private_present),
{
    public_present && private_present
}

/// Interprets the setup of the credential-store directory. Failing to create
/// it is fatal. Restricting it to owner-only access applies only on
/// platforms that support the concept: lacking support is not an error, but
/// a failed restriction on a supporting platform is.
pub fn directory_setup_outcome(create_ok: bool, restrict_supported: bool, restrict_ok: bool) -> (r:
    Result<(), ProvisionError>)
    ensures
        !create_ok ==> (r matches Err(e) && e is IoFailure),
        create_ok && restrict_supported && !restrict_ok ==> (r matches Err(e) && e is IoFailure),
        create_ok && (!restrict_supported || restrict_ok) ==> r is Ok,
{
    if !create_ok {
        Err(ProvisionError::IoFailure)
    } else if restrict_supported && !restrict_ok {
        Err(ProvisionError::IoFailure)
    } else {
        Ok(())
    }
}

/// Interprets the exit of the key-generation command: a non-zero exit
/// carries the raw stderr text, captured verbatim for diagnostics.
pub fn keygen_outcome(success: bool, stderr: String) -> (r: Result<(), ProvisionError>)
    ensures
        success ==> r is Ok,
        !success ==> (r matches Err(ProvisionError::KeyGenerationFailed(d)) && d == stderr),
{
    if success {
        Ok(())
    } else {
        Err(ProvisionError::KeyGenerationFailed(stderr))
    }
}

} // verus!
