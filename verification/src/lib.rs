//! Verified core of an SSH provisioning tool for cloud virtual machines.
//!
//! The library covers the provisioning pipeline's logic: the instance data
//! model decoded from the provider's JSON listing, derivation of zone names
//! and external addresses, construction of the external CLI invocations and
//! of the remote key-installation command, interpretation of every external
//! outcome into a fixed error taxonomy, and the five-stage workflow machine
//! that sequences it all. Process execution, the filesystem, and the
//! interactive terminal live outside the library and hand it plain values.

pub mod catalog;
pub mod command;
pub mod credentials;
pub mod deploy;
pub mod errors;
pub mod instance;
pub mod report;
pub mod select;
pub mod terminal;
pub mod text;
pub mod workflow;

pub use errors::ProvisionError;
pub use instance::AccessConfig;
pub use instance::Instance;
pub use instance::NetworkInterface;
pub use select::format_vm_list_item;
pub use terminal::TerminalSize;
pub use terminal::center_text;
pub use terminal::wrap_text;
