//! Install lifecycle manager for runtime distributions fetched from a release
//! catalog: version ordering, the record of installs, the transfer of an
//! archive, the system integration steps and the install, update and
//! uninstall decisions.
pub mod config;
pub mod error;
pub mod integration;
pub mod lifecycle;
pub mod plan;
pub mod request;
pub mod response;
pub mod store;
pub mod text;
pub mod transfer;
pub mod types;
pub mod version;
