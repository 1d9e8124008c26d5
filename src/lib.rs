//! Provisioning engine for an isolated Python environment: configuration,
//! platform probing, requirement parsing, download progress and integrity,
//! post-install patching, and the phase state machine that sequences them.

pub mod config;
pub mod error;
pub mod installer;
pub mod integrity;
pub mod platform;
pub mod requirements;
pub mod scriptfixs;
pub mod session;
pub mod status;
pub mod text;
