//! Lifecycle manager for a single sidecar backend process.
//!
//! The library holds the decisions: how a configuration is resolved, which
//! port is reclaimed before a launch, how the child's environment is built,
//! which binary is launched, and the supervisor state machine that orders
//! stopping, reclaiming, launching and the liveness check. The host performs
//! the actions the supervisor asks for and reports what happened.

pub mod binary;
pub mod config;
mod digits;
pub mod pids;
pub mod port;
pub mod supervisor;

pub use binary::{
    binary_candidates, choose_binary, sidecar_binary_name, Arch, BaseDir, Candidate, TargetOs,
};
pub use config::{
    child_environment, config_from_env, default_config, lemma_resolution_complete, resolve_config, BackendConfig,
    ConfigModel,
};
pub use pids::parse_pid_list;
pub use port::extract_port;
pub use supervisor::{Action, BackendProcess, Outcome, Phase, StartError};
