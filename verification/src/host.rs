//! The host's root object: the configuration every service initializes
//! from, shared between the orchestrator and the services it starts.
//! The orchestrator's own work — initializing services in dependency
//! order and supervising their shutdown — is specified by the lifecycle
//! and shutdown modules.

use vstd::prelude::*;
use std::sync::Arc;
use crate::host_config::HostConfig;

verus! {

/// The host process's root object.
pub struct Host {
    pub config: HostConfig,
}

impl Host {
    /// A host over the given configuration, handed out shared so every
    /// service can read it.
    pub fn new(config: HostConfig) -> (r: Arc<Host>)
        ensures
            r.config == config,
    {
        Arc::new(Host { config })
    }
}

} // verus!
