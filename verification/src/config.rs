//! The dispatcher's configuration, as read at startup.

use vstd::prelude::*;
use crate::amqp::AmqpConfiguration;

verus! {

/// Everything the dispatcher is configured with.
#[derive(Debug, PartialEq, Eq)]
pub struct Configuration {
    pub server: ServerConfiguration,
    pub gitlab: GitlabConfiguration,
    pub package: PackageConfiguration,
    pub labs: Vec<LabConfiguration>,
    pub amqp: AmqpConfiguration,
}

/// Where the dispatcher listens, and the address it is reached at.
#[derive(Debug, PartialEq, Eq)]
pub struct ServerConfiguration {
    pub ip: String,
    pub port: u16,
    pub base_url: String,
}

/// How to reach the hosting service, and the secret it signs its
/// notifications with, if any.
#[derive(Debug, PartialEq, Eq)]
pub struct GitlabConfiguration {
    pub token: String,
    pub base_url: String,
    pub secret_token: Option<String>,
}

/// How many packaging operations may run at once, and where artifacts go.
#[derive(Debug, PartialEq, Eq)]
pub struct PackageConfiguration {
    pub threads: usize,
    pub zip_dir: String,
}

/// A lab: a subtree of the repository that is graded on its own.
#[derive(Debug, PartialEq, Eq)]
pub struct LabConfiguration {
    pub name: String,
    pub base: String,
    pub dir: String,
    pub witness: Option<String>,
    pub enabled: Option<bool>,
}

/// A lab is enabled unless it is switched off.
pub open spec fn enabled_or_default(enabled: Option<bool>) -> bool {
    match enabled {
        Some(b) => b,
        None => true,
    }
}

impl LabConfiguration {
    /// Whether pushes are to be graded for this lab.
    pub fn is_enabled(&self) -> (r: bool)
        ensures
            r == enabled_or_default(self.enabled),
    {
        match self.enabled {
            Some(b) => b,
            None => true,
        }
    }
}

} // verus!
