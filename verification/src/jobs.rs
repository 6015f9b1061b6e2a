//! The concrete registrar-sync jobs this system runs.

pub mod refresh_domain_nameservers;
pub mod refresh_domains;
