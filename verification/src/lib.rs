//! cherino: the verified core of a container operations toolkit — the
//! `Getters` derive's planning, the AppArmor security-profile layer, and the
//! runtime backend of hosts without the Linux OCI backend.

pub mod apparmor;
pub mod getters;
pub mod runtime;
pub mod text;
