// Link-speed monitor and device recovery for a network adapter that fails
// to renegotiate its speed after the system resumes from sleep.
//
// The modules hold the decisions; the caller performs the system calls that
// the state machines in `recovery` and `service` ask for.

pub mod config;
pub mod inspector;
pub mod policy;
pub mod property;
pub mod recovery;
pub mod service;
