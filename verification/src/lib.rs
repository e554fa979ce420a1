//! Binding a disk-encryption key to a passphrase and to a hardware security
//! module at once.
//!
//! The crate holds the protocol and none of the device access. `kdf` turns a
//! passphrase and a salt into two secret halves, `tpm` describes what is asked
//! of the security module, `luks` describes what is asked of the encrypted
//! container, and `workflow` orders these requests into the two workflows
//! `setup` and `unlock`. A driver performs each requested action and hands the
//! outcome back as an event. `error` names the failures, `cli` reads the
//! command line, and `model` states what a setup and the unlocks after it
//! come to when the devices answer as expected.

pub mod cli;
pub mod error;
pub mod kdf;
pub mod luks;
pub mod model;
pub mod tpm;
pub mod workflow;
