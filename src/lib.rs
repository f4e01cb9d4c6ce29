//! Payment-gated dispensing: invoice issuance, operation resolution and the
//! payment watcher whose single terminal outcome decides whether to dispense.

pub mod issue;
pub mod layout;
pub mod operation;
pub mod qr;
pub mod watch;
