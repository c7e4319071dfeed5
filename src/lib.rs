//! A "run on save" core: debouncing of file-change events, the policy that
//! supervises the launched command, and the status lines that report how each
//! run ended.
//!
//! Everything here decides; nothing here performs I/O. The caller watches the
//! files, spawns and reaps the children and writes to the status filter, and
//! hands each outcome back as plain values.

pub mod debounce;
pub mod event;
pub mod filter;
pub mod status;
pub mod supervisor;
pub mod watch;
