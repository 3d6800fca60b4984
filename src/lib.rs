//! Decision logic of an interactive installer front end: the session state
//! machine, the line protocol spoken by the provisioning process, and the
//! progress monitor that turns that process's output into session updates.
pub mod protocol;
pub mod text;
pub mod session;
pub mod monitor;
pub mod keys;
