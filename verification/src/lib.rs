//! A minimal script-execution host: the module-loading rules, the host
//! buffer that running scripts append to and read, and the life cycle of a
//! run.

pub mod buffer;
pub mod loader;
pub mod media;
pub mod run;
