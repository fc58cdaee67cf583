//! A function-as-a-service host library: the rules that turn a stored
//! component binary and a JSON payload into one sandboxed call of `exec`.
//!
//! - [`error`]: the caller-visible failures.
//! - [`capability`]: the host abilities granted to one sandbox, and the
//!   check of a component's imports against them.
//! - [`engine`]: compilation of component binaries.
//! - [`payload`]: JSON payloads crossing the sandbox boundary.
//! - [`invocation`]: the phases of one invocation and the laws that order them.
//! - [`storage`]: configuration and result shaping for the artifact store.
//! - [`guest`]: the logic of the sample guest functions.
pub mod capability;
pub mod engine;
pub mod error;
pub mod guest;
pub mod invocation;
pub mod payload;
pub mod storage;
