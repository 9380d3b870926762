//! A verified core for a message-driven runner of sandboxed jobs.
//!
//! A job is a list of commands to run, in order, inside an isolation image.
//! The runner stages a workspace for the job, hands it to the isolation
//! runtime, collects one result per command and reports them under the
//! submitter's identifier. This crate holds every decision of that process
//! and none of its waiting: files, processes and channels belong to whoever
//! drives it.
//!
//! - [`schema`]: submissions, commands, results and responses.
//! - [`yaml`]: the calls into `serde_yaml`, with what is believed of them.
//! - [`codec`]: the schema as YAML documents, both ways.
//! - [`wire`]: messages and files as text.
//! - [`workspace`]: per-job directories and their paths.
//! - [`runtime`]: the command line that starts the isolation runtime.
//! - [`run`]: one job's run as a state machine.
//! - [`dispatch`]: one message's life, from bytes to response or drop.

pub mod codec;
pub mod dispatch;
pub mod run;
pub mod runtime;
pub mod schema;
pub mod wire;
pub mod workspace;
pub mod yaml;
