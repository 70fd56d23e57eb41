//! A task pipeline: callers queue heterogeneous tasks, run them in order and
//! read back one record per task that completed. A registry of named
//! decorators vets a task's context before the task is built.
//!
//! The decorator chain is a filter of its own. A caller who wants a context
//! vetted applies the chain before building the task; running a pipeline
//! applies no decorator.
//!
//! What only a caller can do (showing text, floating-point arithmetic, HTTP,
//! connecting to ports) is asked of the caller as a request and taken back as
//! a reply. The library holds no process-wide state: the verbosity level and
//! the debug toggle are values.
pub mod crypto;
pub mod debug;
pub mod errhuman;
pub mod func;
pub mod looping;
pub mod outside;
pub mod plugins;
pub mod task;
pub mod text;
pub mod transr;
pub mod vvv;
