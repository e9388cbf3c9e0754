//! Recursion-tip stage of a multi-stage proof-generation pipeline.
//!
//! The stage turns the per-circuit recursion-queue artifacts of a rollup
//! batch into one bounded-size aggregate input for the next proving stage.
//! The core is the pick -> execute -> save job lifecycle: atomically
//! claiming a unit of work from a shared job table, assembling its
//! aggregate input under strict count and arity invariants, and persisting
//! the outcome (success artifact or failure record) exactly once per
//! attempt.
//!
//! The shared job table and the artifact store are modelled as explicit
//! values handed to the picker and the saver, so that every transition
//! they make is stated in a contract; a deployment wires the same
//! decisions to its database and blob storage.
//!
//! The input handed to the executor is the aggregate input together with
//! the parameter table and the key material. The dependency proofs the
//! job ids point at stay in the next proving stage's stores: this stage
//! checks their listing against the recorded count and carries the ids
//! in its metadata, but never reads the proofs themselves.

pub mod artifact_store;
pub mod errors;
pub mod job_queue;
pub mod job_runner;
pub mod recursion_tip_executor;
pub mod recursion_tip_job_picker;
pub mod recursion_tip_job_saver;
pub mod stored_objects;
pub mod types;
