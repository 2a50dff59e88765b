//! Confidential survey scoring: oblivious scoring circuits over secret
//! records, per-recipient output sealing, a computation-definition registry,
//! and the queue/execute/callback orchestration that ties an off-platform
//! secret-computation executor to an on-platform record of requests.
//!
//! Every scoring circuit is a pure function over fixed-width integers whose
//! branches are all evaluated and whose result is chosen by an oblivious
//! select, so the instruction trace never depends on a secret value.
pub mod advanced;
pub mod basic;
pub mod codec;
pub mod enhanced;
pub mod flow;
pub mod operations;
pub mod orchestrator;
pub mod program;
pub mod registry;
pub mod response;
pub mod sealing;
pub mod select;
pub mod survey;
