//! Scheduling and execution core for user-defined automation agents.
//!
//! An agent binds a name to a task (content drafting, or a direct external
//! action) and a cron schedule. The core decides on every tick which agents
//! are due, routes content-producing tasks through a human-approval gate,
//! classifies and prepares direct actions, and records an append-only audit
//! trail of every decision. External work (process spawning, persistence,
//! clocks) stays outside; the core is a deterministic state machine over
//! plain values.

pub mod gate;
pub mod laws;
pub mod model;
pub mod runner;
pub mod schedule;
pub mod scheduler;
pub mod store;
