//! Task lifecycle and supervision for a long-running, multi-subsystem node.
//!
//! Every subsystem spawns its work through one cloneable facade, the
//! [`TaskExecutor`]. The facade decides whether a unit of work may be
//! dispatched, keeps the per-task metrics, and escalates an unrecovered fault
//! inside a monitored unit into a request to shut the whole node down.
//!
//! The crate makes decisions and keeps accounts; it never awaits. A spawn
//! call answers with a ticket, the host dispatches the work on its execution
//! engine, and hands the ticket back together with what the engine reported.
//! Each step is a function from plain values to plain values, and each is
//! verified against the model stated in its contract.

pub mod coordinator;
pub mod executor;
pub mod laws;
pub mod ledger;
pub mod logging;
pub mod metrics;
pub mod monitor;
pub mod outcome;
pub mod reason;
pub mod ticket;


pub use executor::TaskExecutor;
pub use reason::ShutdownReason;
