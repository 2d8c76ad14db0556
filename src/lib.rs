//! Project scaffolding and the dev-mode watcher supervisor.
//!
//! The verified core is the supervisor state machine in [`supervisor`]: it
//! decides which watcher to spawn, poll or kill next, and its laws (each
//! process killed at most once, secondary killed no later than primary,
//! cancellation never undone, the outcome independent of kill results) are
//! proved over every sequence of events.
pub mod cargo_watch;
pub mod guard;
pub mod paths;
pub mod pattern;
pub mod repo;
pub mod session_laws;
pub mod supervisor;
pub mod tailwind;
pub mod template;
pub mod validation;
