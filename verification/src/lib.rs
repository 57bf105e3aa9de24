//! Logic of a small GUI demo suite: a child-process supervisor, the
//! per-process view state, top-level message routing, a colour theme,
//! hover tracking, and a list of counters.
//!
//! Rendering and the actual operating-system calls live in the host
//! application; this crate holds the state machines and rules they drive,
//! each with a proved contract.

pub mod backend;
pub mod hover;
pub mod process;
pub mod theme;
pub mod thing;
pub mod ui;
