//! Project scaffolding: the command-line grammar, the plans of steps that each
//! command stands for, and the fail-fast runner that hands those steps out one
//! action at a time while keeping a bounded progress count.

pub mod text;
pub mod lang;
pub mod cli;
pub mod plan;
pub mod templates;
pub mod scaffold;
pub mod progress;
pub mod runner;
pub mod dispatch;
pub mod host;
