//! Verified core of an auto-targeting companion computer: the commander's
//! state machine, watchdogs, command rate limiting, oscillation guard,
//! safety decisions, configuration records and the small parsers and
//! pixel/text codecs that the pipeline relies on.

pub mod types;
pub mod state_machine;
pub mod watchdogs;
pub mod rate_limiter;
pub mod anti_loop;
pub mod text;
pub mod scenario;
pub mod config;
pub mod fc;
pub mod commander;
pub mod safety;
pub mod cli;
pub mod health;
pub mod ota;
pub mod imaging;
pub mod detector;
pub mod bus;
pub mod repl;
pub mod bridge;
pub mod bus_console;
pub mod report;
pub mod visual;
