//! Execution control for an interactive debugger of a small 8-bit CPU:
//! pause, resume and single-step directives, breakpoints keyed on source
//! lines, and read-only watchpoints keyed on memory addresses.
pub mod breakpoints;
pub mod session;
pub mod source_map;
pub mod text_entry;
pub mod unique_seq;
pub mod watchpoints;

pub use breakpoints::BreakpointSet;
pub use session::App;
pub use source_map::SourceMap;
pub use watchpoints::WatchpointSet;
