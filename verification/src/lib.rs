//! Decision logic of a lead-generation worker: configuration loading, the
//! queue of industry and location combinations a task works through, the
//! commands the worker accepts, the steps of one work cycle, the paging of a
//! place search, prospect extraction and the framing of streamed log lines.
pub mod text;
pub mod config;
pub mod errors;
pub mod taskstate;
pub mod places;
pub mod prospects;
pub mod stream_log;
pub mod cycle;
pub mod cmd;
