//! A streaming conversational-agent core.
//!
//! A session (`agent`) builds the prompt window for a turn, and a watcher
//! commits the reply, or rolls the turn back, as the backend's items arrive.
//! Each backend adapter (`coze`, `qwen`) reads the lines of its event stream
//! into reply fragments; `http_stream` splits received chunks into lines, and
//! `stream` is the live view a reader polls while a turn streams.

pub mod agent;
pub mod config;
pub mod coze;
pub mod error;
pub mod http_stream;
pub mod memory_config;
pub mod message;
pub mod qwen;
pub mod stream;
