//! A high-level SSH client core: per-host session rules, a remote file
//! tailer, and a bounded fan-out controller with structured results.

pub mod asynchronous;
pub mod channel;
pub mod fanout;
pub mod host_map;
pub mod host_texts;
pub mod multi_conn;
pub mod multi_result;
pub mod multi_tailer;
pub mod paths;
pub mod result;
pub mod scheduler;
pub mod session;
pub mod shell;
pub mod tailer;
pub mod text;
pub mod transfer;
