//! Control-plane core for a small LLM inference engine: an engine lifecycle
//! with cooperative shutdown, a minimal HTTP request dispatcher, and the
//! plain-value configuration records both of them read.

pub mod config;
pub mod cpu;
pub mod dispatch;
pub mod engine;
pub mod http;
pub mod num;
pub mod platform;
pub mod server;
pub mod text;
