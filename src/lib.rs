//! The verified core of a node agent that runs WebAssembly modules as
//! workloads: the exec command model and its two wire encodings, argument
//! coercion and result rendering for exported functions, import namespace
//! resolution, and the worker lifecycle state machine with its status reports.

pub mod command;
pub mod dispatch;
pub mod gateway;
pub mod handler;
pub mod lifecycle;
pub mod link;
pub mod number;
pub mod render;
pub mod text;
