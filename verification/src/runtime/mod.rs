//! The runtime: active threads, the turns that are submitted to them, approvals, and
//! what hosts and the durable state see of all that.

pub mod adapter;
pub mod approve;
pub mod builder;
pub mod child;
pub mod error;
pub mod projection;
pub mod records;
pub mod submit;
pub mod threads;
pub mod transcript;
