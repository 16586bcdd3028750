//! A proxy that keeps the host of a language model asleep while nobody needs it, and wakes it on
//! demand.
//!
//! - [`app`], [`orchestrate`], [`forward`], [`http_error`]: requests from their arrival to their
//!   answer
//! - [`state`], [`lifecycle`], [`scheduler`], [`metrics`]: what is known of the backend, and who may
//!   use it
//! - [`host`], [`config`]: how the backend is reached
//! - [`helper`], [`steps`], [`systemd`], [`cli`]: the helper that runs on the host
//! - [`json`], [`table`], [`text`], [`numeral`]: documents and texts

pub mod app;
pub mod cli;
pub mod config;
pub mod forward;
pub mod helper;
pub mod host;
pub mod http_error;
pub mod json;
pub mod lifecycle;
pub mod metrics;
pub mod numeral;
pub mod orchestrate;
pub mod scheduler;
pub mod state;
pub mod steps;
pub mod systemd;
pub mod table;
pub mod text;
