//! Booking lifecycle coordination for a bare-metal reservation service.
//!
//! A booking is an aggregate of reserved machines. This crate decides what has
//! to happen for each lifecycle request and what the answer is; the store and
//! the execution engine are driven by the caller, one command at a time.

pub mod clock;
pub mod dispatch;
pub mod error;
pub mod ident;
pub mod lifecycle;
pub mod model;
pub mod notify;
pub mod reimage;
pub mod reimage_run;
pub mod status;
pub mod status_query;
pub mod status_run;
pub mod timeline;
