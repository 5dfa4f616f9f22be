//! Alarm assembly for a security-event correlation platform.
//!
//! The crate does no I/O. It builds the requests that a search backend
//! expects, interprets the replies, and folds an alarm, its alarm-to-event
//! links and the linked events into one record. Every function carries a
//! contract that pins its result down.

pub mod text;
pub mod config;
pub mod json;
pub mod gateway;
pub mod alarm;
pub mod assembly;
pub mod repository;
pub mod mutation;
