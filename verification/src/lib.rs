//! A chat bot library whose core is a verified radio subsystem: a playback
//! queue with a bounded, de-duplicated history, validated song identities
//! with a URL/filename codec, an idempotent fetch ledger, and a command
//! dispatch layer that turns chat text into structured requests.

pub mod command;
pub mod commands;
pub mod config;
pub mod text;
