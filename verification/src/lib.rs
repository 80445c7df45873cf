//! Core of a status bridge between a compositor's status-reporting protocol
//! and a text stream: tag-bitmask decoding, line rendering, global-object
//! bookkeeping, filter selection, and event routing.

pub mod parse;
pub mod session;
pub mod tags;
pub mod text;
