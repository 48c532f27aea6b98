//! Moderation relay core: the pending-submission ledger, the accept/decline
//! decision engine, the response-media store with its delivery cache, and the
//! admin command grammar.
//!
//! Everything here is pure logic over plain values. The messaging gateway and
//! the process entry point live outside the library and drive these functions.

pub mod admin_commands;
pub mod cached_pic;
pub mod dispatch;
pub mod error;
pub mod keyboard;
pub mod mime;
pub mod offered_post;
pub mod pic;
pub mod pic_utils;
pub mod stats;
pub mod text;
pub mod user;
