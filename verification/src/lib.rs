//! The question wizard of an Arch Linux installer: a fixed catalog of
//! questions, the state machine that walks through it one key event at a
//! time, the record of answers it fills in, and the declarative screens a
//! terminal front end draws from.
//!
//! Nothing here touches a terminal or a file. A front end reads keys, feeds
//! them through [`keys::event_for_key`] and [`session::SessionState::apply`],
//! draws what [`screen::project`] describes, and stores the finished
//! [`config::ArchConfig`] when the session reports completion.

pub mod catalog;
pub mod config;
pub mod keys;
pub mod replay;
pub mod screen;
pub mod session;
pub mod splash;
pub mod text;
pub mod theme;
