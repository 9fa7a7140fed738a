//! A minimal line-oriented text editor core: a character buffer with
//! cursor-relative navigation and edit operations, and a status-banner
//! state machine for hints, transient messages, and line input capture.
//!
//! The terminal itself (drawing, key polling, file I/O) is an external
//! collaborator: this crate only decides what to draw and how state
//! changes in response to key events and the current time.

pub mod banner;
pub mod chars;
pub mod editor;
pub mod key;
