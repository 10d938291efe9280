//! A small windowing core for Win32: window styles and geometry, decoding
//! of raw window messages into a per-window event queue, and reference-counted
//! bookkeeping for the shared window class.
//!
//! Everything here works on plain values. The platform calls themselves are
//! made by the embedding code, which feeds their results in and carries the
//! decisions out.

pub mod error;
pub mod event;
pub mod geometry;
pub mod input;
pub mod message;
pub mod registry;
pub mod router;
pub mod style;
pub mod text;
pub mod window;
