//! A verified navigation and pagination engine for multi-section documents.
//!
//! A document (an e-book split into chapters) is rendered one section at a
//! time by an external render surface. This crate tracks which sections are
//! loaded, derives a global page numbering from the per-section page counts,
//! turns pointer and scroll gestures into page- and section-turn commands,
//! and converts the reader's position to and from a durable progress record.
//!
//! All rendering, timers and persistence are performed by the surrounding
//! application; the engine consumes their results as plain values and is
//! verified for every value they may produce.

pub mod api;
pub mod display;
pub mod engine;
pub mod gesture;
pub mod media;
pub mod preferences;
pub mod progress;
pub mod progression;
pub mod section;
pub mod store;
