//! A render-once text display: a placement calculator that fits an image
//! inside padded bounds while preserving its aspect ratio, the state machine
//! of the one-shot render pipeline that produces and shows the image, and the
//! decision rule of the idle event loop that follows.
//!
//! All drawing, font and window work is left to the surrounding program; this
//! crate holds the logic that decides sizes, positions, stage order and
//! termination, with proofs.

pub mod config;
pub mod events;
pub mod placement;
pub mod pipeline;
