//! Widget rendering and event handling, with contracts checked by Verus.
//!
//! A widget is split three ways: a persistent description of what to draw,
//! an immediate state that the surrounding framework mutates in response to
//! input, and a backend-specific cache of derived layout data that is rebuilt
//! only when the description no longer matches it.

pub mod display;
pub mod geometry;
pub mod laws;
pub mod props;
pub mod retained;
pub mod widget;
pub mod widgets;

pub use geometry::{Rectangle, Size};
pub use widget::{Backend, Event, RenderedWidget, Widget};
