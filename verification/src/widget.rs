//! The three traits that tie a widget to the target it is rendered on.

use vstd::prelude::*;
use crate::geometry::Size;

verus! {

/// The backend for rendering widgets.
pub trait Backend {
    /// The error type for rendering.
    type Error: core::fmt::Debug + core::fmt::Display;

    /// The result of a rendering operation.
    type Output;
}

/// Events that a widget might care about.
#[non_exhaustive]
#[derive(Debug, Clone, Copy, PartialEq, Eq, Structural)]
pub enum Event {
    /// Where the pointer is, in whole pixels relative to the top left corner
    /// of the widget that receives the event.
    Mouse { x: i32, y: i32 },
}

/// The widget information independent of the backend.
pub trait Widget {
    /// Immediate state of the widget.
    ///
    /// This is expected to change between calls, often in response to user
    /// input. It is owned by the surrounding framework and starts out as its
    /// default value.
    type Immediate: Default;

    /// Reply to an event in the immediate state.
    ///
    /// Returns true if this change means that the widget needs to be redrawn.
    fn handle_event(&mut self, immediate: &mut Self::Immediate, event: Event) -> (redraw: bool);
}

/// A widget that can be measured and drawn on the backend `B`.
pub trait RenderedWidget<B: Backend>: Widget {
    /// Backend-specific state of the widget, kept across frames so that
    /// derived data need not be recomputed. It starts out as its default
    /// value.
    type Cache: Default;

    /// Get the size of the rectangle that this widget occupies.
    ///
    /// Widgets are drawn at (0, 0).
    fn rectangle(&mut self, cache: &mut Self::Cache, backend: &mut B) -> (size: Result<
        Size,
        B::Error,
    >);

    /// Render the widget.
    fn render(&self, immediate: &Self::Immediate, cache: &mut Self::Cache, backend: &mut B) -> (output:
        Result<B::Output, B::Error>);
}

} // verus!
