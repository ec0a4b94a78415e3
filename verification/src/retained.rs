//! Keeping a widget on screen.
//!
//! The surrounding framework holds, for each widget of the composition, the
//! widget itself, its immediate state and its cache. It draws the widget,
//! waits until the hosting system asks for a redraw, and draws it again. The
//! waiting is the framework's; what is drawn, and what follows from the
//! outcome of drawing, is decided here.

use vstd::prelude::*;
use crate::widget::{Backend, Event, RenderedWidget};

verus! {

/// Settings of one drawing pass.
pub struct DrawParameters {}

/// Wraps a widget together with its immediate state and its cache.
pub struct Widget<S: crate::widget::Widget, C> {
    /// The underlying widget.
    widget: S,
    /// The widget's immediate state.
    state: S::Immediate,
    /// Cache of widget-specific data.
    cache: C,
}

/// What the drawing loop does after one drawing pass.
#[derive(Debug, PartialEq, Eq)]
pub enum Next<E> {
    /// The pass succeeded: wait for the next request to redraw, then draw
    /// again.
    AwaitRedraw,
    /// The pass failed: leave the loop and report the error.
    Stop(E),
}

/// Decide how the drawing loop goes on after a drawing pass that ended in
/// `result`. A failure is never passed over: it ends the loop and comes out
/// as it was reported.
pub fn after_render<O, E>(result: Result<O, E>) -> (next: Next<E>)
    ensures
        match result {
            Ok(_) => next is AwaitRedraw,
            Err(error) => next == Next::Stop(error),
        },
{
    match result {
        Ok(_) => Next::AwaitRedraw,
        Err(error) => Next::Stop(error),
    }
}

impl<S: crate::widget::Widget, C> Widget<S, C> {
    /// The widget that is wrapped.
    pub closed spec fn widget(self) -> S {
        self.widget
    }

    /// The immediate state kept for the widget.
    pub closed spec fn state(self) -> S::Immediate {
        self.state
    }

    /// The cache kept for the widget.
    pub closed spec fn cache(self) -> C {
        self.cache
    }

    /// Create a new widget. Its immediate state and its cache start out as
    /// what `Default` gives for their types, and can be drawn with as they
    /// are.
    pub fn new(widget: S) -> (wrapped: Self) where C: Default
        ensures
            wrapped.widget() == widget,
            call_ensures(<S::Immediate as Default>::default, (), wrapped.state()),
            call_ensures(<C as Default>::default, (), wrapped.cache()),
    {
        Widget { state: <S::Immediate as Default>::default(), cache: <C as Default>::default(), widget }
    }

    /// Hand `event` to the widget, with the immediate state kept for it.
    /// Returns true if the widget needs to be redrawn.
    ///
    /// The widget and its state change as one call of the widget's
    /// `handle_event` changes them, and the answer is the one that this call
    /// gave. The cache is not touched.
    #[verifier::spinoff_prover]
    pub fn handle_event(&mut self, event: Event) -> (redraw: bool)
        ensures
            final(self).cache() == old(self).cache(),
            exists|subject: &mut S, immediate: &mut S::Immediate|
                *subject == old(self).widget() && *final(subject) == final(self).widget()
                    && *immediate == old(self).state() && *final(immediate) == final(self).state()
                    && call_ensures(S::handle_event, (subject, immediate, event), redraw),
    {
        self.widget.handle_event(&mut self.state, event)
    }

    /// Draw the widget once on `backend`, with the immediate state and the
    /// cache kept for it.
    ///
    /// The cache and the backend change as one call of the widget's `render`
    /// changes them, and what comes back is what this call gave, a failure
    /// included. The widget and its state are not touched.
    #[verifier::spinoff_prover]
    pub fn render<B: Backend>(&mut self, backend: &mut B) -> (result: Result<B::Output, B::Error>)
        where S: RenderedWidget<B, Cache = C>
        ensures
            final(self).widget() == old(self).widget(),
            final(self).state() == old(self).state(),
            exists|derived: &mut C, target: &mut B|
                *derived == old(self).cache() && *final(derived) == final(self).cache()
                    && *target == *old(backend) && *final(target) == *final(backend)
                    && call_ensures(
                    <S as RenderedWidget<B>>::render,
                    (&old(self).widget(), &old(self).state(), derived, target),
                    result,
                ),
    {
        self.widget.render(&self.state, &mut self.cache, backend)
    }
}

} // verus!
