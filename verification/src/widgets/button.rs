//! A push button with text inside.

use vstd::prelude::*;
use crate::geometry::Size;
use crate::widget::{Event, Widget};
use crate::widgets::text_view::{CacheState, Label, LayoutCache, TextView};

verus! {

/// What a button is, as contracts see it.
pub struct Button {
    /// The caption inside the button.
    pub label: Label,
    /// The area that the button takes up, from its top left corner.
    pub size: Size,
}

impl Button {
    /// Whether the point (`x`, `y`), taken from the button's top left corner,
    /// lies on the button.
    pub open spec fn covers(self, x: int, y: int) -> bool {
        0 <= x < self.size.width && 0 <= y < self.size.height
    }

    /// Whether `event` presses the button: the pointer is on it.
    pub open spec fn pressed_by(self, event: Event) -> bool {
        match event {
            Event::Mouse { x, y } => self.covers(x as int, y as int),
        }
    }

    /// How the button answers `event` when its pressed state is `pressed`:
    /// the pressed state afterwards, and whether a redraw is needed.
    ///
    /// The button is pressed exactly while the pointer is on it, and a
    /// redraw is needed exactly when the pressed state changes. An event
    /// that presses a button which is pressed already asks for no redraw.
    pub open spec fn react(self, pressed: bool, event: Event) -> (bool, bool) {
        (self.pressed_by(event), self.pressed_by(event) != pressed)
    }
}

/// A push button with text inside.
pub struct PushButton<'a> {
    text: TextView<'a>,
    size: Size,
}

impl View for PushButton<'_> {
    type V = Button;

    closed spec fn view(&self) -> Button {
        Button { label: self.text@, size: self.size }
    }
}

/// The state of a button that changes with user input.
pub struct ImmediateState {
    /// Whether the button is currently pressed.
    pressed: bool,
}

impl View for ImmediateState {
    type V = bool;

    /// Whether the button is currently pressed.
    closed spec fn view(&self) -> bool {
        self.pressed
    }
}

impl ImmediateState {
    /// Whether the button is currently pressed.
    pub fn is_pressed(&self) -> (pressed: bool)
        ensures
            pressed == self@,
    {
        self.pressed
    }
}

impl Default for ImmediateState {
    /// The state of a button that nothing has touched yet: not pressed.
    fn default() -> (state: Self)
        ensures
            !state@,
    {
        ImmediateState { pressed: false }
    }
}

/// The cache of a button: the cache of its caption.
pub struct ButtonCache<L> {
    text: LayoutCache<L>,
}

impl<L> View for ButtonCache<L> {
    type V = CacheState<L>;

    closed spec fn view(&self) -> CacheState<L> {
        self.text@
    }
}

impl<L> Default for ButtonCache<L> {
    /// A cache that holds no layout.
    fn default() -> (cache: Self)
        ensures
            cache@ == CacheState::<L>::Empty,
    {
        ButtonCache { text: LayoutCache::new() }
    }
}

impl<'a> PushButton<'a> {
    /// A button of the given size with `text` as its caption.
    pub fn new(text: TextView<'a>, size: Size) -> (button: Self)
        ensures
            button@ == (Button { label: text@, size }),
    {
        PushButton { text, size }
    }

    /// The caption inside the button.
    pub fn text(&self) -> (text: &TextView<'a>)
        ensures
            text@ == self@.label,
    {
        &self.text
    }

    /// The area that the button takes up.
    pub fn size(&self) -> (size: Size)
        ensures
            size == self@.size,
    {
        self.size
    }
}

impl Widget for PushButton<'_> {
    type Immediate = ImmediateState;

    /// Follow the pointer: the button is pressed while the pointer is on it.
    /// The answer is `true` exactly when the pressed state has changed, so a
    /// second event that presses the button leaves it pressed and asks for
    /// no redraw. The button itself stays as it was.
    fn handle_event(&mut self, immediate: &mut ImmediateState, event: Event) -> (redraw: bool)
        ensures
            (final(immediate)@, redraw) == old(self)@.react(old(immediate)@, event),
            *final(self) == *old(self),
    {
        let pressed = match event {
            Event::Mouse { x, y } => 0 <= x && 0 <= y && (x as u32) < self.size.width && (y as u32)
                < self.size.height,
        };
        let redraw = pressed != immediate.pressed;
        immediate.pressed = pressed;
        redraw
    }
}

} // verus!
