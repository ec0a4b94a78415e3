//! Settings that a window is asked for.

use vstd::prelude::*;
use vstd::std_specs::convert::{FromSpecImpl, IntoSpec};

verus! {

#[verifier::external_type_specification]
#[verifier::external_body]
pub struct ExPoint(kurbo::Point);

/// A position that is either physical or logical.
#[derive(Clone, Copy, Debug, PartialEq)]
pub enum WindowPosition {
    /// A physical position.
    Physical(kurbo::Point),
    /// A logical position.
    Logical(kurbo::Point),
}

impl<T: Into<kurbo::Point>> From<T> for WindowPosition {
    /// Whatever converts into a point is a logical position at that point.
    fn from(p: T) -> (position: WindowPosition)
        ensures
            position matches WindowPosition::Logical(point) && call_ensures(
                <T as Into<kurbo::Point>>::into,
                (p,),
                point,
            ),
    {
        WindowPosition::Logical(p.into())
    }
}

impl<T: Into<kurbo::Point>> FromSpecImpl<T> for WindowPosition {
    open spec fn obeys_from_spec() -> bool {
        <T as IntoSpec<kurbo::Point>>::obeys_into_spec()
    }

    open spec fn from_spec(p: T) -> WindowPosition {
        WindowPosition::Logical(p.into_spec())
    }
}

/// Themes available for windows.
#[derive(Clone, Copy, Debug, PartialEq, Eq, Structural)]
#[non_exhaustive]
pub enum Theme {
    Light,
    Dark,
}

/// The ordering of this window with respect to its Z position.
#[derive(Clone, Copy, Debug, PartialEq, Eq, Structural)]
#[non_exhaustive]
pub enum WindowLevel {
    /// The window does not enforce any ordering.
    Normal,
    /// The window is at the bottom of the stack.
    Bottom,
    /// The window is at the top of the stack.
    Top,
}

/// Which buttons a window has, as contracts see it.
pub struct Buttons {
    /// Whether the window has a "close" button.
    pub close: bool,
    /// Whether the window has a "minimize" button.
    pub minimize: bool,
    /// Whether the window has a "maximize" button.
    pub maximize: bool,
}

/// The available window buttons.
#[derive(Clone, Copy, Debug, PartialEq, Eq)]
pub struct WindowButtons {
    close: bool,
    minimize: bool,
    maximize: bool,
}

impl View for WindowButtons {
    type V = Buttons;

    closed spec fn view(&self) -> Buttons {
        Buttons { close: self.close, minimize: self.minimize, maximize: self.maximize }
    }
}

impl Default for WindowButtons {
    /// A window has all of its buttons unless told otherwise.
    fn default() -> (buttons: Self)
        ensures
            buttons@ == (Buttons { close: true, minimize: true, maximize: true }),
    {
        WindowButtons { close: true, minimize: true, maximize: true }
    }
}

impl WindowButtons {
    /// Create a new `WindowButtons` with no buttons.
    pub fn none() -> (buttons: Self)
        ensures
            buttons@ == (Buttons { close: false, minimize: false, maximize: false }),
    {
        WindowButtons { close: false, minimize: false, maximize: false }
    }

    /// Whether the "close" button is enabled.
    pub fn close(&self) -> (enabled: bool)
        ensures
            enabled == self@.close,
    {
        self.close
    }

    /// Whether the "minimize" button is enabled.
    pub fn minimize(&self) -> (enabled: bool)
        ensures
            enabled == self@.minimize,
    {
        self.minimize
    }

    /// Whether the "maximize" button is enabled.
    pub fn maximize(&self) -> (enabled: bool)
        ensures
            enabled == self@.maximize,
    {
        self.maximize
    }

    /// Set the status of the "close" button.
    pub fn set_close(&mut self, enabled: bool)
        ensures
            final(self)@ == (Buttons { close: enabled, ..old(self)@ }),
    {
        self.close = enabled;
    }

    /// Set the status of the "minimize" button.
    pub fn set_minimize(&mut self, enabled: bool)
        ensures
            final(self)@ == (Buttons { minimize: enabled, ..old(self)@ }),
    {
        self.minimize = enabled;
    }

    /// Set the status of the "maximize" button.
    pub fn set_maximize(&mut self, enabled: bool)
        ensures
            final(self)@ == (Buttons { maximize: enabled, ..old(self)@ }),
    {
        self.maximize = enabled;
    }
}

} // verus!
