//! The connection to the display server, as far as it can be decided
//! without talking to one.

use vstd::prelude::*;

verus! {

/// The application has exited.
#[derive(Debug)]
pub struct Exit {
    _private: (),
}

/// How far the drawing side of a display has come.
///
/// A display starts out with the builder of type `B` that it was configured
/// with. The first window takes the builder out, which leaves a hole, builds
/// the drawing display of type `D` from it and puts that in. From then on
/// the display is ready to draw.
pub enum DrawState<B, D> {
    /// We are still being initialized.
    Initializing(B),
    /// We are ready to draw.
    Ready(D),
    /// Empty hole.
    Hole,
}

impl<B, D> DrawState<B, D> {
    /// Whether the display is ready to draw.
    pub fn is_ready(&self) -> (ready: bool)
        ensures
            ready == (*self is Ready),
    {
        match self {
            DrawState::Ready(_) => true,
            _ => false,
        }
    }

    /// The display to draw on. It must be ready.
    pub fn ready_mut(&mut self) -> (display: &mut D)
        requires
            *old(self) is Ready,
        ensures
            *display == old(self)->Ready_0,
            *final(self) == DrawState::<B, D>::Ready(*final(display)),
    {
        match self {
            DrawState::Ready(display) => display,
            _ => vstd::pervasive::unreached(),
        }
    }

    /// Take the builder out to start building the display, which leaves a
    /// hole behind. A display that is ready has no builder to give and
    /// stays as it is. There must be no hole already.
    pub fn take_builder(&mut self) -> (builder: Option<B>)
        requires
            !(*old(self) is Hole),
        ensures
            match *old(self) {
                DrawState::Initializing(configured) => builder == Some(configured) && *final(self)
                    is Hole,
                _ => builder is None && *final(self) == *old(self),
            },
    {
        if self.is_ready() {
            return None;
        }
        let mut taken = DrawState::Hole;
        core::mem::swap(self, &mut taken);
        match taken {
            DrawState::Initializing(configured) => Some(configured),
            _ => vstd::pervasive::unreached(),
        }
    }

    /// Put in the display that was built, which makes the state ready.
    pub fn set_ready(&mut self, display: D)
        ensures
            *final(self) == DrawState::<B, D>::Ready(display),
    {
        *self = DrawState::Ready(display);
    }
}

} // verus!
