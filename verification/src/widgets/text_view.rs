//! A text label and the cache of its laid-out text.
//!
//! Laying text out is the expensive part of drawing a label, and only the
//! rendering target can do it. The label therefore keeps the target's layout
//! in a cache, together with the text it was built from and the size the
//! target measured, and asks for a new layout only when the text it is to
//! show differs from the text on record.

use vstd::prelude::*;
use vstd::pervasive::unreached;
use vstd::utf8::{encode_utf8, encode_utf8_decode_utf8};
use crate::geometry::Size;
use crate::widget::{Event, Widget};

verus! {

/// What a label is asked to show, as contracts see it.
pub struct Label {
    /// The text to display.
    pub text: Seq<char>,
    /// The maximum width in whole pixels, if the text is to be wrapped.
    pub max_width: Option<u32>,
}

/// A label consisting of text.
///
/// This widget is the atomic unit used to render text.
pub struct TextView<'a> {
    /// The text to display.
    text: &'a str,
    /// The maximum width of the label, in whole pixels.
    max_width: Option<u32>,
}

impl View for TextView<'_> {
    type V = Label;

    closed spec fn view(&self) -> Label {
        Label { text: self.text@, max_width: self.max_width }
    }
}

/// The two states of a label's cache, as contracts see them.
pub enum CacheState<L> {
    /// No layout has been built yet.
    Empty,
    /// A layout is on record, with the text it was built from and the size
    /// that the rendering target measured for it.
    Populated { text: Seq<char>, size: Size, layout: L },
}

impl<L> CacheState<L> {
    /// Whether the layout on record was built from `text`.
    pub open spec fn holds(self, text: Seq<char>) -> bool {
        self matches CacheState::Populated { text: recorded, .. } && recorded == text
    }

    /// The cache after one request to show `label`. `built` is what the
    /// rendering target made of the label's text, or `None` where it failed;
    /// it is looked at only if the layout on record does not serve.
    pub open spec fn step(self, label: Label, built: Option<(L, Size)>) -> CacheState<L> {
        if self.holds(label.text) {
            self
        } else {
            match built {
                Some((layout, size)) => CacheState::Populated { text: label.text, size, layout },
                None => self,
            }
        }
    }
}

/// A layout together with what was known when it was built.
struct CachedLayout<L> {
    text: String,
    size: Size,
    layout: L,
}

/// The cache of a label: the layout of type `L` that a rendering target built
/// for it, if any.
pub struct LayoutCache<L> {
    entry: Option<CachedLayout<L>>,
}

impl<L> View for LayoutCache<L> {
    type V = CacheState<L>;

    closed spec fn view(&self) -> CacheState<L> {
        match self.entry {
            None => CacheState::Empty,
            Some(cached) => CacheState::Populated {
                text: cached.text@,
                size: cached.size,
                layout: cached.layout,
            },
        }
    }
}

/// Whether `build`, asked to lay out the text of `label` within its maximum
/// width, can have answered `outcome`.
pub open spec fn built_for<L, E, F: FnOnce(&str, Option<u32>) -> Result<(L, Size), E>>(
    build: F,
    label: Label,
    outcome: Result<(L, Size), E>,
) -> bool {
    exists|text: &str| #[trigger] text@ == label.text && build.ensures((text, label.max_width), outcome)
}

/// Whether two string slices hold the same characters.
fn same_text(a: &str, b: &str) -> (same: bool)
    ensures
        same == (a@ == b@),
{
    let x = a.as_bytes();
    let y = b.as_bytes();
    proof {
        encode_utf8_decode_utf8(a@);
        encode_utf8_decode_utf8(b@);
    }
    if x.len() != y.len() {
        return false;
    }
    let mut i: usize = 0;
    while i < x.len()
        invariant
            i <= x.len(),
            x.len() == y.len(),
            x@ == encode_utf8(a@),
            y@ == encode_utf8(b@),
            forall|j: int| 0 <= j < i ==> x@[j] == y@[j],
        decreases x.len() - i,
    {
        if x[i] != y[i] {
            return false;
        }
        i += 1;
    }
    assert(x@ =~= y@);
    true
}

impl<'a> TextView<'a> {
    /// A label that shows `text`, wrapped at `max_width` pixels if one is
    /// given.
    pub fn new(text: &'a str, max_width: Option<u32>) -> (label: Self)
        ensures
            label@ == (Label { text: text@, max_width }),
    {
        TextView { text, max_width }
    }

    /// The text to display.
    pub fn text(&self) -> (text: &'a str)
        ensures
            text@ == self@.text,
    {
        self.text
    }

    /// The maximum width of the label, in whole pixels.
    pub fn max_width(&self) -> (max_width: Option<u32>)
        ensures
            max_width == self@.max_width,
    {
        self.max_width
    }

    /// Replace the text to display. A cache filled for the old text goes
    /// stale by this alone; nothing else needs to be told.
    pub fn set_text(&mut self, text: &'a str)
        ensures
            final(self)@ == (Label { text: text@, max_width: old(self)@.max_width }),
    {
        self.text = text;
    }
}

impl<L> LayoutCache<L> {
    /// A cache that holds no layout.
    pub fn new() -> (cache: Self)
        ensures
            cache@ == CacheState::<L>::Empty,
    {
        LayoutCache { entry: None }
    }

    /// Whether the layout on record was built from the text that `label`
    /// shows now, so that it can be used as it is.
    pub fn is_fresh(&self, label: &TextView<'_>) -> (fresh: bool)
        ensures
            fresh == self@.holds(label@.text),
    {
        match &self.entry {
            Some(cached) => same_text(cached.text.as_str(), label.text),
            None => false,
        }
    }

    /// The size that the rendering target measured for the layout on record.
    pub fn size(&self) -> (size: Option<Size>)
        ensures
            match self@ {
                CacheState::Empty => size is None,
                CacheState::Populated { size: recorded, .. } => size == Some(recorded),
            },
    {
        match &self.entry {
            Some(cached) => Some(cached.size),
            None => None,
        }
    }

    /// The layout on record.
    pub fn layout(&self) -> (layout: Option<&L>)
        ensures
            match self@ {
                CacheState::Empty => layout is None,
                CacheState::Populated { layout: recorded, .. } => layout == Some(&recorded),
            },
    {
        match &self.entry {
            Some(cached) => Some(&cached.layout),
            None => None,
        }
    }

    /// Bring the cache in line with `label`.
    ///
    /// If the layout on record was built from the label's text, nothing
    /// happens and `build` is not called. Otherwise `build` is called once,
    /// with the label's text and maximum width. If it succeeds, its layout
    /// and the size it measured replace what was on record; if it fails, its
    /// error is handed on as it is and the cache stays as it was.
    pub fn populate<E, F>(&mut self, label: &TextView<'_>, build: F) -> (result: Result<(), E>)
        where F: FnOnce(&str, Option<u32>) -> Result<(L, Size), E>
        requires
            forall|text: &str| #[trigger] text@ == label@.text ==> build.requires((text, label@.max_width)),
        ensures
            old(self)@.holds(label@.text) ==> result is Ok && final(self)@ == old(self)@,
            !old(self)@.holds(label@.text) ==> match result {
                Ok(()) => exists|built: (L, Size)|
                    built_for(build, label@, Ok(built)) && final(self)@ == old(self)@.step(
                        label@,
                        Some(built),
                    ),
                Err(error) => built_for(build, label@, Err(error)) && final(self)@ == old(self)@,
            },
    {
        if self.is_fresh(label) {
            return Ok(());
        }
        match build(label.text, label.max_width) {
            Ok((layout, size)) => {
                let text = label.text.to_owned();
                self.entry = Some(CachedLayout { text, size, layout });
                proof {
                    assert(built_for(build, label@, Ok((layout, size))));
                }
                Ok(())
            },
            Err(error) => {
                proof {
                    assert(built_for(build, label@, Err(error)));
                }
                Err(error)
            },
        }
    }
}

/// One instruction to a rendering target: draw `layout` with its top left
/// corner at (`x`, `y`).
pub struct DrawText<'c, L> {
    /// The layout to draw.
    pub layout: &'c L,
    /// The x coordinate of the top left corner.
    pub x: i32,
    /// The y coordinate of the top left corner.
    pub y: i32,
}

impl<'a> TextView<'a> {
    /// The size of the rectangle that the label occupies: the size that the
    /// rendering target measured for the label's text.
    ///
    /// The cache is brought in line with the label first, as
    /// [`LayoutCache::populate`] says: `build` is called only if the layout
    /// on record was built from another text, and the size returned is then
    /// the one that `build` measured.
    pub fn rectangle_with<L, E, F>(&self, cache: &mut LayoutCache<L>, build: F) -> (result: Result<
        Size,
        E,
    >) where F: FnOnce(&str, Option<u32>) -> Result<(L, Size), E>
        requires
            forall|text: &str| #[trigger] text@ == self@.text ==> build.requires((text, self@.max_width)),
        ensures
            old(cache)@.holds(self@.text) ==> final(cache)@ == old(cache)@ && result == Ok::<Size, E>(
                old(cache)@->size,
            ),
            !old(cache)@.holds(self@.text) ==> match result {
                Ok(size) => exists|built: (L, Size)|
                    built_for(build, self@, Ok(built)) && size == built.1 && final(cache)@ == old(
                        cache,
                    )@.step(self@, Some(built)),
                Err(error) => built_for(build, self@, Err(error)) && final(cache)@ == old(cache)@,
            },
    {
        match cache.populate(self, build) {
            Ok(()) => match &cache.entry {
                Some(cached) => Ok(cached.size),
                None => unreached(),
            },
            Err(error) => Err(error),
        }
    }

    /// What it takes to render the label: one instruction, to draw the
    /// layout of the label's text at the origin.
    ///
    /// The cache is brought in line with the label first, as
    /// [`LayoutCache::populate`] says, so the layout in the instruction is
    /// the one on record afterwards.
    pub fn render_with<'c, L, E, F>(&self, cache: &'c mut LayoutCache<L>, build: F) -> (result:
        Result<DrawText<'c, L>, E>) where F: FnOnce(&str, Option<u32>) -> Result<(L, Size), E>
        requires
            forall|text: &str| #[trigger] text@ == self@.text ==> build.requires((text, self@.max_width)),
        ensures
            old(cache)@.holds(self@.text) ==> final(cache)@ == old(cache)@ && result is Ok,
            !old(cache)@.holds(self@.text) ==> match result {
                Ok(_) => exists|built: (L, Size)|
                    built_for(build, self@, Ok(built)) && final(cache)@ == old(cache)@.step(
                        self@,
                        Some(built),
                    ),
                Err(error) => built_for(build, self@, Err(error)) && final(cache)@ == old(cache)@,
            },
            result matches Ok(draw) ==> draw.x == 0 && draw.y == 0 && final(cache)@.holds(self@.text)
                && *draw.layout == final(cache)@->layout,
    {
        match cache.populate(self, build) {
            Ok(()) => match &cache.entry {
                Some(cached) => Ok(DrawText { layout: &cached.layout, x: 0, y: 0 }),
                None => unreached(),
            },
            Err(error) => Err(error),
        }
    }
}

impl<L> Default for LayoutCache<L> {
    fn default() -> (cache: Self)
        ensures
            cache@ == CacheState::<L>::Empty,
    {
        LayoutCache::new()
    }
}

impl Widget for TextView<'_> {
    type Immediate = ();

    /// A label does not react to events: the state and the label stay as
    /// they were, and no redraw is asked for.
    fn handle_event(&mut self, immediate: &mut (), event: Event) -> (redraw: bool)
        ensures
            !redraw,
            *final(immediate) == *old(immediate),
            *final(self) == *old(self),
    {
        false
    }
}

} // verus!
