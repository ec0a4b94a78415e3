//! What holds of the widgets across several calls, proved from the models
//! that their contracts are stated over.

use vstd::prelude::*;
use crate::geometry::Size;
use crate::widget::Event;
use crate::widgets::button::Button;
use crate::widgets::text_view::{CacheState, Label};

verus! {

/// A cache that starts out empty is filled by the first request to show a
/// label, from what the rendering target built for it, and a second request
/// to show the same label leaves it exactly as it is: whatever the target
/// would build then is never looked at, so it need not be built.
pub proof fn law_cache_idempotence<L>(label: Label, first: (L, Size), second: Option<(L, Size)>)
    ensures
        CacheState::<L>::Empty.step(label, Some(first)) == (CacheState::Populated {
            text: label.text,
            size: first.1,
            layout: first.0,
        }),
        CacheState::<L>::Empty.step(label, Some(first)).holds(label.text),
        CacheState::<L>::Empty.step(label, Some(first)).step(label, second)
            == CacheState::<L>::Empty.step(label, Some(first)),
{
}

/// A request to show a label whose text the cache already holds changes
/// nothing, in whichever state the cache is and whatever the rendering
/// target would build.
pub proof fn law_fresh_cache_is_kept<L>(
    cache: CacheState<L>,
    label: Label,
    built: Option<(L, Size)>,
)
    requires
        cache.holds(label.text),
    ensures
        cache.step(label, built) == cache,
{
}

/// After a label has been shown, a request to show a label with another text
/// finds the cache stale and replaces its content: the text on record is the
/// second label's, and the size and layout are those that the rendering
/// target built for the second label, not those of the first.
pub proof fn law_cache_invalidation<L>(
    cache: CacheState<L>,
    first: Label,
    second: Label,
    built_first: (L, Size),
    built_second: (L, Size),
)
    requires
        first.text != second.text,
    ensures
        cache.step(first, Some(built_first)).holds(first.text),
        !cache.step(first, Some(built_first)).holds(second.text),
        cache.step(first, Some(built_first)).step(second, Some(built_second))
            == (CacheState::Populated {
            text: second.text,
            size: built_second.1,
            layout: built_second.0,
        }),
{
}

/// Where the rendering target fails to build a layout, the cache is left as
/// it was, and a cache that holds a layout never goes back to holding none.
pub proof fn law_cache_keeps_its_layout<L>(
    cache: CacheState<L>,
    label: Label,
    built: Option<(L, Size)>,
)
    ensures
        cache.step(label, None) == cache,
        cache is Populated ==> cache.step(label, built) is Populated,
{
}

/// An empty cache, which is what a cache is by default, serves no label, so
/// the first request to show one goes to the rendering target, and the
/// cache is then what it would be had it been filled from scratch.
pub proof fn law_default_cache_is_usable<L>(label: Label, built: (L, Size))
    ensures
        !CacheState::<L>::Empty.holds(label.text),
        CacheState::<L>::Empty.step(label, Some(built)) == (CacheState::Populated {
            text: label.text,
            size: built.1,
            layout: built.0,
        }),
{
}

/// An event that presses a button which is not pressed sets it pressed and
/// asks for a redraw; the same event again leaves it pressed and asks for
/// none.
pub proof fn law_press_twice(button: Button, event: Event)
    requires
        button.pressed_by(event),
    ensures
        button.react(false, event) == (true, true),
        button.react(button.react(false, event).0, event) == (true, false),
{
}

} // verus!
