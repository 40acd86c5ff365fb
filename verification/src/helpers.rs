//! Utility functions for common game operations: grid collision checks,
//! text rendering and a simple progress bar.

use crate::engine::{Engine, Updatable};
use crate::event::Listener;
use crate::game_object::{GameObject, DEFAULT_FRAME_DURATION_MS};
use vstd::prelude::*;
use vstd::string::StrSliceExecFns;

verus! {

/// Returns whether `tag` is one of `tags`.
fn contains_tag(tags: &Vec<String>, tag: &String) -> (r: bool)
    ensures
        r == tags.deep_view().contains(tag@),
{
    let n = tags.len();
    let mut i: usize = 0;
    while i < n
        invariant
            i <= n,
            n == tags@.len(),
            forall|j: int| 0 <= j < i ==> tags@[j]@ != tag@,
        decreases n - i,
    {
        if tags[i].eq(tag) {
            proof {
                assert(tags.deep_view()[i as int] == tag@);
            }
            return true;
        }
        i += 1;
    }
    proof {
        assert(forall|j: int| 0 <= j < n ==> tags.deep_view()[j] != tag@);
    }
    false
}

/// Checks grid-based collision between two game objects: they collide
/// when they occupy the same cell and neither carries one of the
/// case-sensitive `ignore_tags`.
pub fn check_collision(a: &GameObject, b: &GameObject, ignore_tags: &Vec<String>) -> (r: bool)
    ensures
        r == (!ignore_tags.deep_view().contains(a.tag@) && !ignore_tags.deep_view().contains(
            b.tag@,
        ) && a.x == b.x && a.y == b.y),
{
    if contains_tag(ignore_tags, &a.tag) || contains_tag(ignore_tags, &b.tag) {
        return false;
    }
    a.x == b.x && a.y == b.y
}

/// A freshly made single-frame object showing `character` at `(x, y)`,
/// with the defaults of [`GameObject::new`].
pub open spec fn plain_glyph_object(obj: GameObject, x: int, y: int, character: char) -> bool {
    obj.x == x && obj.y == y && obj.character == character && obj.tag@ == Seq::<char>::empty()
        && obj.frames@ == seq![character] && obj.current_frame == 0 && obj.frame_duration_ms
        == DEFAULT_FRAME_DURATION_MS && obj.animation_timer_ms == 0 && obj.fg_color is None
        && obj.bg_color is None
}

/// Renders `text` by appending one plain game object per character,
/// placed left to right starting at `(x, y)`.
pub fn draw_text<U: Updatable, L: Listener>(
    engine: &mut Engine<U, L>,
    x: usize,
    y: usize,
    text: &str,
)
    requires
        x + text@.len() <= usize::MAX,
    ensures
        final(engine).objects@.len() == old(engine).objects@.len() + text@.len(),
        forall|j: int|
            0 <= j < old(engine).objects@.len() ==> final(engine).objects@[j] == old(
                engine,
            ).objects@[j],
        forall|j: int|
            0 <= j < text@.len() ==> plain_glyph_object(
                #[trigger] final(engine).objects@[old(engine).objects@.len() + j],
                x + j,
                y as int,
                text@[j],
            ),
        final(engine).running == old(engine).running,
        final(engine).renderer == old(engine).renderer,
        final(engine).updatables == old(engine).updatables,
        final(engine).commands == old(engine).commands,
        final(engine).event_bus == old(engine).event_bus,
        final(engine).previous_keys == old(engine).previous_keys,
        final(engine).active_keys == old(engine).active_keys,
{
    let n = text.unicode_len();
    let mut i: usize = 0;
    while i < n
        invariant
            i <= n,
            n == text@.len(),
            x + n <= usize::MAX,
            engine.objects@.len() == old(engine).objects@.len() + i,
            forall|j: int|
                0 <= j < old(engine).objects@.len() ==> engine.objects@[j] == old(
                    engine,
                ).objects@[j],
            forall|j: int|
                0 <= j < i ==> plain_glyph_object(
                    #[trigger] engine.objects@[old(engine).objects@.len() + j],
                    x + j,
                    y as int,
                    text@[j],
                ),
            engine.running == old(engine).running,
            engine.renderer == old(engine).renderer,
            engine.updatables == old(engine).updatables,
            engine.commands == old(engine).commands,
            engine.event_bus == old(engine).event_bus,
            engine.previous_keys == old(engine).previous_keys,
            engine.active_keys == old(engine).active_keys,
        decreases n - i,
    {
        let c = text.get_char(i);
        engine.add_object(GameObject::new(x + i, y, c));
        i += 1;
    }
}

/// How many of `width` cells a bar at `percent` hundredths fills: the
/// exact fraction `width * percent / 100`, rounded half up.
pub open spec fn filled_cells(width: int, percent: int) -> int {
    (width * percent + 50) / 100
}

/// Draws a progress bar of `width` cells starting at `(x, y)`:
/// `'#'` for the filled portion, `'-'` for the rest.  `percent` is the
/// fill level in hundredths, so `60` means sixty percent.
pub fn draw_progress_bar<U: Updatable, L: Listener>(
    engine: &mut Engine<U, L>,
    x: usize,
    y: usize,
    width: usize,
    percent: usize,
)
    requires
        x + width <= usize::MAX,
        width * percent + 50 <= usize::MAX,
    ensures
        final(engine).objects@.len() == old(engine).objects@.len() + width,
        forall|j: int|
            0 <= j < old(engine).objects@.len() ==> final(engine).objects@[j] == old(
                engine,
            ).objects@[j],
        forall|j: int|
            0 <= j < width ==> plain_glyph_object(
                #[trigger] final(engine).objects@[old(engine).objects@.len() + j],
                x + j,
                y as int,
                if j < filled_cells(width as int, percent as int) {
                    '#'
                } else {
                    '-'
                },
            ),
        final(engine).running == old(engine).running,
        final(engine).renderer == old(engine).renderer,
        final(engine).updatables == old(engine).updatables,
        final(engine).commands == old(engine).commands,
        final(engine).event_bus == old(engine).event_bus,
        final(engine).previous_keys == old(engine).previous_keys,
        final(engine).active_keys == old(engine).active_keys,
{
    let filled = (width * percent + 50) / 100;
    let mut i: usize = 0;
    while i < width
        invariant
            i <= width,
            x + width <= usize::MAX,
            filled == filled_cells(width as int, percent as int),
            engine.objects@.len() == old(engine).objects@.len() + i,
            forall|j: int|
                0 <= j < old(engine).objects@.len() ==> engine.objects@[j] == old(
                    engine,
                ).objects@[j],
            forall|j: int|
                0 <= j < i ==> plain_glyph_object(
                    #[trigger] engine.objects@[old(engine).objects@.len() + j],
                    x + j,
                    y as int,
                    if j < filled_cells(width as int, percent as int) {
                        '#'
                    } else {
                        '-'
                    },
                ),
            engine.running == old(engine).running,
            engine.renderer == old(engine).renderer,
            engine.updatables == old(engine).updatables,
            engine.commands == old(engine).commands,
            engine.event_bus == old(engine).event_bus,
            engine.previous_keys == old(engine).previous_keys,
            engine.active_keys == old(engine).active_keys,
        decreases width - i,
    {
        let c = if i < filled {
            '#'
        } else {
            '-'
        };
        engine.add_object(GameObject::new(x + i, y, c));
        i += 1;
    }
}

} // verus!
