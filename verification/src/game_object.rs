//! Entities of the game world.
//!
//! A [`GameObject`] is a positioned, drawable, optionally animated unit of
//! game state.  Animation time is measured in whole milliseconds so that
//! the frame-advance rule can be stated and proved exactly.

use vstd::prelude::*;

verus! {

/// Milliseconds between automatic frame changes for a freshly made object.
pub const DEFAULT_FRAME_DURATION_MS: i64 = 100;

/// An entity in the game world with visual and spatial properties.
///
/// Invariant (see [`GameObject::wf`]): the frame sequence is non-empty and
/// `current_frame` indexes into it.  [`GameObject::new`] establishes it and
/// [`GameObject::tick`] preserves it.
#[derive(Debug, Clone)]
pub struct GameObject {
    /// Horizontal position in grid cells
    pub x: usize,
    /// Vertical position in grid cells
    pub y: usize,
    /// Current display character
    pub character: char,
    /// Object identifier/category, not necessarily unique
    pub tag: String,
    /// Animation frame sequence; a single frame means a static object
    pub frames: Vec<char>,
    /// Current animation frame index
    pub current_frame: usize,
    /// Milliseconds between automatic frame changes; zero or less means
    /// the animation never advances
    pub frame_duration_ms: i64,
    /// Milliseconds accumulated since the last frame change
    pub animation_timer_ms: i64,
    /// Optional terminal style prefix painted before the character
    pub fg_color: Option<String>,
    /// Optional terminal style prefix for the cell background
    pub bg_color: Option<String>,
}

impl GameObject {
    /// The frame sequence is non-empty and the current frame indexes it.
    pub open spec fn wf(self) -> bool {
        self.frames@.len() > 0 && self.current_frame < self.frames@.len()
    }

    /// Creates an object at `(x, y)` showing `character`, with a
    /// single-frame animation, an empty tag and no colors.
    pub fn new(x: usize, y: usize, character: char) -> (r: GameObject)
        ensures
            r.x == x,
            r.y == y,
            r.character == character,
            r.tag@ == Seq::<char>::empty(),
            r.frames@ == seq![character],
            r.current_frame == 0,
            r.frame_duration_ms == DEFAULT_FRAME_DURATION_MS,
            r.animation_timer_ms == 0,
            r.fg_color is None,
            r.bg_color is None,
            r.wf(),
    {
        let mut frames: Vec<char> = Vec::new();
        frames.push(character);
        proof {
            assert(frames@ =~= seq![character]);
        }
        GameObject {
            x,
            y,
            character,
            tag: String::new(),
            frames,
            current_frame: 0,
            frame_duration_ms: DEFAULT_FRAME_DURATION_MS,
            animation_timer_ms: 0,
            fg_color: Option::None,
            bg_color: Option::None,
        }
    }

    /// The object after one animation step of `delta` milliseconds.
    ///
    /// A static object (one frame) is untouched.  Otherwise the timer
    /// accumulates `delta`, saturating at the largest representable value;
    /// once it reaches a positive frame duration the frame index advances
    /// by exactly one step, wrapping around, the displayed character
    /// follows, and the timer resets to zero.  A duration of zero or less
    /// never advances the animation.
    pub open spec fn tick_spec(self, delta: int) -> GameObject {
        if self.frames@.len() <= 1 {
            self
        } else {
            let t = self.animation_timer_ms + delta;
            if self.frame_duration_ms > 0 && t >= self.frame_duration_ms {
                let next: usize = if self.current_frame >= self.frames@.len() - 1 {
                    0
                } else {
                    (self.current_frame + 1) as usize
                };
                (GameObject {
                    current_frame: next,
                    character: self.frames@[next as int],
                    animation_timer_ms: 0,
                    ..self
                })
            } else {
                (GameObject {
                    animation_timer_ms: if t > i64::MAX { i64::MAX } else { t as i64 },
                    ..self
                })
            }
        }
    }

    /// Advances the animation by `delta_ms` milliseconds, at most one
    /// frame step regardless of how large `delta_ms` is.
    pub fn tick(&mut self, delta_ms: i64)
        requires
            delta_ms >= 0,
        ensures
            *final(self) == old(self).tick_spec(delta_ms as int),
            old(self).wf() ==> final(self).wf(),
    {
        if self.frames.len() > 1 {
            let t: i64 = if self.animation_timer_ms > i64::MAX - delta_ms {
                i64::MAX
            } else {
                self.animation_timer_ms + delta_ms
            };
            if self.frame_duration_ms > 0 && t >= self.frame_duration_ms {
                let next: usize = if self.current_frame >= self.frames.len() - 1 {
                    0
                } else {
                    self.current_frame + 1
                };
                self.current_frame = next;
                self.character = self.frames[next];
                self.animation_timer_ms = 0;
            } else {
                self.animation_timer_ms = t;
            }
        }
    }
}

} // verus!
