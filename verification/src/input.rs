//! Keyboard input model.
//!
//! [`Key`] names a physical keyboard key, [`KeySet`] is a duplicate-free
//! snapshot of the keys held at one poll instant, and the functions here
//! turn raw console key-event records into such a snapshot.  Reading the
//! events from the operating system is the embedding application's job;
//! this module owns everything that can be computed from plain values.

use vstd::prelude::*;

verus! {

/// A physical keyboard key.
///
/// Letter and digit keys carry their character; a handful of named keys
/// are distinct variants, and `Unknown` absorbs anything unrecognized.
#[derive(Debug, Clone, Copy, PartialEq, Eq, Hash, Structural)]
pub enum Key {
    /// A key carrying a literal character
    Char(char),
    /// Up arrow key
    Up,
    /// Down arrow key
    Down,
    /// Left arrow key
    Left,
    /// Right arrow key
    Right,
    /// Space bar
    Space,
    /// Enter/Return key
    Enter,
    /// Shift key
    Shift,
    /// Control key
    Ctrl,
    /// Escape key
    Esc,
    /// Unrecognized key
    Unknown,
}

/// A snapshot of the keys held at one instant, with no key listed twice.
///
/// The abstract value of a `KeySet` is the set of keys it holds; the
/// backing vector only fixes an iteration order.
pub struct KeySet {
    pub keys: Vec<Key>,
}

impl View for KeySet {
    type V = Set<Key>;

    open spec fn view(&self) -> Set<Key> {
        self.keys@.to_set()
    }
}

impl KeySet {
    /// The backing vector holds each key at most once.
    pub open spec fn wf(self) -> bool {
        self.keys@.no_duplicates()
    }

    /// Creates an empty snapshot.
    pub fn new() -> (r: KeySet)
        ensures
            r@ == Set::<Key>::empty(),
            r.wf(),
    {
        let r = KeySet { keys: Vec::new() };
        proof {
            assert(r@ =~= Set::<Key>::empty());
        }
        r
    }

    /// Returns whether `key` is in the snapshot.
    pub fn contains(&self, key: Key) -> (r: bool)
        ensures
            r == self@.contains(key),
    {
        let n = self.keys.len();
        let mut i: usize = 0;
        while i < n
            invariant
                n == self.keys@.len(),
                i <= n,
                forall|j: int| 0 <= j < i ==> self.keys@[j] != key,
            decreases n - i,
        {
            if self.keys[i] == key {
                return true;
            }
            i += 1;
        }
        proof {
            assert(!self.keys@.contains(key));
        }
        false
    }

    /// Adds `key` if it is not already present.
    pub fn insert(&mut self, key: Key)
        ensures
            final(self)@ == old(self)@.insert(key),
            old(self).wf() ==> final(self).wf(),
    {
        if !self.contains(key) {
            self.keys.push(key);
            proof {
                Seq::lemma_to_set_insert_commutes(old(self).keys@, key);
                assert(self.keys@ =~= old(self).keys@ + seq![key]);
            }
        }
        proof {
            assert(self@ =~= old(self)@.insert(key));
        }
    }

    /// Number of keys in the backing vector.
    pub fn len(&self) -> (r: usize)
        ensures
            r == self.keys@.len(),
            self.wf() ==> r == self@.len(),
    {
        proof {
            if self.wf() {
                self.keys@.unique_seq_to_set();
            }
        }
        self.keys.len()
    }

    /// Returns whether the snapshot holds no key.
    pub fn is_empty(&self) -> (r: bool)
        ensures
            r == (self@ == Set::<Key>::empty()),
    {
        proof {
            if self.keys@.len() == 0 {
                assert(self@ =~= Set::<Key>::empty());
            } else {
                assert(self@.contains(self.keys@[0]));
            }
        }
        self.keys.len() == 0
    }

    /// The key at position `i` of the backing vector.
    pub fn index(&self, i: usize) -> (r: Key)
        requires
            i < self.keys@.len(),
        ensures
            r == self.keys@[i as int],
            self@.contains(r),
    {
        self.keys[i]
    }
}

impl Clone for KeySet {
    /// Copies the snapshot, keys and order alike.
    fn clone(&self) -> (r: KeySet)
        ensures
            r.keys@ == self.keys@,
    {
        let n = self.keys.len();
        let mut keys: Vec<Key> = Vec::new();
        let mut i: usize = 0;
        while i < n
            invariant
                n == self.keys@.len(),
                i <= n,
                keys@ == self.keys@.take(i as int),
            decreases n - i,
        {
            keys.push(self.keys[i]);
            proof {
                assert(keys@ =~= self.keys@.take(i + 1));
            }
            i += 1;
        }
        proof {
            assert(keys@ =~= self.keys@);
        }
        KeySet { keys }
    }
}

/// Virtual key code of the up arrow key.
pub const VK_UP: u16 = 0x26;

/// Virtual key code of the down arrow key.
pub const VK_DOWN: u16 = 0x28;

/// Virtual key code of the left arrow key.
pub const VK_LEFT: u16 = 0x25;

/// Virtual key code of the right arrow key.
pub const VK_RIGHT: u16 = 0x27;

/// Virtual key code of the space bar.
pub const VK_SPACE: u16 = 0x20;

/// Virtual key code of the enter key.
pub const VK_RETURN: u16 = 0x0D;

/// Virtual key code of the shift key.
pub const VK_SHIFT: u16 = 0x10;

/// Virtual key code of the control key.
pub const VK_CONTROL: u16 = 0x11;

/// Virtual key code of the escape key.
pub const VK_ESCAPE: u16 = 0x1B;

/// The key that a console key event with virtual key code `vk` and
/// character payload `ch` stands for.
pub open spec fn key_from_code(vk: u16, ch: u16) -> Key {
    if vk == VK_UP {
        Key::Up
    } else if vk == VK_DOWN {
        Key::Down
    } else if vk == VK_LEFT {
        Key::Left
    } else if vk == VK_RIGHT {
        Key::Right
    } else if vk == VK_SPACE {
        Key::Space
    } else if vk == VK_RETURN {
        Key::Enter
    } else if vk == VK_SHIFT {
        Key::Shift
    } else if vk == VK_CONTROL {
        Key::Ctrl
    } else if vk == VK_ESCAPE {
        Key::Esc
    } else if ch != 0 {
        Key::Char((ch as u8) as char)
    } else {
        Key::Unknown
    }
}

/// Converts a console virtual key code and its character payload to a [`Key`].
///
/// Named keys are recognized by their code; any other event falls back to
/// the low byte of its character payload, or `Unknown` when there is none.
pub fn key_code_to_key(virtual_key_code: u16, unicode_char: u16) -> (r: Key)
    ensures
        r == key_from_code(virtual_key_code, unicode_char),
{
    if virtual_key_code == VK_UP {
        Key::Up
    } else if virtual_key_code == VK_DOWN {
        Key::Down
    } else if virtual_key_code == VK_LEFT {
        Key::Left
    } else if virtual_key_code == VK_RIGHT {
        Key::Right
    } else if virtual_key_code == VK_SPACE {
        Key::Space
    } else if virtual_key_code == VK_RETURN {
        Key::Enter
    } else if virtual_key_code == VK_SHIFT {
        Key::Shift
    } else if virtual_key_code == VK_CONTROL {
        Key::Ctrl
    } else if virtual_key_code == VK_ESCAPE {
        Key::Esc
    } else if unicode_char != 0 {
        Key::Char((#[verifier::truncate] (unicode_char as u8)) as char)
    } else {
        Key::Unknown
    }
}

/// One console key event, reduced to the fields the key mapping reads.
///
/// The embedding application fills these from the records its console
/// delivers; only key events (not mouse or resize events) belong here.
#[derive(Debug, Clone, Copy, PartialEq, Eq, Structural)]
pub struct KeyEvent {
    /// Whether the event reports the key going or being down.
    pub is_key_down: bool,
    /// The platform's code for the key.
    pub virtual_key_code: u16,
    /// The character the keystroke produced, or 0 for none.
    pub unicode_char: u16,
}

/// The set of keys that a batch of console key events reports as held:
/// one key for every key-down event.
pub open spec fn active_key_set(events: Seq<KeyEvent>) -> Set<Key> {
    Set::new(
        |k: Key|
            exists|i: int|
                0 <= i < events.len() && events[i].is_key_down && key_from_code(
                    events[i].virtual_key_code,
                    events[i].unicode_char,
                ) == k,
    )
}

/// Builds the held-key snapshot for one frame from a batch of console
/// key events: every key-down event contributes its key, once.
pub fn collect_active_keys(events: &Vec<KeyEvent>) -> (keys: KeySet)
    ensures
        keys@ == active_key_set(events@),
        keys.wf(),
{
    let n = events.len();
    let mut keys = KeySet::new();
    let mut i: usize = 0;
    while i < n
        invariant
            n == events@.len(),
            i <= n,
            keys@ == active_key_set(events@.take(i as int)),
            keys.wf(),
        decreases n - i,
    {
        let ev = events[i];
        if ev.is_key_down {
            let key = key_code_to_key(ev.virtual_key_code, ev.unicode_char);
            keys.insert(key);
        }
        proof {
            let pre = events@.take(i as int);
            let post = events@.take(i + 1);
            assert(forall|j: int| 0 <= j < post.len() ==> post[j] == events@[j]);
            assert forall|k: Key| active_key_set(post).contains(k) implies keys@.contains(
                k,
            ) by {
                let j = choose|j: int|
                    0 <= j < post.len() && post[j].is_key_down && key_from_code(
                        post[j].virtual_key_code,
                        post[j].unicode_char,
                    ) == k;
                if j < i {
                    assert(pre[j] == events@[j]);
                    assert(active_key_set(pre).contains(k));
                }
            }
            assert forall|k: Key| keys@.contains(k) implies active_key_set(post).contains(
                k,
            ) by {
                if active_key_set(pre).contains(k) {
                    let j = choose|j: int|
                        0 <= j < pre.len() && pre[j].is_key_down && key_from_code(
                            pre[j].virtual_key_code,
                            pre[j].unicode_char,
                        ) == k;
                    assert(post[j] == events@[j]);
                } else {
                    assert(post[i as int] == events@[i as int]);
                }
            }
            assert(keys@ =~= active_key_set(post));
        }
        i += 1;
    }
    proof {
        assert(events@.take(n as int) =~= events@);
    }
    keys
}

/// Picks one key out of a snapshot: the first in its backing order, or
/// `None` when no key is held.
pub fn first_key(keys: &KeySet) -> (r: Option<Key>)
    ensures
        match r {
            Option::Some(k) => keys@.contains(k) && k == keys.keys@[0],
            Option::None => keys@ == Set::<Key>::empty(),
        },
{
    if keys.len() > 0 {
        Option::Some(keys.index(0))
    } else {
        proof {
            assert(keys@ =~= Set::<Key>::empty());
        }
        Option::None
    }
}

/// Keys down this frame that were not down last frame.
pub open spec fn pressed_keys(current: Set<Key>, previous: Set<Key>) -> Set<Key> {
    current.difference(previous)
}

/// Keys down both this frame and last frame.
pub open spec fn held_keys(current: Set<Key>, previous: Set<Key>) -> Set<Key> {
    current.intersect(previous)
}

/// Keys down last frame that are no longer down.
pub open spec fn released_keys(current: Set<Key>, previous: Set<Key>) -> Set<Key> {
    previous.difference(current)
}

/// Splits this frame's and last frame's held-key snapshots into the
/// pressed, held and released key sets.
pub fn key_transitions(current: &KeySet, previous: &KeySet) -> (r: (KeySet, KeySet, KeySet))
    ensures
        r.0@ == pressed_keys(current@, previous@),
        r.1@ == held_keys(current@, previous@),
        r.2@ == released_keys(current@, previous@),
        r.0.wf() && r.1.wf() && r.2.wf(),
{
    let mut pressed = KeySet::new();
    let mut held = KeySet::new();
    let mut released = KeySet::new();
    let n = current.len();
    let mut i: usize = 0;
    while i < n
        invariant
            n == current.keys@.len(),
            i <= n,
            pressed@ == pressed_keys(current.keys@.take(i as int).to_set(), previous@),
            held@ == held_keys(current.keys@.take(i as int).to_set(), previous@),
            pressed.wf() && held.wf(),
        decreases n - i,
    {
        let key = current.index(i);
        if previous.contains(key) {
            held.insert(key);
        } else {
            pressed.insert(key);
        }
        proof {
            let pre = current.keys@.take(i as int).to_set();
            let post = current.keys@.take(i + 1).to_set();
            assert(current.keys@.take(i + 1) =~= current.keys@.take(i as int) + seq![
                current.keys@[i as int],
            ]);
            Seq::lemma_to_set_insert_commutes(current.keys@.take(i as int), current.keys@[i as int]);
            assert(pressed@ =~= pressed_keys(post, previous@));
            assert(held@ =~= held_keys(post, previous@));
        }
        i += 1;
    }
    let m = previous.len();
    let mut j: usize = 0;
    while j < m
        invariant
            m == previous.keys@.len(),
            j <= m,
            released@ == released_keys(current@, previous.keys@.take(j as int).to_set()),
            released.wf(),
        decreases m - j,
    {
        let key = previous.index(j);
        if !current.contains(key) {
            released.insert(key);
        }
        proof {
            let post = previous.keys@.take(j + 1).to_set();
            assert(previous.keys@.take(j + 1) =~= previous.keys@.take(j as int) + seq![
                previous.keys@[j as int],
            ]);
            Seq::lemma_to_set_insert_commutes(
                previous.keys@.take(j as int),
                previous.keys@[j as int],
            );
            assert(released@ =~= released_keys(current@, post));
        }
        j += 1;
    }
    proof {
        assert(current.keys@.take(n as int) =~= current.keys@);
        assert(previous.keys@.take(m as int) =~= previous.keys@);
    }
    (pressed, held, released)
}

/// The pressed, held and released sets partition the union of the two
/// snapshots: together they cover every key seen in either frame, and no
/// key falls in two of them.
pub proof fn lemma_transitions_partition(current: Set<Key>, previous: Set<Key>)
    ensures
        pressed_keys(current, previous).union(held_keys(current, previous)).union(
            released_keys(current, previous),
        ) == current.union(previous),
        pressed_keys(current, previous).intersect(held_keys(current, previous)) == Set::<
            Key,
        >::empty(),
        pressed_keys(current, previous).intersect(released_keys(current, previous)) == Set::<
            Key,
        >::empty(),
        held_keys(current, previous).intersect(released_keys(current, previous)) == Set::<
            Key,
        >::empty(),
{
    assert(pressed_keys(current, previous).union(held_keys(current, previous)).union(
        released_keys(current, previous),
    ) =~= current.union(previous));
    assert(pressed_keys(current, previous).intersect(held_keys(current, previous)) =~= Set::<
        Key,
    >::empty());
    assert(pressed_keys(current, previous).intersect(released_keys(current, previous)) =~= Set::<
        Key,
    >::empty());
    assert(held_keys(current, previous).intersect(released_keys(current, previous)) =~= Set::<
        Key,
    >::empty());
}

/// On the very first frame, when no key was held before, every held key
/// counts as pressed and nothing as held or released.
pub proof fn lemma_first_frame(current: Set<Key>)
    ensures
        pressed_keys(current, Set::<Key>::empty()) == current,
        held_keys(current, Set::<Key>::empty()) == Set::<Key>::empty(),
        released_keys(current, Set::<Key>::empty()) == Set::<Key>::empty(),
{
    assert(pressed_keys(current, Set::<Key>::empty()) =~= current);
    assert(held_keys(current, Set::<Key>::empty()) =~= Set::<Key>::empty());
    assert(released_keys(current, Set::<Key>::empty()) =~= Set::<Key>::empty());
}

} // verus!
