//! The engine: object list, update handlers, command queue and frame passes.
//!
//! The engine owns the grid dimensions, the live game objects, the
//! registered update handlers, the per-frame command queue, the event bus
//! and the two key snapshots.  One frame runs as: feed in the polled key
//! snapshot ([`Engine::process_input`]), run the update pass
//! ([`Engine::update`]), render ([`Engine::render`]) and write the
//! returned text to the terminal.  The embedding application drives this
//! cycle at its fixed cadence and owns all timing and terminal I/O.
//!
//! Structural changes go through [`EngineCommand`] values returned by the
//! update handlers; they are queued during the update pass and applied in
//! queue order at its end, so handlers never mutate the object list while
//! it is being walked.

use crate::event::{EngineEvent, EventBus, Listener};
use crate::game_object::GameObject;
use crate::input::{key_transitions, KeySet};
use crate::renderer::{blank_grid, compose_cell, present_output, Renderer};
use vstd::prelude::*;

verus! {

/// A deferred structural mutation, produced by an update handler and
/// applied when the frame's queue is drained.
#[derive(Debug)]
pub enum EngineCommand {
    /// Spawn a new game object into the scene
    SpawnObject(GameObject),
    /// Remove a game object by its index in the objects list
    DespawnObject(usize),
    /// Move an existing game object by specified delta coordinates
    MoveObject(usize, i32, i32),
    /// Signal the engine to begin shutdown
    Quit,
}

/// A per-frame update handler.
///
/// Implementations live in the embedding application.  Each frame the
/// engine calls every registered handler with the frame's delta time in
/// milliseconds and the currently held keys; the commands it returns are
/// queued and applied at the end of the update pass.
pub trait Updatable {
    /// Called every frame; returns the structural changes to queue.
    fn update(&mut self, delta_time_ms: i64, active_keys: &KeySet) -> Vec<EngineCommand>;
}

/// `pos` shifted by `delta` and clamped into `[0, dim - 1]`.
pub open spec fn clamp_axis(pos: int, delta: int, dim: int) -> int {
    let hi = if dim >= 1 {
        dim - 1
    } else {
        0
    };
    let target = pos + delta;
    if target < 0 {
        0
    } else if target > hi {
        hi
    } else {
        target
    }
}

/// On an axis of at least one cell, a clamped move always lands inside
/// the axis: never negative, never at or past the dimension — whatever
/// the starting position and however large the delta.
pub proof fn lemma_clamp_axis_in_range(pos: int, delta: int, dim: int)
    requires
        dim >= 1,
    ensures
        0 <= clamp_axis(pos, delta, dim) < dim,
{
}

/// `obj` shifted by `(dx, dy)`, each axis clamped into the grid.
pub open spec fn moved_object(obj: GameObject, dx: int, dy: int, width: int, height: int) -> GameObject {
    GameObject {
        x: clamp_axis(obj.x as int, dx, width) as usize,
        y: clamp_axis(obj.y as int, dy, height) as usize,
        ..obj
    }
}

/// The object list and running flag after applying one command.
///
/// Spawn appends; despawn removes a valid index (later indices shift
/// down) and ignores an invalid one; move clamps a valid index's position
/// into the grid and ignores an invalid one; quit clears the running flag.
pub open spec fn apply_one(
    objs: Seq<GameObject>,
    running: bool,
    width: int,
    height: int,
    cmd: EngineCommand,
) -> (Seq<GameObject>, bool) {
    match cmd {
        EngineCommand::SpawnObject(obj) => (objs.push(obj), running),
        EngineCommand::DespawnObject(index) => if (index as int) < objs.len() {
            (objs.remove(index as int), running)
        } else {
            (objs, running)
        },
        EngineCommand::MoveObject(index, dx, dy) => if (index as int) < objs.len() {
            (
                objs.update(
                    index as int,
                    moved_object(objs[index as int], dx as int, dy as int, width, height),
                ),
                running,
            )
        } else {
            (objs, running)
        },
        EngineCommand::Quit => (objs, false),
    }
}

/// The object list and running flag after applying a whole queue of
/// commands, first to last.  Each command sees the list as the commands
/// before it left it, so indices are interpreted against the current
/// list, not the one the frame started with.
pub open spec fn apply_all(
    objs: Seq<GameObject>,
    running: bool,
    width: int,
    height: int,
    cmds: Seq<EngineCommand>,
) -> (Seq<GameObject>, bool)
    decreases cmds.len(),
{
    if cmds.len() == 0 {
        (objs, running)
    } else {
        let step = apply_one(objs, running, width, height, cmds[0]);
        apply_all(step.0, step.1, width, height, cmds.drop_first())
    }
}

/// Every object advanced by one animation step of `delta` milliseconds.
pub open spec fn tick_all(objs: Seq<GameObject>, delta: int) -> Seq<GameObject> {
    objs.map_values(|obj: GameObject| obj.tick_spec(delta))
}

/// The back grid after drawing the first `upto` objects onto a blank
/// grid in list order: every in-grid object stamps its composed cell at
/// its position, and a later object overwrites an earlier one sharing
/// its cell.
pub open spec fn rendered_grid(objs: Seq<GameObject>, width: nat, height: nat, upto: int) -> Seq<
    Seq<Seq<char>>,
>
    decreases upto,
{
    if upto <= 0 {
        blank_grid(width, height)
    } else {
        let prev = rendered_grid(objs, width, height, upto - 1);
        let obj = objs[upto - 1];
        if obj.x < width && obj.y < height {
            prev.update(obj.y as int, prev[obj.y as int].update(obj.x as int, compose_cell(obj)))
        } else {
            prev
        }
    }
}

/// The engine: all game state and the systems that advance it each frame.
pub struct Engine<U: Updatable, L: Listener> {
    /// Whether the loop should keep running
    pub running: bool,
    /// Rendering system
    pub renderer: Renderer,
    /// Active game objects, in spawn order
    pub objects: Vec<GameObject>,
    /// Registered update handlers, in registration order
    pub updatables: Vec<U>,
    /// Command queue for the frame being processed
    pub commands: Vec<EngineCommand>,
    /// Event distribution system
    pub event_bus: EventBus<L>,
    /// Keyboard state from the previous frame
    pub previous_keys: KeySet,
    /// Current keyboard state
    pub active_keys: KeySet,
}

impl<U: Updatable, L: Listener> Engine<U, L> {
    /// The renderer's buffers have their announced dimensions.
    pub open spec fn wf(self) -> bool {
        self.renderer.wf()
    }

    /// Creates an engine with a blank `width` by `height` render surface,
    /// no objects, no handlers, no listeners, an empty command queue and
    /// empty key snapshots, ready to run.
    pub fn new(width: usize, height: usize) -> (r: Engine<U, L>)
        ensures
            r.running == true,
            r.renderer.width == width,
            r.renderer.height == height,
            r.renderer.back() == blank_grid(width as nat, height as nat),
            r.renderer.front() == blank_grid(width as nat, height as nat),
            r.objects@ == Seq::<GameObject>::empty(),
            r.updatables@ == Seq::<U>::empty(),
            r.commands@ == Seq::<EngineCommand>::empty(),
            r.event_bus.subscribers@ == Seq::<L>::empty(),
            r.previous_keys@ == Set::<crate::input::Key>::empty(),
            r.active_keys@ == Set::<crate::input::Key>::empty(),
            r.previous_keys.wf() && r.active_keys.wf(),
            r.wf(),
    {
        let r = Engine {
            running: true,
            renderer: Renderer::new(width, height),
            objects: Vec::new(),
            updatables: Vec::new(),
            commands: Vec::new(),
            event_bus: EventBus::new(),
            previous_keys: KeySet::new(),
            active_keys: KeySet::new(),
        };
        proof {
            assert(r.objects@ =~= Seq::<GameObject>::empty());
            assert(r.updatables@ =~= Seq::<U>::empty());
            assert(r.commands@ =~= Seq::<EngineCommand>::empty());
        }
        r
    }

    /// Registers an update handler behind any already registered.
    pub fn add_updatable(&mut self, updatable: U)
        ensures
            final(self).updatables@ == old(self).updatables@.push(updatable),
            final(self).running == old(self).running,
            final(self).renderer == old(self).renderer,
            final(self).objects == old(self).objects,
            final(self).commands == old(self).commands,
            final(self).event_bus == old(self).event_bus,
            final(self).previous_keys == old(self).previous_keys,
            final(self).active_keys == old(self).active_keys,
    {
        self.updatables.push(updatable);
    }

    /// Appends a game object to the scene; it gets the highest index and
    /// is rendered from the next frame on.
    pub fn add_object(&mut self, obj: GameObject)
        ensures
            final(self).objects@ == old(self).objects@.push(obj),
            final(self).running == old(self).running,
            final(self).renderer == old(self).renderer,
            final(self).updatables == old(self).updatables,
            final(self).commands == old(self).commands,
            final(self).event_bus == old(self).event_bus,
            final(self).previous_keys == old(self).previous_keys,
            final(self).active_keys == old(self).active_keys,
    {
        self.objects.push(obj);
    }

    /// Returns whether the engine is still running.
    pub fn is_running(&self) -> (r: bool)
        ensures
            r == self.running,
    {
        self.running
    }

    /// Stops the engine: the loop exits after the current frame.
    pub fn stop(&mut self)
        ensures
            final(self).running == false,
            final(self).renderer == old(self).renderer,
            final(self).objects == old(self).objects,
            final(self).updatables == old(self).updatables,
            final(self).commands == old(self).commands,
            final(self).event_bus == old(self).event_bus,
            final(self).previous_keys == old(self).previous_keys,
            final(self).active_keys == old(self).active_keys,
    {
        self.running = false;
    }

    /// Takes this frame's polled key snapshot.  The embedding application
    /// polls the platform once per frame and passes the result here; on a
    /// poll failure it passes an empty snapshot instead.
    pub fn process_input(&mut self, keys: KeySet)
        ensures
            final(self).active_keys == keys,
            final(self).running == old(self).running,
            final(self).renderer == old(self).renderer,
            final(self).objects == old(self).objects,
            final(self).updatables == old(self).updatables,
            final(self).commands == old(self).commands,
            final(self).event_bus == old(self).event_bus,
            final(self).previous_keys == old(self).previous_keys,
    {
        self.active_keys = keys;
    }

    /// Publishes this frame's key transitions: one `KeyPressed` for every
    /// key newly down, one `KeyHeld` for every key down both frames, one
    /// `KeyReleased` for every key no longer down — each key in exactly
    /// one category (see [`crate::input::key_transitions`]).
    pub fn detect_key_transitions(&self) {
        let (pressed, held, released) = key_transitions(&self.active_keys, &self.previous_keys);
        let mut i: usize = 0;
        let n = pressed.len();
        while i < n
            invariant
                i <= n,
                n == pressed.keys@.len(),
            decreases n - i,
        {
            self.event_bus.emit(EngineEvent::KeyPressed(pressed.index(i)));
            i += 1;
        }
        let mut i: usize = 0;
        let n = held.len();
        while i < n
            invariant
                i <= n,
                n == held.keys@.len(),
            decreases n - i,
        {
            self.event_bus.emit(EngineEvent::KeyHeld(held.index(i)));
            i += 1;
        }
        let mut i: usize = 0;
        let n = released.len();
        while i < n
            invariant
                i <= n,
                n == released.keys@.len(),
            decreases n - i,
        {
            self.event_bus.emit(EngineEvent::KeyReleased(released.index(i)));
            i += 1;
        }
    }

    /// Applies a queue of structural commands in order, as
    /// [`apply_all`] describes: each command is interpreted against the
    /// object list as the commands before it left it.  Every applied
    /// move publishes an `ObjectMoved` event with the clamped coordinates.
    pub fn apply_commands(&mut self, queue: Vec<EngineCommand>)
        ensures
            final(self).objects@ == apply_all(
                old(self).objects@,
                old(self).running,
                old(self).renderer.width as int,
                old(self).renderer.height as int,
                queue@,
            ).0,
            final(self).running == apply_all(
                old(self).objects@,
                old(self).running,
                old(self).renderer.width as int,
                old(self).renderer.height as int,
                queue@,
            ).1,
            final(self).renderer == old(self).renderer,
            final(self).updatables == old(self).updatables,
            final(self).commands == old(self).commands,
            final(self).event_bus == old(self).event_bus,
            final(self).previous_keys == old(self).previous_keys,
            final(self).active_keys == old(self).active_keys,
    {
        let ghost full = queue@;
        let mut queue = queue;
        let width = self.renderer.get_width();
        let height = self.renderer.get_height();
        while queue.len() > 0
            invariant
                width == old(self).renderer.width,
                height == old(self).renderer.height,
                self.renderer == old(self).renderer,
                self.updatables == old(self).updatables,
                self.commands == old(self).commands,
                self.event_bus == old(self).event_bus,
                self.previous_keys == old(self).previous_keys,
                self.active_keys == old(self).active_keys,
                apply_all(
                    self.objects@,
                    self.running,
                    width as int,
                    height as int,
                    queue@,
                ) == apply_all(
                    old(self).objects@,
                    old(self).running,
                    width as int,
                    height as int,
                    full,
                ),
            decreases queue@.len(),
        {
            let ghost objs_pre = self.objects@;
            let ghost running_pre = self.running;
            let ghost queue_pre = queue@;
            let cmd = queue.remove(0);
            proof {
                assert(queue@ =~= queue_pre.drop_first());
            }
            match cmd {
                EngineCommand::SpawnObject(obj) => {
                    self.objects.push(obj);
                },
                EngineCommand::DespawnObject(index) => {
                    if index < self.objects.len() {
                        let _ = self.objects.remove(index);
                    }
                },
                EngineCommand::MoveObject(index, dx, dy) => {
                    if index < self.objects.len() {
                        let mut obj = self.objects.remove(index);
                        let new_x = clamp_coordinate(obj.x, dx, width);
                        let new_y = clamp_coordinate(obj.y, dy, height);
                        obj.x = new_x;
                        obj.y = new_y;
                        self.objects.insert(index, obj);
                        proof {
                            assert(self.objects@ =~= objs_pre.update(
                                index as int,
                                moved_object(
                                    objs_pre[index as int],
                                    dx as int,
                                    dy as int,
                                    width as int,
                                    height as int,
                                ),
                            ));
                        }
                        self.event_bus.emit(EngineEvent::ObjectMoved(index, new_x, new_y));
                    }
                },
                EngineCommand::Quit => {
                    self.running = false;
                },
            }
            proof {
                assert((self.objects@, self.running) == apply_one(
                    objs_pre,
                    running_pre,
                    width as int,
                    height as int,
                    queue_pre[0],
                ));
            }
        }
    }

    /// Runs one update pass: publishes the key transitions, replaces the
    /// previous key snapshot with the current one, resets the command
    /// queue, advances every animation by at most one frame step, invokes
    /// every update handler in registration order with the delta time and
    /// the held keys, and applies the commands they returned in queue
    /// order.  With no handlers registered, the object list is exactly
    /// the animation-ticked list and the running flag is unchanged.
    pub fn update(&mut self, delta_time_ms: i64)
        requires
            delta_time_ms >= 0,
        ensures
            final(self).previous_keys.keys@ == old(self).active_keys.keys@,
            final(self).active_keys == old(self).active_keys,
            final(self).renderer == old(self).renderer,
            final(self).event_bus == old(self).event_bus,
            final(self).commands@ == Seq::<EngineCommand>::empty(),
            final(self).updatables@.len() == old(self).updatables@.len(),
            exists|cmds: Seq<EngineCommand>|
                final(self).objects@ == #[trigger] apply_all(
                    tick_all(old(self).objects@, delta_time_ms as int),
                    old(self).running,
                    old(self).renderer.width as int,
                    old(self).renderer.height as int,
                    cmds,
                ).0 && final(self).running == apply_all(
                    tick_all(old(self).objects@, delta_time_ms as int),
                    old(self).running,
                    old(self).renderer.width as int,
                    old(self).renderer.height as int,
                    cmds,
                ).1,
            old(self).updatables@.len() == 0 ==> final(self).objects@ == tick_all(
                old(self).objects@,
                delta_time_ms as int,
            ) && final(self).running == old(self).running,
    {
        self.detect_key_transitions();
        self.previous_keys = self.active_keys.clone();
        self.commands.clear();
        tick_animations(&mut self.objects, delta_time_ms);
        let ghost ticked = self.objects@;
        let mut pending: Vec<U> = Vec::new();
        core::mem::swap(&mut pending, &mut self.updatables);
        let ghost handler_count = pending@.len();
        let mut done: Vec<U> = Vec::new();
        while pending.len() > 0
            invariant
                done@.len() + pending@.len() == handler_count,
                self.objects@ == ticked,
                self.running == old(self).running,
                self.renderer == old(self).renderer,
                self.event_bus == old(self).event_bus,
                self.previous_keys.keys@ == old(self).active_keys.keys@,
                self.active_keys == old(self).active_keys,
                handler_count == 0 ==> self.commands@ == Seq::<EngineCommand>::empty(),
            decreases pending@.len(),
        {
            let mut handler = pending.remove(0);
            let mut cmds = handler.update(delta_time_ms, &self.active_keys);
            self.commands.append(&mut cmds);
            done.push(handler);
        }
        self.updatables = done;
        let mut queue: Vec<EngineCommand> = Vec::new();
        core::mem::swap(&mut queue, &mut self.commands);
        let ghost witness = queue@;
        self.apply_commands(queue);
        proof {
            assert(final(self).objects@ == apply_all(
                tick_all(old(self).objects@, delta_time_ms as int),
                old(self).running,
                old(self).renderer.width as int,
                old(self).renderer.height as int,
                witness,
            ).0);
            assert(self.commands@ =~= Seq::<EngineCommand>::empty());
        }
    }

    /// Runs the render pass: clears the back grid, draws every object in
    /// list order (later objects overwrite earlier ones on the same
    /// cell), and presents.  Returns the full terminal output for the
    /// frame; the caller writes and flushes it.
    pub fn render(&mut self) -> (out: String)
        requires
            old(self).wf(),
        ensures
            final(self).wf(),
            final(self).running == old(self).running,
            final(self).objects == old(self).objects,
            final(self).updatables == old(self).updatables,
            final(self).commands == old(self).commands,
            final(self).event_bus == old(self).event_bus,
            final(self).previous_keys == old(self).previous_keys,
            final(self).active_keys == old(self).active_keys,
            final(self).renderer.width == old(self).renderer.width,
            final(self).renderer.height == old(self).renderer.height,
            final(self).renderer.back() == rendered_grid(
                old(self).objects@,
                old(self).renderer.width as nat,
                old(self).renderer.height as nat,
                old(self).objects@.len() as int,
            ),
            final(self).renderer.front() == final(self).renderer.back(),
            out@ == present_output(final(self).renderer.back()),
    {
        self.renderer.clear_back_buffer();
        let n = self.objects.len();
        let ghost width = self.renderer.width as nat;
        let ghost height = self.renderer.height as nat;
        let mut i: usize = 0;
        while i < n
            invariant
                i <= n,
                n == self.objects@.len(),
                self.wf(),
                self.running == old(self).running,
                self.objects == old(self).objects,
                self.updatables == old(self).updatables,
                self.commands == old(self).commands,
                self.event_bus == old(self).event_bus,
                self.previous_keys == old(self).previous_keys,
                self.active_keys == old(self).active_keys,
                self.renderer.width as nat == width,
                self.renderer.height as nat == height,
                self.renderer.front_buffer == old(self).renderer.front_buffer,
                self.renderer.back() == rendered_grid(self.objects@, width, height, i as int),
            decreases n - i,
        {
            let x = self.objects[i].x;
            let y = self.objects[i].y;
            self.renderer.set_char(x, y, &self.objects[i]);
            i += 1;
        }
        let out = self.renderer.present();
        out
    }
}

/// `pos` shifted by `delta`, clamped into `[0, dim - 1]`, executable form.
fn clamp_coordinate(pos: usize, delta: i32, dim: usize) -> (r: usize)
    ensures
        r as int == clamp_axis(pos as int, delta as int, dim as int),
{
    let target: i128 = pos as i128 + delta as i128;
    let hi: i128 = if dim >= 1 {
        dim as i128 - 1
    } else {
        0
    };
    if target < 0 {
        0
    } else if target > hi {
        hi as usize
    } else {
        target as usize
    }
}

/// Advances every object's animation by `delta_ms` milliseconds, at most
/// one frame step each.
fn tick_animations(objects: &mut Vec<GameObject>, delta_ms: i64)
    requires
        delta_ms >= 0,
    ensures
        final(objects)@ == tick_all(old(objects)@, delta_ms as int),
{
    let n = objects.len();
    let mut i: usize = 0;
    while i < n
        invariant
            i <= n,
            delta_ms >= 0,
            n == objects@.len(),
            n == old(objects)@.len(),
            forall|j: int| 0 <= j < i ==> objects@[j] == old(objects)@[j].tick_spec(delta_ms as int),
            forall|j: int| i <= j < n ==> objects@[j] == old(objects)@[j],
        decreases n - i,
    {
        let mut obj = objects.remove(i);
        obj.tick(delta_ms);
        objects.insert(i, obj);
        proof {
            assert(forall|j: int|
                0 <= j < i + 1 ==> objects@[j] == old(objects)@[j].tick_spec(delta_ms as int));
        }
        i += 1;
    }
    proof {
        assert(objects@ =~= tick_all(old(objects)@, delta_ms as int));
    }
}

} // verus!
