//! Tests for the engine: command application, animation, key-transition
//! publication and the render pass.

use lonely_engine::engine::Engine;
use lonely_engine::engine::EngineCommand;
use lonely_engine::engine::Updatable;
use lonely_engine::event::EngineEvent;
use lonely_engine::event::Listener;
use lonely_engine::game_object::GameObject;
use lonely_engine::input::Key;
use lonely_engine::input::KeySet;
use std::cell::RefCell;
use std::rc::Rc;

struct NoHandler;

impl Updatable for NoHandler {
    fn update(&mut self, _delta_time_ms: i64, _active_keys: &KeySet) -> Vec<EngineCommand> {
        Vec::new()
    }
}

struct NoListener;

impl Listener for NoListener {
    fn notify(&self, _event: &EngineEvent) {}
}

/// Hands out a fixed command batch on its first call, nothing afterwards.
struct OnceHandler {
    pending: Option<Vec<EngineCommand>>,
}

impl Updatable for OnceHandler {
    fn update(&mut self, _delta_time_ms: i64, _active_keys: &KeySet) -> Vec<EngineCommand> {
        self.pending.take().unwrap_or_default()
    }
}

struct EventLog {
    log: Rc<RefCell<Vec<String>>>,
}

impl Listener for EventLog {
    fn notify(&self, event: &EngineEvent) {
        let entry = match event {
            EngineEvent::ObjectSpawned(i) => format!("spawned {}", i),
            EngineEvent::ObjectMoved(i, x, y) => format!("moved {} to {},{}", i, x, y),
            EngineEvent::InputRecieved(_) => "input".to_string(),
            EngineEvent::KeyPressed(k) => format!("pressed {:?}", k),
            EngineEvent::KeyHeld(k) => format!("held {:?}", k),
            EngineEvent::KeyReleased(k) => format!("released {:?}", k),
            EngineEvent::Custom(s) => format!("custom {}", s),
        };
        self.log.borrow_mut().push(entry);
    }
}

fn plain_engine(width: usize, height: usize) -> Engine<NoHandler, NoListener> {
    Engine::new(width, height)
}

#[test]
fn new_engine_is_running_and_empty() {
    let engine = plain_engine(80, 24);
    assert!(engine.is_running());
    assert!(engine.objects.is_empty());
    assert_eq!(engine.renderer.get_width(), 80);
    assert_eq!(engine.renderer.get_height(), 24);
}

#[test]
fn stop_clears_the_running_flag() {
    let mut engine = plain_engine(4, 4);
    engine.stop();
    assert!(!engine.is_running());
}

#[test]
fn add_object_appends_in_order() {
    let mut engine = plain_engine(10, 10);
    engine.add_object(GameObject::new(1, 1, 'a'));
    engine.add_object(GameObject::new(2, 2, 'b'));
    assert_eq!(engine.objects.len(), 2);
    assert_eq!(engine.objects[0].character, 'a');
    assert_eq!(engine.objects[1].character, 'b');
}

#[test]
fn despawn_twice_at_zero_removes_first_two() {
    let mut engine = plain_engine(10, 10);
    engine.add_object(GameObject::new(0, 0, 'a'));
    engine.add_object(GameObject::new(1, 0, 'b'));
    engine.add_object(GameObject::new(2, 0, 'c'));
    engine.apply_commands(vec![
        EngineCommand::DespawnObject(0),
        EngineCommand::DespawnObject(0),
    ]);
    assert_eq!(engine.objects.len(), 1);
    assert_eq!(engine.objects[0].character, 'c', "indices shift as each despawn is applied");
}

#[test]
fn out_of_range_despawn_is_ignored() {
    let mut engine = plain_engine(10, 10);
    engine.add_object(GameObject::new(0, 0, 'a'));
    engine.apply_commands(vec![EngineCommand::DespawnObject(5)]);
    assert_eq!(engine.objects.len(), 1);
}

#[test]
fn move_clamps_at_the_low_edge() {
    let mut engine = plain_engine(8, 6);
    engine.add_object(GameObject::new(0, 3, '@'));
    engine.apply_commands(vec![EngineCommand::MoveObject(0, -5, 0)]);
    assert_eq!(engine.objects[0].x, 0, "never negative");
    assert_eq!(engine.objects[0].y, 3);
}

#[test]
fn move_clamps_at_the_high_edge() {
    let mut engine = plain_engine(8, 6);
    engine.add_object(GameObject::new(7, 0, '@'));
    engine.apply_commands(vec![EngineCommand::MoveObject(0, 5, 5)]);
    assert_eq!(engine.objects[0].x, 7, "stays at the last column");
    assert_eq!(engine.objects[0].y, 5, "clamped to the last row");
}

#[test]
fn move_within_bounds_shifts_both_axes() {
    let mut engine = plain_engine(10, 10);
    engine.add_object(GameObject::new(4, 4, '@'));
    engine.apply_commands(vec![EngineCommand::MoveObject(0, 3, -2)]);
    assert_eq!(engine.objects[0].x, 7);
    assert_eq!(engine.objects[0].y, 2);
}

#[test]
fn move_publishes_clamped_coordinates() {
    let log: Rc<RefCell<Vec<String>>> = Rc::new(RefCell::new(Vec::new()));
    let mut engine: Engine<NoHandler, EventLog> = Engine::new(5, 5);
    engine.event_bus.subscribe(EventLog { log: Rc::clone(&log) });
    engine.add_object(GameObject::new(0, 0, '@'));
    engine.apply_commands(vec![EngineCommand::MoveObject(0, -9, 9)]);
    assert_eq!(*log.borrow(), vec!["moved 0 to 0,4".to_string()]);
}

#[test]
fn out_of_range_move_is_ignored_and_silent() {
    let log: Rc<RefCell<Vec<String>>> = Rc::new(RefCell::new(Vec::new()));
    let mut engine: Engine<NoHandler, EventLog> = Engine::new(5, 5);
    engine.event_bus.subscribe(EventLog { log: Rc::clone(&log) });
    engine.add_object(GameObject::new(1, 1, '@'));
    engine.apply_commands(vec![EngineCommand::MoveObject(3, 1, 1)]);
    assert_eq!(engine.objects[0].x, 1);
    assert!(log.borrow().is_empty());
}

#[test]
fn quit_command_stops_after_the_queue() {
    let mut engine = plain_engine(5, 5);
    engine.apply_commands(vec![
        EngineCommand::Quit,
        EngineCommand::SpawnObject(GameObject::new(0, 0, 's')),
    ]);
    assert!(!engine.is_running(), "quit clears the running flag");
    assert_eq!(engine.objects.len(), 1, "commands after quit are still applied");
}

#[test]
fn handler_commands_are_applied_in_one_frame() {
    let mut engine: Engine<OnceHandler, NoListener> = Engine::new(10, 10);
    engine.add_object(GameObject::new(0, 0, 'a'));
    engine.add_object(GameObject::new(1, 0, 'b'));
    engine.add_object(GameObject::new(2, 0, 'c'));
    engine.add_updatable(OnceHandler {
        pending: Some(vec![
            EngineCommand::DespawnObject(0),
            EngineCommand::DespawnObject(0),
            EngineCommand::SpawnObject(GameObject::new(3, 3, 'd')),
        ]),
    });
    engine.update(0);
    let glyphs: Vec<char> = engine.objects.iter().map(|o| o.character).collect();
    assert_eq!(glyphs, vec!['c', 'd']);
    engine.update(0);
    let glyphs: Vec<char> = engine.objects.iter().map(|o| o.character).collect();
    assert_eq!(glyphs, vec!['c', 'd'], "the queue does not survive its frame");
}

#[test]
fn handlers_run_in_registration_order() {
    let mut engine: Engine<OnceHandler, NoListener> = Engine::new(10, 10);
    engine.add_updatable(OnceHandler {
        pending: Some(vec![EngineCommand::SpawnObject(GameObject::new(0, 0, '1'))]),
    });
    engine.add_updatable(OnceHandler {
        pending: Some(vec![EngineCommand::SpawnObject(GameObject::new(0, 0, '2'))]),
    });
    engine.update(0);
    let glyphs: Vec<char> = engine.objects.iter().map(|o| o.character).collect();
    assert_eq!(glyphs, vec!['1', '2']);
}

#[test]
fn quit_from_handler_stops_the_engine() {
    let mut engine: Engine<OnceHandler, NoListener> = Engine::new(5, 5);
    engine.add_updatable(OnceHandler { pending: Some(vec![EngineCommand::Quit]) });
    assert!(engine.is_running());
    engine.update(16);
    assert!(!engine.is_running());
}

#[test]
fn long_stall_advances_animation_one_frame_only() {
    let mut engine = plain_engine(10, 10);
    let mut torch = GameObject::new(0, 0, '|');
    torch.frames = vec!['|', '/', '-'];
    torch.frame_duration_ms = 100;
    engine.add_object(torch);
    engine.update(10_000);
    assert_eq!(engine.objects[0].current_frame, 1, "one step, not one hundred");
    assert_eq!(engine.objects[0].animation_timer_ms, 0, "the accumulator resets");
    assert_eq!(engine.objects[0].character, '/');
}

#[test]
fn animation_wraps_around_the_sequence() {
    let mut engine = plain_engine(10, 10);
    let mut obj = GameObject::new(0, 0, 'a');
    obj.frames = vec!['a', 'b'];
    obj.frame_duration_ms = 10;
    engine.add_object(obj);
    engine.update(10);
    assert_eq!(engine.objects[0].character, 'b');
    engine.update(10);
    assert_eq!(engine.objects[0].character, 'a');
}

#[test]
fn short_delta_only_accumulates() {
    let mut engine = plain_engine(10, 10);
    let mut obj = GameObject::new(0, 0, 'a');
    obj.frames = vec!['a', 'b'];
    obj.frame_duration_ms = 100;
    engine.add_object(obj);
    engine.update(60);
    assert_eq!(engine.objects[0].current_frame, 0);
    assert_eq!(engine.objects[0].animation_timer_ms, 60);
    engine.update(40);
    assert_eq!(engine.objects[0].current_frame, 1, "the accumulated time crosses the interval");
}

#[test]
fn static_object_never_animates() {
    let mut engine = plain_engine(10, 10);
    engine.add_object(GameObject::new(0, 0, 'x'));
    engine.update(100_000);
    assert_eq!(engine.objects[0].current_frame, 0);
    assert_eq!(engine.objects[0].animation_timer_ms, 0);
    assert_eq!(engine.objects[0].character, 'x');
}

#[test]
fn non_positive_interval_never_advances() {
    let mut engine = plain_engine(10, 10);
    let mut obj = GameObject::new(0, 0, 'a');
    obj.frames = vec!['a', 'b'];
    obj.frame_duration_ms = 0;
    engine.add_object(obj);
    engine.update(10_000);
    assert_eq!(engine.objects[0].current_frame, 0, "a non-positive interval means never advance");
    let mut obj = GameObject::new(0, 0, 'c');
    obj.frames = vec!['c', 'd'];
    obj.frame_duration_ms = -5;
    engine.add_object(obj);
    engine.update(10_000);
    assert_eq!(engine.objects[1].current_frame, 0);
}

#[test]
fn update_publishes_transitions_then_replaces_previous() {
    let log: Rc<RefCell<Vec<String>>> = Rc::new(RefCell::new(Vec::new()));
    let mut engine: Engine<NoHandler, EventLog> = Engine::new(5, 5);
    engine.event_bus.subscribe(EventLog { log: Rc::clone(&log) });
    let mut first = KeySet::new();
    first.insert(Key::Char('a'));
    first.insert(Key::Char('b'));
    engine.process_input(first);
    engine.update(0);
    let mut second = KeySet::new();
    second.insert(Key::Char('b'));
    engine.process_input(second);
    engine.update(0);
    let entries = log.borrow();
    assert_eq!(
        *entries,
        vec![
            "pressed Char('a')".to_string(),
            "pressed Char('b')".to_string(),
            "held Char('b')".to_string(),
            "released Char('a')".to_string(),
        ]
    );
}

#[test]
fn render_draws_objects_last_write_wins() {
    let mut engine = plain_engine(2, 1);
    engine.add_object(GameObject::new(0, 0, 'A'));
    engine.add_object(GameObject::new(0, 0, 'B'));
    let out = engine.render();
    assert_eq!(out, "\x1B[H\x1B[1;1HB\x1B[0m\x1B[1;2H", "the later object wins the cell");
}

#[test]
fn render_skips_objects_outside_the_grid() {
    let mut engine = plain_engine(2, 1);
    engine.add_object(GameObject::new(5, 5, 'Z'));
    let out = engine.render();
    assert_eq!(out, "\x1B[H\x1B[1;1H\x1B[1;2H");
}

#[test]
fn render_reflects_the_current_frame() {
    let mut engine = plain_engine(1, 1);
    let mut obj = GameObject::new(0, 0, 'a');
    obj.frames = vec!['a', 'b'];
    obj.frame_duration_ms = 10;
    engine.add_object(obj);
    engine.update(10);
    let out = engine.render();
    assert_eq!(out, "\x1B[H\x1B[1;1Hb\x1B[0m");
}
