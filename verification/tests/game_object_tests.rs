//! Tests for game objects: construction defaults and the animation step.

use lonely_engine::game_object::GameObject;

#[test]
fn new_object_has_documented_defaults() {
    let obj = GameObject::new(5, 10, '@');
    assert_eq!(obj.x, 5);
    assert_eq!(obj.y, 10);
    assert_eq!(obj.character, '@');
    assert_eq!(obj.tag, "");
    assert_eq!(obj.frames, vec!['@']);
    assert_eq!(obj.current_frame, 0);
    assert_eq!(obj.frame_duration_ms, 100);
    assert_eq!(obj.animation_timer_ms, 0);
    assert!(obj.fg_color.is_none());
    assert!(obj.bg_color.is_none());
}

#[test]
fn tick_advances_at_most_one_frame() {
    let mut obj = GameObject::new(0, 0, 'a');
    obj.frames = vec!['a', 'b', 'c'];
    obj.frame_duration_ms = 100;
    obj.tick(10_000);
    assert_eq!(obj.current_frame, 1);
    assert_eq!(obj.character, 'b');
    assert_eq!(obj.animation_timer_ms, 0);
}

#[test]
fn tick_below_interval_only_accumulates() {
    let mut obj = GameObject::new(0, 0, 'a');
    obj.frames = vec!['a', 'b'];
    obj.frame_duration_ms = 100;
    obj.tick(30);
    obj.tick(30);
    assert_eq!(obj.current_frame, 0);
    assert_eq!(obj.character, 'a');
    assert_eq!(obj.animation_timer_ms, 60);
}

#[test]
fn tick_leaves_static_objects_alone() {
    let mut obj = GameObject::new(0, 0, 'a');
    obj.tick(1_000_000);
    assert_eq!(obj.animation_timer_ms, 0);
    assert_eq!(obj.current_frame, 0);
}
