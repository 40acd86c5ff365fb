//! Tests for the double-buffered renderer: cell writes, clearing,
//! out-of-range handling and the presented terminal output.

use lonely_engine::game_object::GameObject;
use lonely_engine::renderer::Renderer;

#[test]
fn new_renderer_reports_dimensions() {
    let r = Renderer::new(80, 24);
    assert_eq!(r.get_width(), 80);
    assert_eq!(r.get_height(), 24);
}

#[test]
fn blank_grid_presents_positions_only() {
    let mut r = Renderer::new(2, 1);
    let out = r.present();
    assert_eq!(out, "\x1B[H\x1B[1;1H\x1B[1;2H");
}

#[test]
fn set_char_places_composed_cell() {
    let mut r = Renderer::new(2, 2);
    let obj = GameObject::new(1, 0, '@');
    r.set_char(1, 0, &obj);
    let out = r.present();
    assert_eq!(out, "\x1B[H\x1B[1;1H\x1B[1;2H@\x1B[0m\x1B[2;1H\x1B[2;2H");
}

#[test]
fn set_char_applies_colors_and_reset() {
    let mut r = Renderer::new(1, 1);
    let mut obj = GameObject::new(0, 0, '*');
    obj.fg_color = Some("\x1B[31m".to_string());
    obj.bg_color = Some("\x1B[44m".to_string());
    r.set_char(0, 0, &obj);
    let out = r.present();
    assert_eq!(out, "\x1B[H\x1B[1;1H\x1B[31m\x1B[44m*\x1B[0m");
}

#[test]
fn out_of_range_set_char_changes_nothing() {
    let mut r = Renderer::new(2, 2);
    let obj = GameObject::new(0, 0, 'A');
    r.set_char(0, 0, &obj);
    let before = r.present();
    let stray = GameObject::new(9, 9, 'Z');
    r.set_char(2, 0, &stray);
    r.set_char(0, 2, &stray);
    r.set_char(usize::MAX, usize::MAX, &stray);
    let after = r.present();
    assert_eq!(before, after, "no in-bounds cell may change");
    assert!(!after.contains('Z'));
}

#[test]
fn later_write_overwrites_same_cell() {
    let mut r = Renderer::new(1, 1);
    let first = GameObject::new(0, 0, 'A');
    let second = GameObject::new(0, 0, 'B');
    r.set_char(0, 0, &first);
    r.set_char(0, 0, &second);
    let out = r.present();
    assert_eq!(out, "\x1B[H\x1B[1;1HB\x1B[0m");
}

#[test]
fn clear_back_buffer_blanks_all_cells() {
    let mut r = Renderer::new(3, 2);
    let obj = GameObject::new(1, 1, '#');
    r.set_char(1, 1, &obj);
    r.clear_back_buffer();
    let out = r.present();
    assert_eq!(out, Renderer::new(3, 2).present());
}

#[test]
fn unchanged_frame_presents_identical_output() {
    let mut r = Renderer::new(4, 3);
    let obj = GameObject::new(2, 1, 'x');
    r.set_char(2, 1, &obj);
    let first = r.present();
    let second = r.present();
    assert_eq!(first, second, "a frame with no new writes re-emits the same text");
}

#[test]
fn wide_grid_positions_use_decimal_coordinates() {
    let mut r = Renderer::new(12, 1);
    let obj = GameObject::new(11, 0, 'e');
    r.set_char(11, 0, &obj);
    let out = r.present();
    assert!(out.ends_with("\x1B[1;12He\x1B[0m"));
}
