use cells_renderer::AppConfigs;
use cells_renderer::BlankWorld;
use cells_renderer::ElementState;
use cells_renderer::Engine;
use cells_renderer::KeyCode;
use cells_renderer::KeyEvent;
use cells_renderer::MouseButton;

const GRAY: [u8; 4] = [128, 128, 128, 255];

fn engine() -> Engine<BlankWorld> {
    let configs: AppConfigs<()> = AppConfigs::new().updates_per_second(100);
    let world = BlankWorld { width: 32, height: 32, color: GRAY };
    Engine::new(configs, world, 800, 600, 0)
}

fn press(code: KeyCode) -> KeyEvent {
    KeyEvent { state: ElementState::Pressed, code: Some(code) }
}

#[test]
fn the_initial_image_comes_from_the_world() {
    let e = engine();
    assert_eq!(e.image.width(), 32);
    assert_eq!(e.image.height(), 32);
    assert_eq!(e.image.get(0, 0), Some(&GRAY[..]));
    assert!(!e.scheduler.paused);
    assert!(!e.grid_enabled);
    assert_eq!(e.grid_vertices.len(), 4 * (32 + 32 + 2));
}

#[test]
fn polling_before_the_interval_changes_nothing() {
    let mut e = engine();
    e.update(5_000_000);
    assert!(!e.should_update_texture);
    assert_eq!(e.scheduler.last_update, 0);
    e.update(10_000_000);
    assert!(e.should_update_texture);
    assert_eq!(e.scheduler.last_update, 10_000_000);
}

#[test]
fn pausing_stops_ticks_but_not_the_timer() {
    let mut e = engine();
    e.keyboard_input(press(KeyCode::Space));
    assert!(e.scheduler.paused);
    e.should_update_texture = false;
    e.update(20_000_000);
    // The timer fired and the schedule advanced, but no step ran.
    assert_eq!(e.scheduler.last_update, 10_000_000);
    assert!(!e.should_update_texture);
    // Space again resumes.
    e.keyboard_input(press(KeyCode::Space));
    assert!(!e.scheduler.paused);
}

#[test]
fn single_step_works_only_while_paused() {
    let mut e = engine();
    e.should_update_texture = false;
    e.keyboard_input(press(KeyCode::Space));
    e.should_update_texture = false;
    e.keyboard_input(press(KeyCode::Enter));
    assert!(e.should_update_texture);
    // The timer was not consulted.
    assert_eq!(e.scheduler.last_update, 0);
}

#[test]
fn the_grid_key_toggles_the_overlay() {
    let mut e = engine();
    assert!(!e.grid_enabled);
    e.keyboard_input(press(KeyCode::KeyG));
    assert!(e.grid_enabled);
    e.keyboard_input(press(KeyCode::KeyG));
    assert!(!e.grid_enabled);
}

#[test]
fn the_cursor_is_mapped_through_the_letterbox_transform() {
    let mut e = engine();
    e.cursor_moved(400, 300);
    assert_eq!(e.cursor_cell, Some((16, 16)));
    e.cursor_moved(10, 300);
    assert_eq!(e.cursor_cell, None);
}

#[test]
fn mouse_events_carry_the_cursor_cell() {
    let mut e = engine();
    e.cursor_moved(400, 300);
    e.mouse_input(ElementState::Pressed, MouseButton::Left);
    // BlankWorld ignores the event; the engine still records the redraw.
    assert!(e.should_update_texture);
    assert_eq!(e.cursor_cell, Some((16, 16)));
}

#[test]
fn resize_recomputes_transform_and_overlay_together() {
    let mut e = engine();
    e.resize(640, 480);
    assert_eq!(e.window_size, (640, 480));
    assert_eq!(e.transform.window_width(), 640);
    assert_eq!(e.transform.window_height(), 480);
    // The border bars still straddle the new viewport edges exactly.
    let half = (e.transform.den() / 2) as i128;
    let x0 = e.transform.x0_num() as i128;
    let y1 = e.transform.y1_num() as i128;
    assert_eq!(e.grid_vertices[0].x_num, x0 - half);
    assert_eq!(e.grid_vertices[1].x_num, x0 + half);
    assert_eq!(e.grid_vertices[12].y_num, y1 - half);
    // The center of the new window still maps to the grid's center.
    e.cursor_moved(320, 240);
    assert_eq!(e.cursor_cell, Some((16, 16)));
}

#[test]
fn resize_to_zero_keeps_the_last_good_transform() {
    let mut e = engine();
    e.resize(0, 300);
    assert_eq!(e.window_size, (0, 300));
    assert_eq!(e.transform.window_width(), 800);
    assert_eq!(e.transform.window_height(), 600);
}
