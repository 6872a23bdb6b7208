use cells_renderer::BlankWorld;
use cells_renderer::ElementState;
use cells_renderer::KeyCode;
use cells_renderer::KeyEvent;
use cells_renderer::MouseButton;
use cells_renderer::MouseEvent;
use cells_renderer::PainterDescriptor;
use cells_renderer::PixelPaint;
use cells_renderer::WithPainter;
use cells_renderer::World;
use cells_renderer::WorldImage;
use cells_renderer::painter::brush_cells;
use cells_renderer::painter::grid_cells;
use cells_renderer::painter::line_cells;

const BLACK: [u8; 4] = [0, 0, 0, 255];
const WHITE: [u8; 4] = [255, 255, 255, 255];

fn press(code: KeyCode) -> KeyEvent {
    KeyEvent { state: ElementState::Pressed, code: Some(code) }
}

fn painter() -> WithPainter<BlankWorld, [u8; 4], PixelPaint> {
    let world = BlankWorld { width: 8, height: 8, color: BLACK };
    let desc = PainterDescriptor::default().palette(vec![
        (KeyCode::Digit0, BLACK),
        (KeyCode::Digit1, WHITE),
    ]).paint_fn(Some(PixelPaint));
    WithPainter::new(world, desc)
}

fn count_cells(img: &WorldImage, color: [u8; 4]) -> usize {
    img.buf().chunks(4).filter(|c| *c == &color[..]).count()
}

#[test]
fn line_cells_matches_the_documented_bresenham_example() {
    let line = line_cells((0, 0), (5, 6));
    assert_eq!(line, vec![(0, 0), (0, 1), (1, 2), (2, 3), (3, 4), (4, 5), (5, 6)]);
}

#[test]
fn line_cells_includes_both_endpoints_and_has_no_gaps() {
    let line = line_cells((7, 2), (1, 5));
    assert_eq!(line[0], (7, 2));
    assert_eq!(*line.last().unwrap(), (1, 5));
    for pair in line.windows(2) {
        let dx = (pair[1].0 as i64 - pair[0].0 as i64).abs();
        let dy = (pair[1].1 as i64 - pair[0].1 as i64).abs();
        assert!(dx <= 1 && dy <= 1);
        assert!(dx + dy >= 1);
    }
}

#[test]
fn brush_of_radius_zero_is_one_cell() {
    assert_eq!(brush_cells(3, 4, 0, 8, 8), vec![(3, 4)]);
}

#[test]
fn brush_of_radius_one_is_a_three_by_three_square() {
    let cells = brush_cells(4, 4, 1, 8, 8);
    assert_eq!(cells.len(), 9);
    for (x, y) in &cells {
        assert!(3 <= *x && *x <= 5);
        assert!(3 <= *y && *y <= 5);
    }
}

#[test]
fn brush_is_clipped_at_the_grid_corner() {
    let cells = brush_cells(0, 0, 1, 8, 8);
    let mut sorted = cells.clone();
    sorted.sort();
    assert_eq!(sorted, vec![(0, 0), (0, 1), (1, 0), (1, 1)]);
}

#[test]
fn brush_outside_the_grid_paints_nothing() {
    assert_eq!(brush_cells(20, 20, 1, 8, 8), vec![]);
}

#[test]
fn grid_cells_enumerates_every_cell_once_in_row_major_order() {
    let cells = grid_cells(3, 2);
    assert_eq!(cells, vec![(0, 0), (1, 0), (2, 0), (0, 1), (1, 1), (2, 1)]);
}

#[test]
fn selecting_an_ink_and_painting_one_cell_changes_exactly_that_cell() {
    let mut p = painter();
    let mut img = p.init_image();
    p.keyboard_input(press(KeyCode::Digit1), &mut img);
    p.cursor_moved(Some((2, 1)), &mut img);
    p.mouse_input(
        MouseEvent { state: ElementState::Pressed, button: MouseButton::Left, pos: Some((2, 1)) },
        &mut img,
    );
    assert_eq!(img.get(2, 1), Some(&WHITE[..]));
    assert_eq!(count_cells(&img, WHITE), 1);
    assert_eq!(count_cells(&img, BLACK), 63);
}

#[test]
fn selecting_a_key_without_painting_changes_nothing() {
    let mut p = painter();
    let mut img = p.init_image();
    p.keyboard_input(press(KeyCode::Digit1), &mut img);
    assert_eq!(count_cells(&img, BLACK), 64);
    assert_eq!(p.desc.selected, Some(WHITE));
}

#[test]
fn dragging_paints_a_connected_line() {
    let mut p = painter();
    let mut img = p.init_image();
    p.keyboard_input(press(KeyCode::Digit1), &mut img);
    p.cursor_moved(Some((0, 0)), &mut img);
    p.mouse_input(
        MouseEvent { state: ElementState::Pressed, button: MouseButton::Left, pos: Some((0, 0)) },
        &mut img,
    );
    p.cursor_moved(Some((3, 3)), &mut img);
    for i in 0..4 {
        assert_eq!(img.get(i, i), Some(&WHITE[..]), "diagonal cell {i}");
    }
    assert_eq!(count_cells(&img, WHITE), 4);
}

#[test]
fn releasing_the_button_stops_painting() {
    let mut p = painter();
    let mut img = p.init_image();
    p.keyboard_input(press(KeyCode::Digit1), &mut img);
    p.cursor_moved(Some((0, 0)), &mut img);
    p.mouse_input(
        MouseEvent { state: ElementState::Pressed, button: MouseButton::Left, pos: Some((0, 0)) },
        &mut img,
    );
    p.mouse_input(
        MouseEvent { state: ElementState::Released, button: MouseButton::Left, pos: Some((0, 0)) },
        &mut img,
    );
    p.cursor_moved(Some((5, 5)), &mut img);
    assert_eq!(count_cells(&img, WHITE), 1);
}

#[test]
fn brush_radius_is_clamped_between_zero_and_ten() {
    let mut p = painter();
    let mut img = p.init_image();
    for _ in 0..25 {
        p.keyboard_input(press(KeyCode::ArrowUp), &mut img);
    }
    assert_eq!(p.brush_size, 10);
    for _ in 0..25 {
        p.keyboard_input(press(KeyCode::ArrowDown), &mut img);
    }
    assert_eq!(p.brush_size, 0);
    p.keyboard_input(press(KeyCode::ArrowDown), &mut img);
    assert_eq!(p.brush_size, 0);
}

#[test]
fn radius_one_brush_paints_at_most_nine_cells() {
    let mut p = painter();
    let mut img = p.init_image();
    p.keyboard_input(press(KeyCode::Digit1), &mut img);
    p.keyboard_input(press(KeyCode::ArrowUp), &mut img);
    assert_eq!(p.brush_size, 1);
    p.cursor_moved(Some((4, 4)), &mut img);
    p.mouse_input(
        MouseEvent { state: ElementState::Pressed, button: MouseButton::Left, pos: Some((4, 4)) },
        &mut img,
    );
    assert_eq!(count_cells(&img, WHITE), 9);
    // The same stamp in a corner is clipped.
    let mut p2 = painter();
    let mut img2 = p2.init_image();
    p2.keyboard_input(press(KeyCode::Digit1), &mut img2);
    p2.keyboard_input(press(KeyCode::ArrowUp), &mut img2);
    p2.cursor_moved(Some((0, 0)), &mut img2);
    p2.mouse_input(
        MouseEvent { state: ElementState::Pressed, button: MouseButton::Left, pos: Some((0, 0)) },
        &mut img2,
    );
    assert_eq!(count_cells(&img2, WHITE), 4);
}

#[test]
fn fill_paints_every_cell_with_the_selected_ink() {
    let mut p = painter();
    let mut img = p.init_image();
    p.keyboard_input(press(KeyCode::Digit1), &mut img);
    p.keyboard_input(press(KeyCode::KeyF), &mut img);
    assert_eq!(count_cells(&img, WHITE), 64);
}

#[test]
fn fill_without_a_selected_ink_changes_nothing() {
    let mut p = painter();
    let mut img = p.init_image();
    p.keyboard_input(press(KeyCode::KeyF), &mut img);
    assert_eq!(count_cells(&img, BLACK), 64);
}

#[test]
fn fill_random_draws_every_cell_from_the_palette() {
    let mut p = painter();
    let mut img = p.init_image();
    p.keyboard_input(press(KeyCode::KeyR), &mut img);
    let white = count_cells(&img, WHITE);
    let black = count_cells(&img, BLACK);
    assert_eq!(white + black, 64);
    // With 64 independent draws from two values, seeing only one value
    // is astronomically unlikely.
    assert!(white > 0);
    assert!(black > 0);
}

#[test]
fn painting_disabled_without_a_paint_action() {
    let world = BlankWorld { width: 8, height: 8, color: BLACK };
    let desc: PainterDescriptor<[u8; 4], PixelPaint> = PainterDescriptor::default().palette(vec![
        (KeyCode::Digit1, WHITE),
    ]);
    let mut p = WithPainter::new(world, desc);
    let mut img = p.init_image();
    p.keyboard_input(press(KeyCode::Digit1), &mut img);
    p.keyboard_input(press(KeyCode::KeyF), &mut img);
    p.cursor_moved(Some((0, 0)), &mut img);
    p.mouse_input(
        MouseEvent { state: ElementState::Pressed, button: MouseButton::Left, pos: Some((0, 0)) },
        &mut img,
    );
    assert_eq!(count_cells(&img, BLACK), 64);
    // Bookkeeping still runs: the ink was selected.
    assert_eq!(p.desc.selected, Some(WHITE));
}
