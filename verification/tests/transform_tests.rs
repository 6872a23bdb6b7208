use cells_renderer::WorldTransform;

#[test]
fn window_center_maps_to_grid_center() {
    // Grid 32x32 in a 800x600 window: the window is wider than the grid,
    // so the viewport spans the height, centered horizontally.
    let t = WorldTransform::new(800, 600, 32, 32);
    assert_eq!(t.map(400, 300), Some((16, 16)));
}

#[test]
fn viewport_is_centered_with_margin() {
    let t = WorldTransform::new(800, 600, 32, 32);
    let den = t.den() as u128;
    // den = 2000 * 32, scale = 999 * 600 / (1000 * 32) pixels per cell.
    assert_eq!(t.den(), 64_000);
    assert_eq!(t.scale_num(), 1998 * 600);
    // Left margin just over 100 px: x0 = 6_419_200 / 64_000 = 100.3.
    assert_eq!(t.x0_num(), 6_419_200);
    assert_eq!(t.x0_num() / den, 100);
    // Top margin: y0 = 600 / 2000 px, under a pixel.
    assert_eq!(t.y0_num() / den, 0);
    // The viewport spans about 599.4 px of the 600 px height.
    let span = (t.y1_num() - t.y0_num()) / den;
    assert_eq!(span, 599);
    // Symmetric: x1 mirrors x0.
    assert_eq!(t.x1_num(), 800 * den - t.x0_num());
}

#[test]
fn pixels_in_the_margin_map_to_none() {
    let t = WorldTransform::new(800, 600, 32, 32);
    // x0 is 100.3 px: pixel column 100 is still outside, 101 is inside.
    assert_eq!(t.map(100, 300), None);
    assert_eq!(t.map(101, 300), Some((0, 16)));
    // Beyond the right edge of the viewport.
    assert_eq!(t.map(700, 300), None);
    assert_eq!(t.map(699, 300), Some((31, 16)));
}

#[test]
fn negative_positions_map_to_none() {
    let t = WorldTransform::new(800, 600, 32, 32);
    assert_eq!(t.map(-1, 300), None);
    assert_eq!(t.map(400, -7), None);
}

#[test]
fn tall_window_letterboxes_vertically() {
    // The same sizes turned sideways: the viewport spans the width.
    let t = WorldTransform::new(600, 800, 32, 32);
    assert_eq!(t.map(300, 400), Some((16, 16)));
    assert_eq!(t.map(300, 100), None);
    assert_eq!(t.map(300, 101), Some((16, 0)));
}

#[test]
fn every_mapped_cell_is_in_range() {
    let t = WorldTransform::new(233, 147, 7, 5);
    for px in 0..233i64 {
        for py in 0..147i64 {
            if let Some((cx, cy)) = t.map(px, py) {
                assert!(cx < 7);
                assert!(cy < 5);
            }
        }
    }
}

#[test]
fn one_by_one_grid_maps_all_inside_pixels_to_origin() {
    let t = WorldTransform::new(10, 10, 1, 1);
    for px in 0..10i64 {
        for py in 0..10i64 {
            let m = t.map(px, py);
            assert!(m == None || m == Some((0, 0)));
        }
    }
    assert_eq!(t.map(5, 5), Some((0, 0)));
}
