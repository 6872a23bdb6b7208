use cells_renderer::WorldTransform;
use cells_renderer::overlay::grid_indices;
use cells_renderer::overlay::grid_indices_range;
use cells_renderer::overlay::grid_line_vertices;

#[test]
fn overlay_has_four_vertices_per_bar() {
    let t = WorldTransform::new(800, 600, 32, 32);
    let vs = grid_line_vertices(&t);
    assert_eq!(vs.len(), 4 * (32 + 32 + 2));
}

#[test]
fn border_bars_straddle_the_viewport_edges() {
    let t = WorldTransform::new(800, 600, 32, 32);
    let vs = grid_line_vertices(&t);
    let half = (t.den() / 2) as i128;
    let x0 = t.x0_num() as i128;
    let x1 = t.x1_num() as i128;
    let y0 = t.y0_num() as i128;
    let y1 = t.y1_num() as i128;
    // Bar 0: the left border, half a pixel to each side of x0, spanning
    // the viewport's height.
    assert_eq!(vs[0].x_num, x0 - half);
    assert_eq!(vs[0].y_num, y0);
    assert_eq!(vs[1].x_num, x0 + half);
    assert_eq!(vs[3].y_num, y1);
    // Bar 1: the right border on x1.
    assert_eq!(vs[4].x_num, x1 - half);
    assert_eq!(vs[5].x_num, x1 + half);
    // Bar 2: the top border on y0.
    assert_eq!(vs[8].x_num, x0);
    assert_eq!(vs[8].y_num, y0 - half);
    assert_eq!(vs[10].y_num, y0 + half);
    // Bar 3: the bottom border on y1.
    assert_eq!(vs[12].y_num, y1 - half);
    assert_eq!(vs[14].y_num, y1 + half);
}

#[test]
fn border_bars_are_major_interior_bars_minor() {
    let t = WorldTransform::new(800, 600, 8, 4);
    let vs = grid_line_vertices(&t);
    for (i, v) in vs.iter().enumerate() {
        assert_eq!(v.major, i < 16);
    }
}

#[test]
fn interior_bars_sit_on_cell_boundaries() {
    let t = WorldTransform::new(800, 600, 8, 4);
    let vs = grid_line_vertices(&t);
    let half = (t.den() / 2) as i128;
    let s = t.scale_num() as i128;
    let x0 = t.x0_num() as i128;
    // First interior vertical line is bar 4, at one cell from the left.
    assert_eq!(vs[16].x_num, x0 + s - half);
    assert_eq!(vs[17].x_num, x0 + s + half);
    // Interior horizontal lines follow the verticals: bar 8 + 3 - 1 = the
    // first of them, one cell below the top.
    let y0 = t.y0_num() as i128;
    let first_horizontal = (8 - 1 + 3 + 1) * 4;
    assert_eq!(vs[first_horizontal].y_num, y0 + s - half);
}

#[test]
fn index_pattern_is_two_triangles_per_bar() {
    let idx = grid_indices(3, 2);
    assert_eq!(idx.len(), 6 * (3 + 2 + 2));
    for b in 0..(3 + 2 + 2) as u32 {
        let i = 6 * b as usize;
        let v = 4 * b;
        assert_eq!(&idx[i..i + 6], &[v, v + 1, v + 2, v + 2, v + 1, v + 3]);
    }
}

#[test]
fn disabled_overlay_draws_only_the_borders() {
    assert_eq!(grid_indices_range(408, true), (0, 408));
    assert_eq!(grid_indices_range(408, false), (0, 24));
}
