use cells_renderer::WorldImage;

#[test]
fn new_image_is_zeroed() {
    let img = WorldImage::new(3, 2);
    assert_eq!(img.width(), 3);
    assert_eq!(img.height(), 2);
    assert_eq!(img.buf().len(), 3 * 2 * 4);
    assert!(img.buf().iter().all(|&b| b == 0));
}

#[test]
fn filled_image_sets_every_cell() {
    let img = WorldImage::filled(4, 3, [1, 2, 3, 4]);
    assert_eq!(img.buf().len(), 4 * 3 * 4);
    for cell in img.buf().chunks(4) {
        assert_eq!(cell, &[1, 2, 3, 4]);
    }
}

#[test]
fn get_in_and_out_of_range() {
    let img = WorldImage::filled(4, 3, [9, 9, 9, 9]);
    assert_eq!(img.get(0, 0), Some(&[9u8, 9, 9, 9][..]));
    assert_eq!(img.get(3, 2), Some(&[9u8, 9, 9, 9][..]));
    assert_eq!(img.get(4, 0), None);
    assert_eq!(img.get(0, 3), None);
    assert_eq!(img.get(u32::MAX, u32::MAX), None);
}

#[test]
fn set_writes_exactly_one_cell() {
    let mut img = WorldImage::new(4, 4);
    assert!(img.set(2, 1, [10, 20, 30, 40]));
    for y in 0..4 {
        for x in 0..4 {
            let expected: [u8; 4] = if (x, y) == (2, 1) {
                [10, 20, 30, 40]
            } else {
                [0, 0, 0, 0]
            };
            assert_eq!(img.get(x, y), Some(&expected[..]));
        }
    }
}

#[test]
fn set_out_of_range_is_a_no_op() {
    let mut img = WorldImage::filled(2, 2, [5, 5, 5, 5]);
    let before = img.buf().to_vec();
    assert!(!img.set(2, 0, [1, 1, 1, 1]));
    assert!(!img.set(0, 2, [1, 1, 1, 1]));
    assert_eq!(img.buf(), &before[..]);
}

#[test]
fn row_stride_is_width_times_four() {
    let mut img = WorldImage::new(3, 2);
    img.set(1, 1, [7, 7, 7, 7]);
    let off = (1 + 1 * 3) * 4;
    assert_eq!(&img.buf()[off..off + 4], &[7, 7, 7, 7]);
}
