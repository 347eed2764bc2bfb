use prayer::render::{buffer_len, pack_rgb8, pixel_coords};
use prayer::style::Button;

#[test]
fn pixel_coords_walk_row_major() {
    assert_eq!(pixel_coords(0, 3, 4), (0, 0));
    assert_eq!(pixel_coords(2, 3, 4), (2, 0));
    assert_eq!(pixel_coords(3, 3, 4), (0, 1));
    assert_eq!(pixel_coords(7, 3, 4), (1, 2));
    assert_eq!(pixel_coords(11, 3, 4), (2, 3));
}

#[test]
fn pixel_coords_of_single_column() {
    assert_eq!(pixel_coords(5, 1, 6), (0, 5));
}

#[test]
fn pack_keeps_channel_order() {
    let pixels = vec![(1u8, 2u8, 3u8), (4u8, 5u8, 6u8)];
    assert_eq!(pack_rgb8(&pixels), vec![1, 2, 3, 4, 5, 6]);
}

#[test]
fn pack_of_nothing_is_empty() {
    let pixels: Vec<(u8, u8, u8)> = Vec::new();
    assert_eq!(pack_rgb8(&pixels), Vec::<u8>::new());
}

#[test]
fn pack_of_uniform_pixels_repeats_the_color() {
    let pixels = vec![(10u8, 20u8, 30u8); 4];
    let buf = pack_rgb8(&pixels);
    assert_eq!(buf.len(), 12);
    for (j, b) in buf.iter().enumerate() {
        let expected = match j % 3 {
            0 => 10,
            1 => 20,
            _ => 30,
        };
        assert_eq!(*b, expected);
    }
}

#[test]
fn buffer_len_matches_resolution() {
    assert_eq!(buffer_len(2, 2), Some(12));
    assert_eq!(buffer_len(640, 480), Some(3 * 640 * 480));
    assert_eq!(buffer_len(0, 480), Some(0));
}

#[test]
fn buffer_len_refuses_an_image_beyond_the_address_space() {
    assert_eq!(buffer_len(u32::MAX, u32::MAX), None);
}

#[test]
fn button_roles_are_distinct() {
    assert_eq!(Button::Primary, Button::Primary);
    assert_ne!(Button::Primary, Button::Secondary);
    assert_ne!(Button::Secondary, Button::Destructive);
}
