use term_cube::cube::{dimmed, rainbow};
use term_cube::terminal_renderer::{surface_size, DrawBuffer, RgbColor, HEIGHT_SCALE};

const BLACK: RgbColor = RgbColor { r: 0, g: 0, b: 0 };
const ORANGE: RgbColor = RgbColor { r: 250, g: 120, b: 10 };

#[test]
fn new_buffer_is_black_and_sized() {
    let buffer = DrawBuffer::new((5, 4));
    assert_eq!((buffer.width, buffer.height), (5, 4));
    assert_eq!(buffer.buffer.len(), 5 * 4 * 3);
    assert!(buffer.buffer.iter().all(|b| *b == 0));
    assert_eq!(buffer.get_color(4, 3), BLACK);
}

#[test]
fn buffer_size_is_three_bytes_per_pixel() {
    assert_eq!(DrawBuffer::get_buffer_size((3, 4)), 36);
    assert_eq!(DrawBuffer::get_buffer_size((0, 9)), 0);
    assert_eq!(DrawBuffer::get_buffer_size((300, 200)), 180_000);
    assert_eq!(DrawBuffer::get_buffer_size((1, 1)), 3);
}

#[test]
fn empty_buffer_takes_no_pixel() {
    let mut buffer = DrawBuffer::new((0, 7));
    buffer.set_color(0, 0, ORANGE);
    assert!(buffer.buffer.is_empty());
    assert_eq!(buffer.get_color(0, 0), BLACK);
}

#[test]
fn set_then_get_returns_the_color() {
    let mut buffer = DrawBuffer::new((4, 3));
    buffer.set_color(2, 1, ORANGE);
    assert_eq!(buffer.get_color(2, 1), ORANGE);
    assert_eq!(buffer.get_color(1, 2), BLACK);
    assert_eq!(buffer.get_color(2, 0), BLACK);
    assert_eq!(buffer.get_color(3, 1), BLACK);
    buffer.set_color(2, 1, RgbColor { r: 1, g: 2, b: 3 });
    assert_eq!(buffer.get_color(2, 1), RgbColor { r: 1, g: 2, b: 3 });
}

#[test]
fn pixels_are_stored_row_by_row() {
    let mut buffer = DrawBuffer::new((4, 3));
    buffer.set_color(2, 1, ORANGE);
    let start = (1 * 4 + 2) * 3;
    assert_eq!(&buffer.buffer[start..start + 3], &[250, 120, 10]);
    let elsewhere = buffer
        .buffer
        .iter()
        .enumerate()
        .filter(|(i, b)| **b != 0 && (*i < start || *i >= start + 3));
    assert_eq!(elsewhere.count(), 0);
    buffer.set_color(3, 2, RgbColor { r: 7, g: 8, b: 9 });
    assert_eq!(&buffer.buffer[33..36], &[7, 8, 9]);
    buffer.set_color(0, 0, RgbColor { r: 4, g: 5, b: 6 });
    assert_eq!(&buffer.buffer[0..3], &[4, 5, 6]);
}

#[test]
fn set_color_outside_is_ignored() {
    let mut buffer = DrawBuffer::new((4, 3));
    buffer.set_color(1, 1, ORANGE);
    let before = buffer.buffer.clone();
    buffer.set_color(4, 0, RgbColor { r: 1, g: 2, b: 3 });
    buffer.set_color(0, 3, RgbColor { r: 1, g: 2, b: 3 });
    buffer.set_color(4, 3, RgbColor { r: 1, g: 2, b: 3 });
    buffer.set_color(u16::MAX, u16::MAX, RgbColor { r: 1, g: 2, b: 3 });
    assert_eq!(buffer.buffer, before);
    assert_eq!((buffer.width, buffer.height), (4, 3));
}

#[test]
fn get_color_outside_is_black() {
    let mut buffer = DrawBuffer::new((2, 2));
    for column in 0..2 {
        for row in 0..2 {
            buffer.set_color(column, row, ORANGE);
        }
    }
    assert_eq!(buffer.get_color(2, 0), BLACK);
    assert_eq!(buffer.get_color(0, 2), BLACK);
    assert_eq!(buffer.get_color(2, 2), BLACK);
    assert_eq!(buffer.get_color(u16::MAX, 1), BLACK);
    assert_eq!(buffer.get_color(1, 1), ORANGE);
}

#[test]
fn clear_paints_everything_black() {
    let mut buffer = DrawBuffer::new((3, 3));
    buffer.set_color(0, 0, ORANGE);
    buffer.set_color(2, 2, ORANGE);
    buffer.clear();
    assert_eq!(buffer.buffer, vec![0u8; 27]);
    assert_eq!((buffer.width, buffer.height), (3, 3));
}

#[test]
fn update_size_keeps_or_resets() {
    let mut buffer = DrawBuffer::new((3, 2));
    buffer.set_color(1, 1, ORANGE);
    buffer.update_size((3, 2));
    assert_eq!(buffer.get_color(1, 1), ORANGE);
    assert_eq!(buffer.buffer.len(), 18);
    buffer.update_size((2, 3));
    assert_eq!((buffer.width, buffer.height), (2, 3));
    assert_eq!(buffer.buffer, vec![0u8; 18]);
    buffer.set_color(1, 2, ORANGE);
    buffer.update_size((5, 4));
    assert_eq!((buffer.width, buffer.height), (5, 4));
    assert_eq!(buffer.buffer, vec![0u8; 60]);
    buffer.update_size((1, 1));
    assert_eq!(buffer.buffer, vec![0u8; 3]);
}

#[test]
fn surface_has_two_pixel_rows_per_line() {
    assert_eq!(HEIGHT_SCALE, 2);
    assert_eq!(surface_size(Some((80, 24))), (80, 48));
    assert_eq!(surface_size(Some((0, 0))), (0, 0));
    assert_eq!(surface_size(Some((65535, 32767))), (65535, 65534));
    assert_eq!(surface_size(None), (1, 2));
}

#[test]
fn cell_shows_upper_and_lower_pixel() {
    let mut buffer = DrawBuffer::new((3, 4));
    buffer.set_color(1, 2, ORANGE);
    buffer.set_color(1, 3, RgbColor { r: 1, g: 2, b: 3 });
    assert_eq!(buffer.cell_colors(1, 1), (ORANGE, RgbColor { r: 1, g: 2, b: 3 }));
    assert_eq!(buffer.cell_colors(1, 0), (BLACK, BLACK));
    assert_eq!(buffer.cell_colors(3, 1), (BLACK, BLACK));
    assert_eq!(buffer.cell_colors(1, 2), (BLACK, BLACK));
}

#[test]
fn palette_has_six_colors_and_cycles() {
    let expected = [
        RgbColor { r: 255, g: 0, b: 0 },
        RgbColor { r: 0, g: 255, b: 0 },
        RgbColor { r: 255, g: 255, b: 0 },
        RgbColor { r: 0, g: 0, b: 255 },
        RgbColor { r: 255, g: 0, b: 255 },
        RgbColor { r: 0, g: 255, b: 255 },
    ];
    for index in 0..18usize {
        assert_eq!(rainbow(index), expected[index % 6]);
    }
    assert_eq!(rainbow(usize::MAX), expected[usize::MAX % 6]);
    assert_eq!(dimmed(expected[2]), RgbColor { r: 127, g: 127, b: 0 });
    assert_eq!(dimmed(RgbColor { r: 1, g: 2, b: 3 }), RgbColor { r: 0, g: 1, b: 1 });
}
