use verostat::icon::{draw_digit, stat_icon_pixels};

const DIGITS_5X7: [[u8; 7]; 10] = [
    [0b01110, 0b10001, 0b10011, 0b10101, 0b11001, 0b10001, 0b01110],
    [0b00100, 0b01100, 0b00100, 0b00100, 0b00100, 0b00100, 0b01110],
    [0b01110, 0b10001, 0b00001, 0b00010, 0b00100, 0b01000, 0b11111],
    [0b11111, 0b00010, 0b00100, 0b00010, 0b00001, 0b10001, 0b01110],
    [0b00010, 0b00110, 0b01010, 0b10010, 0b11111, 0b00010, 0b00010],
    [0b11111, 0b10000, 0b11110, 0b00001, 0b00001, 0b10001, 0b01110],
    [0b00110, 0b01000, 0b10000, 0b11110, 0b10001, 0b10001, 0b01110],
    [0b11111, 0b00001, 0b00010, 0b00100, 0b01000, 0b01000, 0b01000],
    [0b01110, 0b10001, 0b10001, 0b01110, 0b10001, 0b10001, 0b01110],
    [0b01110, 0b10001, 0b10001, 0b01111, 0b00001, 0b00010, 0b01100],
];

fn reference_digit(rgba: &mut [u8], canvas_w: u32, offset_x: u32, offset_y: u32, digit: usize, r: u8, g: u8, b: u8) {
    let pattern = DIGITS_5X7[digit % 10];
    for (row_idx, &row_bits) in pattern.iter().enumerate() {
        for col_idx in 0..5u32 {
            if (row_bits & (1 << (4 - col_idx))) != 0 {
                for dy in 0..2 {
                    for dx in 0..2 {
                        let px = offset_x + (col_idx * 2) + dx;
                        let py = offset_y + (row_idx as u32 * 2) + dy;
                        let idx = ((py * canvas_w + px) * 4) as usize;
                        if idx + 3 < rgba.len() {
                            rgba[idx] = r;
                            rgba[idx + 1] = g;
                            rgba[idx + 2] = b;
                            rgba[idx + 3] = 255;
                        }
                    }
                }
            }
        }
    }
}

fn reference_icon(value: u32) -> Vec<u8> {
    let width = 32u32;
    let height = 32u32;
    let mut rgba = vec![0u8; (width * height * 4) as usize];
    let clamped = value.min(99);
    let d1 = (clamped / 10) as usize;
    let d2 = (clamped % 10) as usize;
    let (fg_r, fg_g, fg_b) = if clamped >= 85 {
        (239, 68, 68)
    } else if clamped >= 70 {
        (245, 158, 11)
    } else {
        (56, 189, 248)
    };
    for y in 0..height {
        for x in 0..width {
            let cx = x as f32 - 15.5;
            let cy = y as f32 - 15.5;
            let dist = (cx * cx + cy * cy).sqrt();
            let idx = ((y * width + x) * 4) as usize;
            if dist <= 14.5 {
                rgba[idx] = 24;
                rgba[idx + 1] = 24;
                rgba[idx + 2] = 27;
                rgba[idx + 3] = 240;
                if dist >= 13.0 {
                    rgba[idx] = 39;
                    rgba[idx + 1] = 39;
                    rgba[idx + 2] = 42;
                    rgba[idx + 3] = 255;
                }
            }
        }
    }
    reference_digit(&mut rgba, width, 5, 9, d1, fg_r, fg_g, fg_b);
    reference_digit(&mut rgba, width, 17, 9, d2, fg_r, fg_g, fg_b);
    rgba
}

#[test]
fn stat_icon_matches_reference_rasterisation() {
    for v in (0..=130u32).chain([999, 9999, u32::MAX]) {
        assert_eq!(stat_icon_pixels(v), reference_icon(v), "value {}", v);
    }
}

#[test]
fn stat_icon_saturates_and_colours() {
    assert_eq!(stat_icon_pixels(99), stat_icon_pixels(100));
    assert_eq!(stat_icon_pixels(99), stat_icon_pixels(u32::MAX));
    let px = stat_icon_pixels(85);
    // a lit pixel of the tens digit '8': row 0, column 1 at (5 + 2, 9)
    let i = ((9 * 32 + 7) * 4) as usize;
    assert_eq!(&px[i..i + 4], &[239, 68, 68, 255]);
    let px = stat_icon_pixels(70);
    assert_eq!(&px[i..i + 4], &[245, 158, 11, 255]);
    // corners are transparent
    assert_eq!(&px[0..4], &[0, 0, 0, 0]);
    assert_eq!(px.len(), 4096);
}

#[test]
fn draw_digit_on_other_canvases() {
    for w in [10u32, 12, 16, 40] {
        for (ox, oy) in [(0u32, 0u32), (w - 10, 1), (0, 5)] {
            for d in [0usize, 3, 7, 10, 18] {
                for len in [0usize, 3, 100, (w * 20 * 4) as usize, (w * 20 * 4 + 2) as usize] {
                    let mut a: Vec<u8> = (0..len).map(|i| (i % 251) as u8).collect();
                    let mut b = a.clone();
                    draw_digit(&mut a, w, ox, oy, d, 1, 2, 3);
                    reference_digit(&mut b, w, ox, oy, d, 1, 2, 3);
                    assert_eq!(a, b, "w {} ox {} oy {} d {} len {}", w, ox, oy, d, len);
                }
            }
        }
    }
}

#[test]
fn draw_digit_wraps_past_right_edge() {
    for w in [0u32, 1, 4, 8, 9] {
        for (ox, oy) in [(0u32, 0u32), (3, 2), (w + 1, 0)] {
            for d in [1usize, 4, 8] {
                let len = ((w + 1) * 20 * 4 + 40) as usize;
                let mut a: Vec<u8> = (0..len).map(|i| (i % 7) as u8).collect();
                let mut b = a.clone();
                draw_digit(&mut a, w, ox, oy, d, 9, 8, 7);
                reference_digit(&mut b, w, ox, oy, d, 9, 8, 7);
                assert_eq!(a, b, "w {} ox {} oy {} d {}", w, ox, oy, d);
            }
        }
    }
}
