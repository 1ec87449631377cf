use verostat::layout::{
    core_cell_origin, dashboard_position, hud_origin, hud_resize, hud_width, initial_hud_width,
    inspector_height, inspector_needs_resize, inspector_position, summary_card_origin, text_line_rect,
};

fn reference_width(cx: i32) -> i32 {
    let min_width = cx + 40;
    let aligned_width = ((min_width + 15) / 16) * 16;
    aligned_width.max(220)
}

#[test]
fn hud_width_matches_reference() {
    for cx in -200..2000 {
        assert_eq!(hud_width(cx), reference_width(cx), "cx {}", cx);
    }
    assert_eq!(initial_hud_width(None), 380);
    assert_eq!(initial_hud_width(Some(300)), 352);
}

#[test]
fn hud_positions() {
    assert_eq!(hud_origin(1920, 380), (770, 12));
    assert_eq!(hud_origin(100, 381), (-140, 12));
    assert_eq!(hud_resize(100, 300, 300, 1920), None);
    assert_eq!(hud_resize(100, 325, 300, 1920), Some(100));
    assert_eq!(hud_resize(100, 324, 300, 1920), None);
    assert_eq!(hud_resize(1800, 200, 300, 1920), Some(1620));
    assert_eq!(hud_resize(10, 200, 3000, 1920), Some(0));
}

#[test]
fn window_positions() {
    assert_eq!(dashboard_position(1920, 1040), (1628, 558));
    assert_eq!(inspector_position(0, 0, 1920, 1040, 460, 400), (1444, 624));
    assert_eq!(inspector_position(0, 0, 300, 300, 460, 780), (0, 0));
    assert_eq!(text_line_rect(16, 40, false), (16, 40, 256, 65));
    assert_eq!(text_line_rect(264, 40, true), (84, 40, 264, 65));
}

#[test]
fn inspector_sizes() {
    assert_eq!(inspector_height(1, 1), 400);
    assert_eq!(inspector_height(8, 16), 591);
    assert_eq!(inspector_height(64, 8), 780);
    for c in 0..200usize {
        let rows = ((c + 1) / 2) as i32;
        assert_eq!(inspector_height(c, 0), (180 + rows * 42 + 75).clamp(400, 780));
    }
    assert!(inspector_needs_resize(400, 411));
    assert!(!inspector_needs_resize(400, 410));
    assert_eq!(summary_card_origin(2, 16, 80, 428), (16 + 2 * (101 + 8), 80));
    assert_eq!(core_cell_origin(5, 16, 200, 209), (16 + 219, 200 + 2 * 38));
}

#[test]
fn hud_resize_settles_and_stays_on_screen() {
    for &(left, cur, desired, screen) in &[(0, 220, 300, 1920), (1800, 250, 400, 1920), (50, 900, 320, 1024), (700, 240, 240, 800)] {
        if let Some(x) = hud_resize(left, cur, desired, screen) {
            assert!(x + desired <= screen);
            assert_eq!(hud_resize(x, desired, desired, screen), None);
        } else {
            assert!(desired <= cur && cur <= desired + 24);
        }
    }
    for cx in [-100, 0, 1, 179, 180, 181, 500] {
        let w = hud_width(cx);
        assert!(w >= cx + 40 && (w < cx + 56 || w == 220));
    }
}
