use vstd::prelude::*;

verus! {

/// `a / b` rounded toward zero, as Rust's integer division does.
pub open spec fn div_trunc(a: int, b: int) -> int {
    if a >= 0 {
        a / b
    } else {
        -((-a) / b)
    }
}

/// HUD window width for a text `text_cx` pixels wide: 40 px of padding, rounded
/// up to a multiple of 16 to avoid jitter, at least 220.
pub open spec fn hud_width_for(text_cx: int) -> int {
    let aligned = div_trunc(text_cx + 40 + 15, 16) * 16;
    if aligned < 220 {
        220
    } else {
        aligned
    }
}

/// The HUD window width for a measured text extent.
pub fn hud_width(text_cx: i32) -> (w: i32)
    requires
        text_cx + 55 <= i32::MAX,
    ensures
        w == hud_width_for(text_cx as int),
        w >= 220,
        w % 16 == 0 || w == 220,
        w >= text_cx + 40,
        w < text_cx + 56 || w == 220,
{
    if text_cx < -55 {
        assert(div_trunc(text_cx + 55, 16) <= 0);
        return 220;
    }
    let min_width = text_cx + 40;
    let aligned = ((min_width + 15) / 16) * 16;
    if aligned < 220 {
        220
    } else {
        aligned
    }
}

/// The HUD's width when it is created: from the measured text when a screen
/// device context was available, else 380.
pub fn initial_hud_width(measured_text_cx: Option<i32>) -> (w: i32)
    requires
        measured_text_cx matches Some(cx) ==> cx + 55 <= i32::MAX,
    ensures
        w == match measured_text_cx {
            Some(cx) => hud_width_for(cx as int),
            None => 380,
        },
{
    match measured_text_cx {
        Some(cx) => hud_width(cx),
        None => 380,
    }
}

/// Where the HUD first appears: centred horizontally, 12 px from the top.
pub fn hud_origin(screen_w: i32, width: i32) -> (o: (i32, i32))
    requires
        i32::MIN <= screen_w - width <= i32::MAX,
    ensures
        o == (div_trunc(screen_w - width, 2) as i32, 12i32),
{
    ((screen_w - width) / 2, 12)
}

/// After a metrics update: the HUD is resized when it is narrower than needed or
/// more than 24 px wider; when growing past the screen's right edge it moves left
/// (but not past 0). Returns the new left edge, or `None` to leave the window as is.
pub open spec fn hud_resize_target(left: int, current_width: int, desired_width: int, screen_w: int) -> Option<int> {
    if current_width < desired_width || current_width - desired_width > 24 {
        if left + desired_width > screen_w {
            Some(if screen_w - desired_width > 0 { screen_w - desired_width } else { 0 })
        } else {
            Some(left)
        }
    } else {
        None
    }
}

/// The HUD's new left edge when it must be resized to `desired_width`, if at all.
pub fn hud_resize(left: i32, current_width: i32, desired_width: i32, screen_w: i32) -> (x: Option<i32>)
    requires
        current_width >= desired_width ==> current_width - desired_width <= i32::MAX,
        i32::MIN <= left + desired_width <= i32::MAX,
        i32::MIN <= screen_w - desired_width <= i32::MAX,
    ensures
        x == match hud_resize_target(left as int, current_width as int, desired_width as int, screen_w as int) {
            Some(v) => Some(v as i32),
            None => None::<i32>,
        },
{
    if current_width < desired_width || (current_width - desired_width) > 24 {
        let mut cur_x = left;
        if cur_x + desired_width > screen_w {
            let d = screen_w - desired_width;
            cur_x = if d > 0 { d } else { 0 };
        }
        Some(cur_x)
    } else {
        None
    }
}

/// A HUD resized to the width it needs asks for no further resize; a HUD left as
/// it is shows its text unclipped and is at most 24 px wider than needed; and a
/// resized HUD that fits on the screen ends left of the screen's right edge.
pub proof fn law_hud_resize(left: int, current_width: int, desired_width: int, screen_w: int)
    ensures
        hud_resize_target(left, desired_width, desired_width, screen_w) is None,
        hud_resize_target(left, current_width, desired_width, screen_w) is None ==> desired_width
            <= current_width <= desired_width + 24,
        desired_width <= screen_w ==> match hud_resize_target(left, current_width, desired_width, screen_w) {
            Some(x) => x + desired_width <= screen_w,
            None => true,
        },
{
}

/// The HUD is resized exactly when it is narrower than its text needs or more than
/// 24 px wider. A resized HUD keeps its left edge when the new width still fits left
/// of the screen's right edge; otherwise it moves left until its right edge meets
/// the screen's (stopping at 0), and never moves right of where it was.
pub proof fn law_hud_resize_keeps_left_edge(left: int, current_width: int, desired_width: int, screen_w: int)
    ensures
        hud_resize_target(left, current_width, desired_width, screen_w) is Some <==> (current_width
            < desired_width || current_width > desired_width + 24),
        hud_resize_target(left, current_width, desired_width, screen_w) is Some && left + desired_width
            <= screen_w ==> hud_resize_target(left, current_width, desired_width, screen_w) == Some(left),
        hud_resize_target(left, current_width, desired_width, screen_w) is Some && left + desired_width
            > screen_w && desired_width <= screen_w ==> hud_resize_target(
            left,
            current_width,
            desired_width,
            screen_w,
        ) == Some(screen_w - desired_width),
        hud_resize_target(left, current_width, desired_width, screen_w) is Some && left + desired_width
            > screen_w && desired_width > screen_w ==> hud_resize_target(left, current_width, desired_width, screen_w) == Some(0int),
        match hud_resize_target(left, current_width, desired_width, screen_w) {
            Some(x) => x <= left || x == 0,
            None => true,
        },
{
}

/// Dashboard width.
pub open spec fn dashboard_width() -> int {
    280
}

/// Dashboard height.
pub open spec fn dashboard_height() -> int {
    470
}

/// The dashboard's top-left corner: docked 12 px inside the bottom-right corner of
/// the work area (above the tray).
pub fn dashboard_position(work_right: i32, work_bottom: i32) -> (p: (i32, i32))
    requires
        work_right - 292 >= i32::MIN,
        work_bottom - 482 >= i32::MIN,
    ensures
        p.0 == work_right - dashboard_width() - 12,
        p.1 == work_bottom - dashboard_height() - 12,
{
    (work_right - 280 - 12, work_bottom - 470 - 12)
}

/// The core inspector's top-left corner: 16 px inside the bottom-right corner of
/// the work area, but never left of or above the work area.
pub fn inspector_position(work_left: i32, work_top: i32, work_right: i32, work_bottom: i32, width: i32, height: i32) -> (p: (i32, i32))
    requires
        i32::MIN <= work_right - width <= i32::MAX,
        i32::MIN <= work_right - width - 16,
        i32::MIN <= work_bottom - height <= i32::MAX,
        i32::MIN <= work_bottom - height - 16,
    ensures
        p.0 == if work_right - width - 16 > work_left { work_right - width - 16 } else { work_left as int },
        p.1 == if work_bottom - height - 16 > work_top { work_bottom - height - 16 } else { work_top as int },
{
    let x = work_right - width - 16;
    let y = work_bottom - height - 16;
    (if x > work_left { x } else { work_left }, if y > work_top { y } else { work_top })
}

/// Core inspector height for `cores` logical processors shown two per row:
/// 180 px of header, 42 px per row, 75 px of footer, clamped to 400..=780.
pub open spec fn inspector_height_for(cores: nat) -> int {
    let h = (180 + ((cores + 1) / 2) * 42 + 75) as int;
    if h < 400 {
        400
    } else if h > 780 {
        780
    } else {
        h
    }
}

/// The core inspector's height for the larger of the reported and the detected
/// logical processor counts.
pub fn inspector_height(reported_cores: usize, detected_cores: usize) -> (h: i32)
    requires
        ({
            let c = if reported_cores > detected_cores { reported_cores } else { detected_cores };
            c < usize::MAX && ((c + 1) / 2) * 42 + 255 <= i32::MAX
        }),
    ensures
        h == inspector_height_for(if reported_cores > detected_cores { reported_cores as nat } else { detected_cores as nat }),
        400 <= h <= 780,
{
    let count = if reported_cores > detected_cores { reported_cores } else { detected_cores };
    let rows = ((count + 1) / 2) as i32;
    let h = 180 + rows * 42 + 75;
    if h < 400 {
        400
    } else if h > 780 {
        780
    } else {
        h
    }
}

/// Whether the open inspector must be resized: its height is off by more than 10 px.
pub fn inspector_needs_resize(current_h: i32, target_h: i32) -> (r: bool)
    requires
        i32::MIN < current_h - target_h <= i32::MAX,
    ensures
        r == (current_h - target_h > 10 || target_h - current_h > 10),
{
    let d = current_h - target_h;
    let a = if d < 0 { -d } else { d };
    a > 10
}

/// The rectangle (left, top, right, bottom) a single text line is drawn into:
/// 240 px to the right of `x`, or 180 px to the left of it when right aligned.
pub fn text_line_rect(x: i32, y: i32, right_aligned: bool) -> (r: (i32, i32, i32, i32))
    requires
        x - 180 >= i32::MIN,
        x + 240 <= i32::MAX,
        y + 25 <= i32::MAX,
    ensures
        r == if right_aligned {
            ((x - 180) as i32, y, x, (y + 25) as i32)
        } else {
            (x, y, (x + 240) as i32, (y + 25) as i32)
        },
{
    if right_aligned {
        (x - 180, y, x, y + 25)
    } else {
        (x, y, x + 240, y + 25)
    }
}

/// Top-left corner of the `index`-th summary card of the core inspector: four
/// cards with 8 px gaps sharing the content width.
pub open spec fn summary_card_x(index: int, pad_x: int, content_w: int) -> int {
    pad_x + index * (div_trunc(content_w - 24, 4) + 8)
}

pub fn summary_card_origin(index: i32, pad_x: i32, top: i32, content_w: i32) -> (p: (i32, i32))
    requires
        0 <= index < 4,
        content_w - 24 >= i32::MIN,
        i32::MIN <= index * (div_trunc(content_w - 24, 4) + 8) <= i32::MAX,
        i32::MIN <= summary_card_x(index as int, pad_x as int, content_w as int) <= i32::MAX,
    ensures
        p == (summary_card_x(index as int, pad_x as int, content_w as int) as i32, top),
{
    let card_w = (content_w - 24) / 4;
    (pad_x + index * (card_w + 8), top)
}

/// Top-left corner of the inspector's cell for logical processor `index`: two
/// columns `col_w` wide with a 10 px gap, rows 38 px apart.
pub open spec fn core_cell_x(index: int, pad_x: int, col_w: int) -> int {
    pad_x + (index % 2) * (col_w + 10)
}

pub open spec fn core_cell_y(index: int, top: int) -> int {
    top + (index / 2) * 38
}

pub fn core_cell_origin(index: usize, pad_x: i32, top: i32, col_w: i32) -> (p: (i32, i32))
    requires
        index / 2 <= i32::MAX,
        col_w + 10 <= i32::MAX,
        i32::MIN <= col_w + 10,
        i32::MIN <= core_cell_x(index as int, pad_x as int, col_w as int) <= i32::MAX,
        i32::MIN <= (index / 2) * 38 <= i32::MAX,
        i32::MIN <= core_cell_y(index as int, top as int) <= i32::MAX,
    ensures
        p == (core_cell_x(index as int, pad_x as int, col_w as int) as i32, core_cell_y(
            index as int,
            top as int,
        ) as i32),
{
    let col = (index % 2) as i32;
    let row = (index / 2) as i32;
    assert(col == 0 || col == 1);
    assert(col * (col_w + 10) == if col == 0 { 0 } else { col_w + 10 }) by (nonlinear_arith)
        requires
            col == 0 || col == 1,
    ;
    (pad_x + col * (col_w + 10), top + row * 38)
}

} // verus!
