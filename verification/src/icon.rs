use vstd::prelude::*;

verus! {

/// Rows of the 5x7 glyph of decimal digit `d`; bit 4 of a row is its leftmost column.
pub open spec fn digit_rows(d: nat) -> Seq<u8> {
    if d == 0 {
        seq![0b01110u8, 0b10001, 0b10011, 0b10101, 0b11001, 0b10001, 0b01110]
    } else if d == 1 {
        seq![0b00100u8, 0b01100, 0b00100, 0b00100, 0b00100, 0b00100, 0b01110]
    } else if d == 2 {
        seq![0b01110u8, 0b10001, 0b00001, 0b00010, 0b00100, 0b01000, 0b11111]
    } else if d == 3 {
        seq![0b11111u8, 0b00010, 0b00100, 0b00010, 0b00001, 0b10001, 0b01110]
    } else if d == 4 {
        seq![0b00010u8, 0b00110, 0b01010, 0b10010, 0b11111, 0b00010, 0b00010]
    } else if d == 5 {
        seq![0b11111u8, 0b10000, 0b11110, 0b00001, 0b00001, 0b10001, 0b01110]
    } else if d == 6 {
        seq![0b00110u8, 0b01000, 0b10000, 0b11110, 0b10001, 0b10001, 0b01110]
    } else if d == 7 {
        seq![0b11111u8, 0b00001, 0b00010, 0b00100, 0b01000, 0b01000, 0b01000]
    } else if d == 8 {
        seq![0b01110u8, 0b10001, 0b10001, 0b01110, 0b10001, 0b10001, 0b01110]
    } else {
        seq![0b01110u8, 0b10001, 0b10001, 0b01111, 0b00001, 0b00010, 0b01100]
    }
}

/// Whether column `col` (0..5, left to right) of row `row` (0..7) of digit `d` is set.
pub open spec fn glyph_bit(d: nat, row: nat, col: nat) -> bool {
    (digit_rows(d)[row as int] & (1u8 << ((4 - col) as u8))) != 0
}

/// Whether pixel (x, y) is painted by digit `digit` drawn at 2x scale with its
/// top-left corner at (ox, oy): a 10x14 block, each glyph bit a 2x2 square.
pub open spec fn digit_covers(digit: nat, ox: nat, oy: nat, x: nat, y: nat) -> bool {
    &&& ox <= x < ox + 10
    &&& oy <= y < oy + 14
    &&& glyph_bit(digit % 10, ((y - oy) / 2) as nat, ((x - ox) / 2) as nat)
}

/// Pixel index, in a canvas `w` pixels wide stored row by row, of copy (`dx`, `dy`)
/// of glyph cell (`row`, `col`) when a digit is drawn at 2x scale from (`ox`, `oy`).
/// A column past the right edge lands on the next row, as the index arithmetic does.
pub open spec fn cell_pixel(w: nat, ox: nat, oy: nat, row: nat, col: nat, dy: nat, dx: nat) -> nat {
    (oy + 2 * row + dy) * w + ox + 2 * col + dx
}

/// Whether pixel index `p` is painted when `digit` (taken modulo 10) is drawn at 2x
/// scale from (`ox`, `oy`) on a canvas `w` pixels wide: one of the four copies of a
/// set glyph bit lands on it.
pub open spec fn digit_paints(digit: nat, w: nat, ox: nat, oy: nat, p: nat) -> bool {
    exists|row: nat, col: nat, dy: nat, dx: nat|
        row < 7 && col < 5 && dy < 2 && dx < 2 && glyph_bit(digit % 10, row, col)
            && #[trigger] cell_pixel(w, ox, oy, row, col, dy, dx) == p
}

/// Byte `i` of an RGBA canvas `w` pixels wide after `digit` was painted at (ox, oy)
/// in colour (r, g, b), fully opaque; `old` is the byte before painting. Only
/// pixels whose four bytes lie inside the buffer are painted.
pub open spec fn painted_byte(
    old: u8,
    len: nat,
    w: nat,
    ox: nat,
    oy: nat,
    digit: nat,
    r: u8,
    g: u8,
    b: u8,
    i: nat,
) -> u8 {
    let p = i / 4;
    if 4 * p + 3 < len && digit_paints(digit, w, ox, oy, p) {
        channel(r, g, b, 255, i % 4)
    } else {
        old
    }
}

/// Channel `c` (0 = red .. 3 = alpha) of a colour.
pub open spec fn channel(r: u8, g: u8, b: u8, a: u8, c: nat) -> u8 {
    if c == 0 {
        r
    } else if c == 1 {
        g
    } else if c == 2 {
        b
    } else {
        a
    }
}

fn glyph_row(d: usize, row: usize) -> (bits: u8)
    requires
        d < 10,
        row < 7,
    ensures
        bits == digit_rows(d as nat)[row as int],
{
    let rows: [u8; 7] = if d == 0 {
        [0b01110u8, 0b10001, 0b10011, 0b10101, 0b11001, 0b10001, 0b01110]
    } else if d == 1 {
        [0b00100u8, 0b01100, 0b00100, 0b00100, 0b00100, 0b00100, 0b01110]
    } else if d == 2 {
        [0b01110u8, 0b10001, 0b00001, 0b00010, 0b00100, 0b01000, 0b11111]
    } else if d == 3 {
        [0b11111u8, 0b00010, 0b00100, 0b00010, 0b00001, 0b10001, 0b01110]
    } else if d == 4 {
        [0b00010u8, 0b00110, 0b01010, 0b10010, 0b11111, 0b00010, 0b00010]
    } else if d == 5 {
        [0b11111u8, 0b10000, 0b11110, 0b00001, 0b00001, 0b10001, 0b01110]
    } else if d == 6 {
        [0b00110u8, 0b01000, 0b10000, 0b11110, 0b10001, 0b10001, 0b01110]
    } else if d == 7 {
        [0b11111u8, 0b00001, 0b00010, 0b00100, 0b01000, 0b01000, 0b01000]
    } else if d == 8 {
        [0b01110u8, 0b10001, 0b10001, 0b01110, 0b10001, 0b10001, 0b01110]
    } else {
        [0b01110u8, 0b10001, 0b10001, 0b01111, 0b00001, 0b00010, 0b01100]
    };
    assert(rows@ == digit_rows(d as nat));
    rows[row]
}

/// Step `k` (0..140) of painting a digit visits glyph cell (k / 20, (k % 20) / 4)
/// and its copy ((k % 4) / 2, k % 2); whether that step paints pixel `p`.
spec fn step_paints(digit: nat, w: nat, ox: nat, oy: nat, k: nat, p: nat) -> bool {
    &&& glyph_bit(digit % 10, k / 20, (k % 20) / 4)
    &&& cell_pixel(w, ox, oy, k / 20, (k % 20) / 4, (k % 4) / 2, k % 2) == p
}

/// Whether one of the first `k` steps paints pixel `p`.
spec fn painted_before(digit: nat, w: nat, ox: nat, oy: nat, k: nat, p: nat) -> bool {
    exists|j: nat| j < k && #[trigger] step_paints(digit, w, ox, oy, j, p)
}

proof fn lemma_painted_before_step(digit: nat, w: nat, ox: nat, oy: nat, k: nat, p: nat)
    ensures
        painted_before(digit, w, ox, oy, k + 1, p) == (painted_before(digit, w, ox, oy, k, p)
            || step_paints(digit, w, ox, oy, k, p)),
{
    if painted_before(digit, w, ox, oy, k + 1, p) {
        let j = choose|j: nat| j < k + 1 && #[trigger] step_paints(digit, w, ox, oy, j, p);
        if j < k {
            assert(painted_before(digit, w, ox, oy, k, p));
        }
    }
    if painted_before(digit, w, ox, oy, k, p) {
        let j = choose|j: nat| j < k && #[trigger] step_paints(digit, w, ox, oy, j, p);
        assert(j < k + 1 && step_paints(digit, w, ox, oy, j, p));
    }
    if step_paints(digit, w, ox, oy, k, p) {
        assert(k < k + 1);
    }
}

/// The 140 steps paint exactly the pixels the glyph covers.
proof fn lemma_all_steps(digit: nat, w: nat, ox: nat, oy: nat, p: nat)
    ensures
        painted_before(digit, w, ox, oy, 140, p) == digit_paints(digit, w, ox, oy, p),
{
    if painted_before(digit, w, ox, oy, 140, p) {
        let k = choose|j: nat| j < 140 && #[trigger] step_paints(digit, w, ox, oy, j, p);
        let row = k / 20;
        let col = (k % 20) / 4;
        let dy = (k % 4) / 2;
        let dx = k % 2;
        assert(row < 7 && col < 5 && dy < 2 && dx < 2);
        assert(cell_pixel(w, ox, oy, row, col, dy, dx) == p);
    }
    if digit_paints(digit, w, ox, oy, p) {
        let (row, col, dy, dx) = choose|row: nat, col: nat, dy: nat, dx: nat|
            row < 7 && col < 5 && dy < 2 && dx < 2 && glyph_bit(digit % 10, row, col)
                && #[trigger] cell_pixel(w, ox, oy, row, col, dy, dx) == p;
        let k = 20 * row + 4 * col + 2 * dy + dx;
        assert(k / 20 == row && (k % 20) / 4 == col && (k % 4) / 2 == dy && k % 2 == dx) by (nonlinear_arith)
            requires
                k == 20 * row + 4 * col + 2 * dy + dx,
                row < 7,
                col < 5,
                dy < 2,
                dx < 2,
        ;
        assert(k < 140 && step_paints(digit, w, ox, oy, k, p));
    }
}

/// Drawing a digit that fits left of the right edge paints exactly the pixels of
/// its 10x14 block whose glyph bit is set.
pub proof fn law_digit_within_row(digit: nat, w: nat, ox: nat, oy: nat, p: nat)
    requires
        ox + 10 <= w,
    ensures
        digit_paints(digit, w, ox, oy, p) == digit_covers(digit, ox, oy, p % w, p / w),
{
    if digit_paints(digit, w, ox, oy, p) {
        let (row, col, dy, dx) = choose|row: nat, col: nat, dy: nat, dx: nat|
            row < 7 && col < 5 && dy < 2 && dx < 2 && glyph_bit(digit % 10, row, col)
                && #[trigger] cell_pixel(w, ox, oy, row, col, dy, dx) == p;
        let x = ox + 2 * col + dx;
        let y = oy + 2 * row + dy;
        vstd::arithmetic::div_mod::lemma_fundamental_div_mod_converse(p as int, w as int, y as int, x as int);
        assert((x - ox) / 2 == col && (y - oy) / 2 == row);
    }
    if digit_covers(digit, ox, oy, p % w, p / w) {
        let x = p % w;
        let y = p / w;
        let row: nat = ((y - oy) / 2) as nat;
        let col: nat = ((x - ox) / 2) as nat;
        let dy: nat = ((y - oy) % 2) as nat;
        let dx: nat = ((x - ox) % 2) as nat;
        vstd::arithmetic::div_mod::lemma_fundamental_div_mod(p as int, w as int);
        assert(cell_pixel(w, ox, oy, row, col, dy, dx) == p) by (nonlinear_arith)
            requires
                p == w * y + x,
                y - oy == 2 * row + dy,
                x - ox == 2 * col + dx,
                oy <= y,
                ox <= x,
        ;
    }
}

/// Paints `digit` (taken modulo 10) from the 5x7 font at twice its size into an
/// RGBA canvas `canvas_w` pixels wide, top-left corner at (`offset_x`, `offset_y`).
pub fn draw_digit(
    rgba: &mut [u8],
    canvas_w: u32,
    offset_x: u32,
    offset_y: u32,
    digit: usize,
    r: u8,
    g: u8,
    b: u8,
)
    requires
        offset_y + 13 <= u32::MAX,
        ((offset_y + 14) * canvas_w + offset_x + 10) * 4 <= 0x1_0000_0000,
    ensures
        final(rgba)@.len() == old(rgba)@.len(),
        forall|i: int|
            #![trigger final(rgba)@[i]]
            0 <= i < old(rgba)@.len() ==> final(rgba)@[i] == painted_byte(
                old(rgba)@[i],
                old(rgba)@.len(),
                canvas_w as nat,
                offset_x as nat,
                offset_y as nat,
                digit as nat,
                r,
                g,
                b,
                i as nat,
            ),
{
    let n = rgba.len();
    let d = digit % 10;
    let ghost w = canvas_w as nat;
    let ghost ox = offset_x as nat;
    let ghost oy = offset_y as nat;
    let mut k: usize = 0;
    while k < 140
        invariant
            n == rgba@.len(),
            n == old(rgba)@.len(),
            d == digit % 10,
            w == canvas_w,
            ox == offset_x,
            oy == offset_y,
            k <= 140,
            offset_y + 13 <= u32::MAX,
            ((offset_y + 14) * canvas_w + offset_x + 10) * 4 <= 0x1_0000_0000,
            forall|i: int|
                #![trigger rgba@[i]]
                0 <= i < n ==> rgba@[i] == if 4 * (i / 4) + 3 < n && painted_before(
                    digit as nat,
                    w,
                    ox,
                    oy,
                    k as nat,
                    (i / 4) as nat,
                ) {
                    channel(r, g, b, 255, (i % 4) as nat)
                } else {
                    old(rgba)@[i]
                },
        decreases 140 - k,
    {
        let row = k / 20;
        let col = (k % 20) / 4;
        let dy = (k % 4) / 2;
        let dx = k % 2;
        let bits = glyph_row(d, row);
        let set = (bits & (1u8 << ((4 - col) as u8))) != 0;
        let ghost target = cell_pixel(w, ox, oy, row as nat, col as nat, dy as nat, dx as nat);
        assert(set == glyph_bit(digit as nat % 10, k as nat / 20, (k as nat % 20) / 4));
        let ghost before = rgba@;
        if set {
            assert((offset_y + 2 * row + dy) * canvas_w <= (offset_y + 14) * canvas_w) by (nonlinear_arith)
                requires
                    row < 7,
                    dy < 2,
            ;
            let px = offset_x + (col as u32) * 2 + dx as u32;
            let py = offset_y + (row as u32) * 2 + dy as u32;
            let idx = ((py * canvas_w + px) * 4) as usize;
            assert(idx == 4 * target);
            if idx + 3 < n {
                rgba[idx] = r;
                rgba[idx + 1] = g;
                rgba[idx + 2] = b;
                rgba[idx + 3] = 255;
            }
        }
        proof {
            assert forall|i: int|
                #![trigger rgba@[i]]
                0 <= i < n implies rgba@[i] == if 4 * (i / 4) + 3 < n && painted_before(
                    digit as nat,
                    w,
                    ox,
                    oy,
                    (k + 1) as nat,
                    (i / 4) as nat,
                ) {
                    channel(r, g, b, 255, (i % 4) as nat)
                } else {
                    old(rgba)@[i]
                } by {
                lemma_painted_before_step(digit as nat, w, ox, oy, k as nat, (i / 4) as nat);
                assert(step_paints(digit as nat, w, ox, oy, k as nat, (i / 4) as nat) == (set && (i / 4)
                    == target));
                if set && i / 4 == target && 4 * target + 3 < n {
                    assert(i % 4 == i - 4 * target);
                } else {
                    assert(rgba@[i] == before[i]);
                }
            }
        }
        k += 1;
    }
    assert forall|i: int|
        #![trigger rgba@[i]]
        0 <= i < n implies rgba@[i] == painted_byte(
            old(rgba)@[i],
            n as nat,
            w,
            ox,
            oy,
            digit as nat,
            r,
            g,
            b,
            i as nat,
        ) by {
        lemma_all_steps(digit as nat, w, ox, oy, (i / 4) as nat);
    }
}

/// The number shown by the tray icon: values above 99 show as 99.
pub open spec fn icon_number(value: nat) -> nat {
    if value < 99 {
        value
    } else {
        99
    }
}

/// Digit colour by load: crimson from 85, amber from 70, sky blue below.
pub open spec fn icon_digit_color(n: nat) -> (u8, u8, u8) {
    if n >= 85 {
        (239u8, 68u8, 68u8)
    } else if n >= 70 {
        (245u8, 158u8, 11u8)
    } else {
        (56u8, 189u8, 248u8)
    }
}

/// Four times the squared distance of pixel (x, y) from the canvas centre (15.5, 15.5):
/// the pixel's distance is at most 14.5 exactly when this is at most 841, and at
/// least 13 exactly when it is at least 676.
pub open spec fn centre_distance4(x: int, y: int) -> int {
    (2 * x - 31) * (2 * x - 31) + (2 * y - 31) * (2 * y - 31)
}

/// Byte `i` of the icon background: a dark disc of radius 14.5 with a lighter,
/// opaque rim from radius 13 outwards, transparent outside.
pub open spec fn background_byte(i: nat) -> u8 {
    let p = i / 4;
    let d = centre_distance4((p % 32) as int, (p / 32) as int);
    if d <= 841 {
        if d >= 676 {
            channel(39, 39, 42, 255, i % 4)
        } else {
            channel(24, 24, 27, 240, i % 4)
        }
    } else {
        0
    }
}

/// Byte `i` of the 32x32 RGBA tray icon showing `value`: two digits at 2x scale,
/// tens at (5, 9) and units at (17, 9), over the background disc.
pub open spec fn stat_icon_byte(value: nat, i: nat) -> u8 {
    let n = icon_number(value);
    let (r, g, b) = icon_digit_color(n);
    let p = i / 4;
    if digit_covers(n / 10, 5, 9, p % 32, p / 32) || digit_covers(n % 10, 17, 9, p % 32, p / 32) {
        channel(r, g, b, 255, i % 4)
    } else {
        background_byte(i)
    }
}

/// The RGBA pixels (32x32, row major) of the icon background alone: the dark disc
/// with its rim.
pub fn background_pixels() -> (rgba: Vec<u8>)
    ensures
        rgba@.len() == 4096,
        forall|i: int| 0 <= i < 4096 ==> #[trigger] rgba@[i] == background_byte(i as nat),
{
    let mut rgba: Vec<u8> = vec![0u8; 4096];
    let mut p: usize = 0;
    while p < 1024
        invariant
            rgba@.len() == 4096,
            p <= 1024,
            forall|i: int| #![trigger rgba@[i]] 0 <= i < 4 * p ==> rgba@[i] == background_byte(i as nat),
            forall|i: int| #![trigger rgba@[i]] 4 * p <= i < 4096 ==> rgba@[i] == 0,
        decreases 1024 - p,
    {
        let x = (p % 32) as i64;
        let y = (p / 32) as i64;
        let dx = 2 * x - 31;
        let dy = 2 * y - 31;
        assert(0 <= dx * dx <= 1089 && 0 <= dy * dy <= 1089) by (nonlinear_arith)
            requires
                -31 <= dx <= 33,
                -31 <= dy <= 33,
        ;
        let dist4 = dx * dx + dy * dy;
        assert(dist4 == centre_distance4((p % 32) as int, (p / 32) as int));
        if dist4 <= 841 {
            if dist4 >= 676 {
                rgba[4 * p] = 39;
                rgba[4 * p + 1] = 39;
                rgba[4 * p + 2] = 42;
                rgba[4 * p + 3] = 255;
            } else {
                rgba[4 * p] = 24;
                rgba[4 * p + 1] = 24;
                rgba[4 * p + 2] = 27;
                rgba[4 * p + 3] = 240;
            }
        }
        proof {
            assert forall|i: int| #![trigger rgba@[i]] 4 * p <= i < 4 * p + 4 implies rgba@[i]
                == background_byte(i as nat) by {
                assert(i / 4 == p);
                assert(i % 4 == i - 4 * p);
            }
        }
        p += 1;
    }
    rgba
}

/// The RGBA pixels (32x32, row major) of the tray icon that displays a number (0-99).
pub fn stat_icon_pixels(value: u32) -> (rgba: Vec<u8>)
    ensures
        rgba@.len() == 4096,
        forall|i: int| 0 <= i < 4096 ==> #[trigger] rgba@[i] == stat_icon_byte(value as nat, i as nat),
{
    let width: u32 = 32;
    let clamped = if value < 99 { value } else { 99 };
    let d1 = (clamped / 10) as usize;
    let d2 = (clamped % 10) as usize;
    let (fg_r, fg_g, fg_b) = if clamped >= 85 {
        (239u8, 68u8, 68u8)
    } else if clamped >= 70 {
        (245u8, 158u8, 11u8)
    } else {
        (56u8, 189u8, 248u8)
    };
    let mut rgba = background_pixels();
    let ghost bg = rgba@;
    draw_digit(rgba.as_mut_slice(), width, 5, 9, d1, fg_r, fg_g, fg_b);
    let ghost after_tens = rgba@;
    draw_digit(rgba.as_mut_slice(), width, 17, 9, d2, fg_r, fg_g, fg_b);
    assert forall|i: int| 0 <= i < 4096 implies #[trigger] rgba@[i] == stat_icon_byte(value as nat, i as nat) by {
        assert(after_tens[i] == painted_byte(bg[i], 4096, 32, 5, 9, d1 as nat, fg_r, fg_g, fg_b, i as nat));
        assert(rgba@[i] == painted_byte(after_tens[i], 4096, 32, 17, 9, d2 as nat, fg_r, fg_g, fg_b, i as nat));
        assert(4 * (i / 4) + 3 < 4096);
        assert(d1 % 10 == d1);
        law_digit_within_row(d1 as nat, 32, 5, 9, (i / 4) as nat);
        law_digit_within_row(d2 as nat, 32, 17, 9, (i / 4) as nat);
    }
    rgba
}

/// Every value from 99 up draws the same icon.
pub proof fn law_icon_saturates_at_99(a: nat, b: nat)
    requires
        a >= 99,
        b >= 99,
    ensures
        forall|i: nat| stat_icon_byte(a, i) == #[trigger] stat_icon_byte(b, i),
{
}

/// The four corner pixels of the icon are transparent, whatever it shows.
pub proof fn law_icon_corners_transparent(value: nat, c: nat)
    requires
        c < 4,
    ensures
        stat_icon_byte(value, c) == 0,
        stat_icon_byte(value, 4 * 31 + c) == 0,
        stat_icon_byte(value, 4 * (31 * 32) + c) == 0,
        stat_icon_byte(value, 4 * (31 * 32 + 31) + c) == 0,
{
    assert((c / 4) == 0);
    assert((4 * 31 + c) / 4 == 31);
    assert((4 * (31 * 32) + c) / 4 == 31 * 32);
    assert((4 * (31 * 32 + 31) + c) / 4 == 31 * 32 + 31);
    assert(0nat % 32 == 0 && 0nat / 32 == 0);
    assert(31nat % 32 == 31 && 31nat / 32 == 0);
    assert((31nat * 32) % 32 == 0 && (31nat * 32) / 32 == 31);
    assert((31nat * 32 + 31) % 32 == 31 && (31nat * 32 + 31) / 32 == 31);
    assert(centre_distance4(0, 0) == 1922) by (nonlinear_arith);
    assert(centre_distance4(31, 0) == 1922) by (nonlinear_arith);
    assert(centre_distance4(0, 31) == 1922) by (nonlinear_arith);
    assert(centre_distance4(31, 31) == 1922) by (nonlinear_arith);
}

} // verus!
