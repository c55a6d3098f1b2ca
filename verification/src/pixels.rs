//! Pixel work on captured frames held as plain byte buffers: the conversion
//! of a captured BGRA bitmap to RGBA, the clamping of search rectangles to
//! the frame, the counts of pixels that pass a colour test in a rectangle,
//! and the column scan of a health bar.
use vstd::prelude::*;

verus! {

/// Whether a pixel counts as health-bar red: strong red, weak green and blue.
pub open spec fn is_red(r: u8, g: u8, b: u8) -> bool {
    r > 140 && g < 80 && b < 80
}

/// The RGBA buffer of `n` pixels of a BGRA buffer: red and blue swapped,
/// alpha opaque.
pub open spec fn rgba_from_bgra(bgra: Seq<u8>, n: int) -> Seq<u8> {
    Seq::new((4 * n) as nat, |k: int| {
        let p = k / 4;
        let c = k % 4;
        if c == 0 {
            bgra[4 * p + 2]
        } else if c == 1 {
            bgra[4 * p + 1]
        } else if c == 2 {
            bgra[4 * p]
        } else {
            255u8
        }
    })
}

/// Converts the first `pixel_count` pixels of a captured BGRA bitmap to RGBA
/// (see `rgba_from_bgra`).
pub fn bgra_to_rgba(bgra: &Vec<u8>, pixel_count: usize) -> (r: Vec<u8>)
    requires
        4 * pixel_count <= bgra@.len(),
    ensures
        r@ == rgba_from_bgra(bgra@, pixel_count as int),
{
    let total = bgra.len();
    let mut out: Vec<u8> = Vec::new();
    let mut i: usize = 0;
    while i < pixel_count
        invariant
            i <= pixel_count,
            total == bgra@.len(),
            4 * pixel_count <= bgra@.len(),
            out@.len() == 4 * i,
            forall|k: int| 0 <= k < 4 * i ==> #[trigger] out@[k] == rgba_from_bgra(bgra@, pixel_count as int)[k],
        decreases pixel_count - i,
    {
        let s = 4 * i;
        out.push(bgra[s + 2]);
        out.push(bgra[s + 1]);
        out.push(bgra[s]);
        out.push(255);
        proof {
            let full = rgba_from_bgra(bgra@, pixel_count as int);
            assert forall|k: int| 4 * i <= k < 4 * i + 4 implies #[trigger] out@[k] == full[k] by {
                assert(k / 4 == i as int);
                assert(k % 4 == k - 4 * i);
            }
        }
        i = i + 1;
    }
    assert(out@ =~= rgba_from_bgra(bgra@, pixel_count as int));
    out
}

/// `a - b`, or 0 when `b` is larger.
pub open spec fn sat_sub(a: u32, b: u32) -> u32 {
    if a >= b { (a - b) as u32 } else { 0u32 }
}

/// `min(a, b)`.
pub open spec fn min_u32(a: u32, b: u32) -> u32 {
    if a <= b { a } else { b }
}

/// The part `(x, y, w, h)` of a `fw` x `fh` frame that a rectangle
/// `(x, y, w, h)` covers: its corner moved inside the frame, its size cut
/// at the frame's edge.
pub open spec fn clamp_rect(x: u32, y: u32, w: u32, h: u32, fw: u32, fh: u32) -> (u32, u32, u32, u32) {
    let sx = min_u32(x, sat_sub(fw, 1));
    let sy = min_u32(y, sat_sub(fh, 1));
    (sx, sy, min_u32(w, sat_sub(fw, sx)), min_u32(h, sat_sub(fh, sy)))
}

fn clamp_rect_exec(x: u32, y: u32, w: u32, h: u32, fw: u32, fh: u32) -> (r: (u32, u32, u32, u32))
    ensures
        r == clamp_rect(x, y, w, h, fw, fh),
{
    let sx = if x <= fw.saturating_sub(1) { x } else { fw.saturating_sub(1) };
    let sy = if y <= fh.saturating_sub(1) { y } else { fh.saturating_sub(1) };
    let sw = if w <= fw.saturating_sub(sx) { w } else { fw.saturating_sub(sx) };
    let sh = if h <= fh.saturating_sub(sy) { h } else { fh.saturating_sub(sy) };
    (sx, sy, sw, sh)
}

/// The rectangle `(x, y, w, h)` in which the lock marker is searched: the
/// configured corners `(x1, y1, x2, y2)` clamped to the frame, or the top
/// 150 rows when none is configured.
pub open spec fn lock_search_rect_spec(region: Option<(u32, u32, u32, u32)>, fw: u32, fh: u32) -> (u32, u32, u32, u32) {
    match region {
        Some((x1, y1, x2, y2)) => clamp_rect(x1, y1, sat_sub(x2, x1), sat_sub(y2, y1), fw, fh),
        None => (0u32, 0u32, fw, min_u32(150, fh)),
    }
}

/// The lock-marker search rectangle (see `lock_search_rect_spec`).
pub fn lock_search_rect(region: Option<(u32, u32, u32, u32)>, fw: u32, fh: u32) -> (r: (u32, u32, u32, u32))
    ensures
        r == lock_search_rect_spec(region, fw, fh),
{
    match region {
        Some((x1, y1, x2, y2)) => clamp_rect_exec(x1, y1, x2.saturating_sub(x1), y2.saturating_sub(y1), fw, fh),
        None => (0, 0, fw, if 150 <= fh { 150 } else { fh }),
    }
}

/// The red, green and blue of the pixel at column `x`, row `y` of a
/// `fw`-wide RGBA buffer.
pub open spec fn rgb_at(px: Seq<u8>, fw: int, x: int, y: int) -> (u8, u8, u8) {
    let k = 4 * (y * fw + x);
    (px[k], px[k + 1], px[k + 2])
}

/// Whether a pixel has the blue of a metin stone: little red, some green,
/// strong blue.
pub open spec fn is_metin_blue(r: u8, g: u8, b: u8) -> bool {
    r < 80 && g > 60 && g < 150 && b > 120
}

/// `|a - b|`.
pub open spec fn abs_diff(a: u8, b: u8) -> int {
    if a >= b { a - b } else { b - a }
}

/// Sum of the channel differences of two pixels.
pub open spec fn color_diff(p: (u8, u8, u8), q: (u8, u8, u8)) -> int {
    abs_diff(p.0, q.0) + abs_diff(p.1, q.1) + abs_diff(p.2, q.2)
}

/// Whether a pixel is on an edge: its differences to the right and lower
/// neighbours add up to more than 100.
pub open spec fn is_edge(px: Seq<u8>, fw: int, x: int, y: int) -> bool {
    let p = rgb_at(px, fw, x, y);
    color_diff(rgb_at(px, fw, x + 1, y), p) + color_diff(rgb_at(px, fw, x, y + 1), p) > 100
}

/// A test on one pixel of a frame.
#[derive(Debug, Clone, Copy, PartialEq, Eq, Structural)]
pub enum PixelTest {
    /// Health-bar red (see `is_red`).
    Red,
    /// Metin-stone blue (see `is_metin_blue`).
    MetinBlue,
    /// On an edge (see `is_edge`); needs the right and lower neighbours.
    Edge,
}

/// Whether the pixel at `(x, y)` passes the test.
pub open spec fn passes(t: PixelTest, px: Seq<u8>, fw: int, x: int, y: int) -> bool {
    let (r, g, b) = rgb_at(px, fw, x, y);
    match t {
        PixelTest::Red => is_red(r, g, b),
        PixelTest::MetinBlue => is_metin_blue(r, g, b),
        PixelTest::Edge => is_edge(px, fw, x, y),
    }
}

/// Pixels passing the test among the first `n` columns from `x0` of row `y`.
pub open spec fn count_in_row(t: PixelTest, px: Seq<u8>, fw: int, y: int, x0: int, n: int) -> nat
    decreases n,
{
    if n <= 0 {
        0
    } else {
        count_in_row(t, px, fw, y, x0, n - 1) + if passes(t, px, fw, x0 + n - 1, y) { 1nat } else { 0nat }
    }
}

/// Pixels passing the test in the first `m` rows from `y0`, `w` columns
/// from `x0`.
pub open spec fn count_in_rect(t: PixelTest, px: Seq<u8>, fw: int, x0: int, y0: int, w: int, m: int) -> nat
    decreases m,
{
    if m <= 0 {
        0
    } else {
        count_in_rect(t, px, fw, x0, y0, w, m - 1) + count_in_row(t, px, fw, y0 + m - 1, x0, w)
    }
}

/// The extra columns and rows a test reads past its pixel.
pub open spec fn reach(t: PixelTest) -> int {
    if t is Edge { 1 } else { 0 }
}

proof fn lemma_index_in_frame(x: int, y: int, fw: int, fh: int)
    requires
        0 <= x < fw,
        0 <= y < fh,
    ensures
        0 <= 4 * (y * fw + x),
        4 * (y * fw + x) + 3 < 4 * (fw * fh),
{
    assert(y * fw + x < fw * fh) by (nonlinear_arith)
        requires 0 <= x < fw, 0 <= y < fh;
    assert(0 <= y * fw) by (nonlinear_arith)
        requires 0 <= y, 0 <= fw;
}

fn rgb_exec(rgba: &Vec<u8>, fw: u32, fh: u32, x: u32, y: u32) -> (r: (u8, u8, u8))
    requires
        rgba@.len() == 4 * fw * fh,
        x < fw,
        y < fh,
    ensures
        r == rgb_at(rgba@, fw as int, x as int, y as int),
{
    proof {
        lemma_index_in_frame(x as int, y as int, fw as int, fh as int);
        assert(4 * fw * fh == 4 * (fw * fh)) by (nonlinear_arith);
    }
    let len = rgba.len();
    assert(len == rgba@.len());
    assert(y * fw <= y * fw + x);
    let k = 4 * (y as usize * fw as usize + x as usize);
    (rgba[k], rgba[k + 1], rgba[k + 2])
}

fn abs_diff_exec(a: u8, b: u8) -> (r: u16)
    ensures
        r as int == abs_diff(a, b),
{
    if a >= b { (a - b) as u16 } else { (b - a) as u16 }
}

fn passes_exec(t: PixelTest, rgba: &Vec<u8>, fw: u32, fh: u32, x: u32, y: u32) -> (r: bool)
    requires
        rgba@.len() == 4 * fw * fh,
        x + reach(t) < fw,
        y + reach(t) < fh,
    ensures
        r == passes(t, rgba@, fw as int, x as int, y as int),
{
    let (r, g, b) = rgb_exec(rgba, fw, fh, x, y);
    match t {
        PixelTest::Red => r > 140 && g < 80 && b < 80,
        PixelTest::MetinBlue => r < 80 && g > 60 && g < 150 && b > 120,
        PixelTest::Edge => {
            let (r1, g1, b1) = rgb_exec(rgba, fw, fh, x + 1, y);
            let (r2, g2, b2) = rgb_exec(rgba, fw, fh, x, y + 1);
            let gx = abs_diff_exec(r1, r) + abs_diff_exec(g1, g) + abs_diff_exec(b1, b);
            let gy = abs_diff_exec(r2, r) + abs_diff_exec(g2, g) + abs_diff_exec(b2, b);
            gx + gy > 100
        },
    }
}

/// Counts the pixels of the rectangle `(x, y, w, h)` of a `fw` x `fh` RGBA
/// frame that pass a test (see `count_in_rect`); the rectangle, with the
/// neighbours the test reads, lies in the frame.
pub fn count_pixels(rgba: &Vec<u8>, fw: u32, fh: u32, t: PixelTest, x: u32, y: u32, w: u32, h: u32) -> (r: u64)
    requires
        rgba@.len() == 4 * fw * fh,
        x + w + reach(t) <= fw,
        y + h + reach(t) <= fh,
    ensures
        r as int == count_in_rect(t, rgba@, fw as int, x as int, y as int, w as int, h as int),
        r <= w * h,
{
    let ghost px = rgba@;
    let mut count: u64 = 0;
    let mut row: u32 = 0;
    while row < h
        invariant
            row <= h,
            x + w + reach(t) <= fw,
            y + h + reach(t) <= fh,
            px == rgba@,
            rgba@.len() == 4 * fw * fh,
            count as int == count_in_rect(t, px, fw as int, x as int, y as int, w as int, row as int),
            count <= row * w,
        decreases h - row,
    {
        let yy = y + row;
        let mut col: u32 = 0;
        let mut in_row: u64 = 0;
        while col < w
            invariant
                col <= w,
                row < h,
                yy == y + row,
                x + w + reach(t) <= fw,
                y + h + reach(t) <= fh,
                px == rgba@,
                rgba@.len() == 4 * fw * fh,
                in_row as int == count_in_row(t, px, fw as int, yy as int, x as int, col as int),
                in_row <= col,
            decreases w - col,
        {
            if passes_exec(t, rgba, fw, fh, x + col, yy) {
                in_row = in_row + 1;
            }
            col = col + 1;
        }
        proof {
            assert(row * w + w == (row + 1) * w) by (nonlinear_arith);
            assert((row + 1) * w <= h * w) by (nonlinear_arith)
                requires row < h;
            assert(h * w <= 0xFFFF_FFFF * 0xFFFF_FFFF) by (nonlinear_arith)
                requires h <= 0xFFFF_FFFF, w <= 0xFFFF_FFFF;
        }
        count = count + in_row;
        row = row + 1;
    }
    assert(w * h == h * w) by (nonlinear_arith);
    count
}

/// Red pixels of a `fw` x `fh` RGBA frame in the rectangle `(x, y, w, h)`
/// clamped to the frame (see `clamp_rect`); none when the clamped rectangle
/// is empty.
pub open spec fn red_pixel_count(px: Seq<u8>, fw: u32, fh: u32, x: u32, y: u32, w: u32, h: u32) -> nat {
    let (sx, sy, sw, sh) = clamp_rect(x, y, w, h, fw, fh);
    if sw == 0 || sh == 0 {
        0
    } else {
        count_in_rect(PixelTest::Red, px, fw as int, sx as int, sy as int, sw as int, sh as int)
    }
}

/// Counts the health-bar red pixels of a frame in a rectangle (see
/// `red_pixel_count`), as an `i32`, which holds the count.
pub fn count_red_pixels(rgba: &Vec<u8>, fw: u32, fh: u32, x: u32, y: u32, w: u32, h: u32) -> (r: i32)
    requires
        rgba@.len() == 4 * fw * fh,
        red_pixel_count(rgba@, fw, fh, x, y, w, h) <= i32::MAX,
    ensures
        r as int == red_pixel_count(rgba@, fw, fh, x, y, w, h),
{
    let (sx, sy, sw, sh) = clamp_rect_exec(x, y, w, h, fw, fh);
    if sw == 0 || sh == 0 {
        return 0;
    }
    let n = count_pixels(rgba, fw, fh, PixelTest::Red, sx, sy, sw, sh);
    n as i32
}

/// Edge pixels inside the rectangle `(x, y, w, h)`: its border rows and
/// columns left out; none for a rectangle under 3x3.
pub open spec fn edge_count_spec(px: Seq<u8>, fw: u32, x: u32, y: u32, w: u32, h: u32) -> nat {
    if w < 3 || h < 3 {
        0
    } else {
        count_in_rect(PixelTest::Edge, px, fw as int, x + 1, y + 1, w - 2, h - 2)
    }
}

/// Counts the edge pixels inside a rectangle of a frame (see
/// `edge_count_spec`); the rectangle lies in the frame.
pub fn edge_count(rgba: &Vec<u8>, fw: u32, fh: u32, x: u32, y: u32, w: u32, h: u32) -> (r: u64)
    requires
        rgba@.len() == 4 * fw * fh,
        x + w <= fw,
        y + h <= fh,
    ensures
        r as int == edge_count_spec(rgba@, fw, x, y, w, h),
{
    if w < 3 || h < 3 {
        return 0;
    }
    count_pixels(rgba, fw, fh, PixelTest::Edge, x + 1, y + 1, w - 2, h - 2)
}

/// The colour bucket of a pixel: the top two bits of each channel.
pub open spec fn bucket(c: (u8, u8, u8)) -> int {
    (c.0 / 64) * 16 + (c.1 / 64) * 4 + c.2 / 64
}

/// Whether some pixel of the first `m` rows from `y0`, `w` columns from `x0`,
/// falls in bucket `k`.
pub open spec fn bucket_used(px: Seq<u8>, fw: int, x0: int, y0: int, w: int, m: int, k: int) -> bool {
    exists|xx: int, yy: int| x0 <= xx < x0 + w && y0 <= yy < y0 + m && bucket(#[trigger] rgb_at(px, fw, xx, yy)) == k
}

/// Number of buckets below `n` that some pixel of the rectangle falls in.
pub open spec fn buckets_used(px: Seq<u8>, fw: int, x0: int, y0: int, w: int, h: int, n: int) -> nat
    decreases n,
{
    if n <= 0 {
        0
    } else {
        buckets_used(px, fw, x0, y0, w, h, n - 1) + if bucket_used(px, fw, x0, y0, w, h, n - 1) { 1nat } else { 0nat }
    }
}

/// Counts the colour buckets (of 64) that the pixels of a rectangle of a
/// frame fall in; the rectangle lies in the frame.
pub fn color_bucket_count(rgba: &Vec<u8>, fw: u32, fh: u32, x: u32, y: u32, w: u32, h: u32) -> (r: u32)
    requires
        rgba@.len() == 4 * fw * fh,
        x + w <= fw,
        y + h <= fh,
    ensures
        r as int == buckets_used(rgba@, fw as int, x as int, y as int, w as int, h as int, 64),
{
    let ghost px = rgba@;
    let mut seen: Vec<bool> = Vec::new();
    let mut k: usize = 0;
    while k < 64
        invariant
            k <= 64,
            seen@.len() == k,
            forall|j: int| 0 <= j < k ==> !seen@[j],
        decreases 64 - k,
    {
        seen.push(false);
        k = k + 1;
    }
    let mut row: u32 = 0;
    while row < h
        invariant
            row <= h,
            x + w <= fw,
            y + h <= fh,
            px == rgba@,
            rgba@.len() == 4 * fw * fh,
            seen@.len() == 64,
            forall|j: int| 0 <= j < 64 ==> (#[trigger] seen@[j] <==> bucket_used(px, fw as int, x as int, y as int, w as int, row as int, j)),
        decreases h - row,
    {
        let yy = y + row;
        let mut col: u32 = 0;
        while col < w
            invariant
                col <= w,
                row < h,
                yy == y + row,
                x + w <= fw,
                y + h <= fh,
                px == rgba@,
                rgba@.len() == 4 * fw * fh,
                seen@.len() == 64,
                forall|j: int| 0 <= j < 64 ==> (#[trigger] seen@[j] <==> (bucket_used(px, fw as int, x as int, y as int, w as int, row as int, j)
                    || exists|xx: int| x <= xx < x + col && bucket(#[trigger] rgb_at(px, fw as int, xx, yy as int)) == j)),
            decreases w - col,
        {
            let (r, g, b) = rgb_exec(rgba, fw, fh, x + col, yy);
            let kk = (r / 64) as usize * 16 + (g / 64) as usize * 4 + (b / 64) as usize;
            assert(kk as int == bucket((r, g, b)));
            let ghost before = seen@;
            seen.set(kk, true);
            proof {
                assert forall|j: int| 0 <= j < 64 implies (#[trigger] seen@[j] <==> (bucket_used(px, fw as int, x as int, y as int, w as int, row as int, j)
                    || exists|xx: int| x <= xx < x + col + 1 && bucket(#[trigger] rgb_at(px, fw as int, xx, yy as int)) == j)) by {
                    if j == kk as int {
                        assert(bucket(rgb_at(px, fw as int, (x + col) as int, yy as int)) == j);
                    } else {
                        assert(seen@[j] == before[j]);
                        if exists|xx: int| x <= xx < x + col + 1 && bucket(#[trigger] rgb_at(px, fw as int, xx, yy as int)) == j {
                            let xx = choose|xx: int| x <= xx < x + col + 1 && bucket(#[trigger] rgb_at(px, fw as int, xx, yy as int)) == j;
                            assert(xx != x + col);
                        }
                    }
                }
            }
            col = col + 1;
        }
        proof {
            assert forall|j: int| 0 <= j < 64 implies (#[trigger] seen@[j] <==> bucket_used(px, fw as int, x as int, y as int, w as int, row + 1, j)) by {
                if bucket_used(px, fw as int, x as int, y as int, w as int, row + 1, j) {
                    let (xx, yv) = choose|xx: int, yv: int| x <= xx < x + w && y <= yv < y + row + 1
                        && bucket(#[trigger] rgb_at(px, fw as int, xx, yv)) == j;
                    if yv < y + row {
                        assert(bucket_used(px, fw as int, x as int, y as int, w as int, row as int, j));
                    }
                }
                if bucket_used(px, fw as int, x as int, y as int, w as int, row as int, j) {
                    let (xx, yv) = choose|xx: int, yv: int| x <= xx < x + w && y <= yv < y + row
                        && bucket(#[trigger] rgb_at(px, fw as int, xx, yv)) == j;
                    assert(bucket(rgb_at(px, fw as int, xx, yv)) == j);
                }
                if exists|xx: int| x <= xx < x + w && bucket(#[trigger] rgb_at(px, fw as int, xx, yy as int)) == j {
                    let xx = choose|xx: int| x <= xx < x + w && bucket(#[trigger] rgb_at(px, fw as int, xx, yy as int)) == j;
                    assert(bucket(rgb_at(px, fw as int, xx, yy as int)) == j);
                }
            }
        }
        row = row + 1;
    }
    let mut used: u32 = 0;
    let mut j: usize = 0;
    while j < 64
        invariant
            j <= 64,
            seen@.len() == 64,
            forall|i: int| 0 <= i < 64 ==> (#[trigger] seen@[i] <==> bucket_used(px, fw as int, x as int, y as int, w as int, h as int, i)),
            used as int == buckets_used(px, fw as int, x as int, y as int, w as int, h as int, j as int),
            used <= j,
        decreases 64 - j,
    {
        if seen[j] {
            used = used + 1;
        }
        j = j + 1;
    }
    used
}

/// Whether a pixel is the red of a health bar's filled part: red above 100
/// and over one and a half times green and blue, green and blue under 150.
pub open spec fn is_hp_red(r: u8, g: u8, b: u8) -> bool {
    r > 100 && 2 * r > 3 * g && 2 * r > 3 * b && g < 150 && b < 150
}

/// Whether a pixel is not the dark background around a bar: the mean of its
/// channels is 30 or more.
pub open spec fn is_lit(r: u8, g: u8, b: u8) -> bool {
    r + g + b >= 90
}

/// The three rows, relative to a bar of height `h` (2 or more), that a bar
/// scan reads: the one above the middle, the middle, and the one below,
/// which is the middle again when the bar is two rows high.
pub open spec fn hp_rows(h: u32) -> (int, int, int) {
    let mid = h / 2;
    (mid - 1, mid as int, if mid + 1 <= h - 1 { mid + 1 } else { h - 1 })
}

/// Whether the pixel at `(x, y)` is bar red (`red`) or lit (`!red`).
pub open spec fn hp_pixel(px: Seq<u8>, fw: int, x: int, y: int, red: bool) -> bool {
    let (r, g, b) = rgb_at(px, fw, x, y);
    if red { is_hp_red(r, g, b) } else { is_lit(r, g, b) }
}

/// How many of the three scan rows of column `x` are bar red (`red`) or lit
/// (`!red`), for a bar whose top row is `y0`.
pub open spec fn votes(px: Seq<u8>, fw: int, x: int, y0: int, h: u32, red: bool) -> int {
    let (a, b, c) = hp_rows(h);
    (if hp_pixel(px, fw, x, y0 + a, red) { 1int } else { 0int })
        + (if hp_pixel(px, fw, x, y0 + b, red) { 1int } else { 0int })
        + (if hp_pixel(px, fw, x, y0 + c, red) { 1int } else { 0int })
}

/// Whether column `x` of the bar counts: at least two of its scan rows pass.
pub open spec fn bar_column(px: Seq<u8>, fw: int, x: int, y0: int, h: u32, red: bool) -> bool {
    votes(px, fw, x, y0, h, red) >= 2
}

/// Columns among the first `n` from `x0` that count as red (`red`) or as
/// part of the bar (`!red`).
pub open spec fn bar_columns(px: Seq<u8>, fw: int, x0: int, y0: int, h: u32, n: int, red: bool) -> nat
    decreases n,
{
    if n <= 0 {
        0
    } else {
        bar_columns(px, fw, x0, y0, h, n - 1, red) + if bar_column(px, fw, x0 + n - 1, y0, h, red) { 1nat } else { 0nat }
    }
}

/// The offset of the last red column among the first `n` from `x0`; 0 when
/// none is red.
pub open spec fn last_red_column(px: Seq<u8>, fw: int, x0: int, y0: int, h: u32, n: int) -> int
    decreases n,
{
    if n <= 0 {
        0
    } else if bar_column(px, fw, x0 + n - 1, y0, h, true) {
        n - 1
    } else {
        last_red_column(px, fw, x0, y0, h, n - 1)
    }
}

proof fn lemma_bar_columns(px: Seq<u8>, fw: int, x0: int, y0: int, h: u32, n: int)
    ensures
        bar_columns(px, fw, x0, y0, h, n, true) <= bar_columns(px, fw, x0, y0, h, n, false),
        n >= 0 ==> bar_columns(px, fw, x0, y0, h, n, false) <= n,
        bar_columns(px, fw, x0, y0, h, n, true) > 0 ==> 0 <= last_red_column(px, fw, x0, y0, h, n) < n,
    decreases n,
{
    if n > 0 {
        lemma_bar_columns(px, fw, x0, y0, h, n - 1);
        let x = x0 + n - 1;
        let (a, b, c) = hp_rows(h);
        assert(hp_pixel(px, fw, x, y0 + a, true) ==> hp_pixel(px, fw, x, y0 + a, false));
        assert(hp_pixel(px, fw, x, y0 + b, true) ==> hp_pixel(px, fw, x, y0 + b, false));
        assert(hp_pixel(px, fw, x, y0 + c, true) ==> hp_pixel(px, fw, x, y0 + c, false));
    }
}

/// What a scan of a health bar finds, column by column: the red columns,
/// the columns that belong to the bar, the offset of the last red column and
/// the width scanned.
#[derive(Debug, Clone, Copy, PartialEq, Eq, Structural)]
pub struct HpBarScan {
    pub red_columns: u32,
    pub bar_columns: u32,
    pub last_red_column: u32,
    pub width: u32,
}

/// The scan of the rectangle `(x, y, w, h)` of a frame, clamped to it (see
/// `clamp_rect`): nothing is counted in a bar under 5 columns or 2 rows.
pub open spec fn hp_bar_scan_spec(px: Seq<u8>, fw: u32, fh: u32, x: u32, y: u32, w: u32, h: u32) -> HpBarScan {
    let (sx, sy, sw, sh) = clamp_rect(x, y, w, h, fw, fh);
    if sw < 5 || sh < 2 {
        HpBarScan { red_columns: 0, bar_columns: 0, last_red_column: 0, width: sw }
    } else {
        HpBarScan {
            red_columns: bar_columns(px, fw as int, sx as int, sy as int, sh, sw as int, true) as u32,
            bar_columns: bar_columns(px, fw as int, sx as int, sy as int, sh, sw as int, false) as u32,
            last_red_column: last_red_column(px, fw as int, sx as int, sy as int, sh, sw as int) as u32,
            width: sw,
        }
    }
}

fn hp_pixel_exec(rgba: &Vec<u8>, fw: u32, fh: u32, x: u32, y: u32, red: bool) -> (r: bool)
    requires
        rgba@.len() == 4 * fw * fh,
        x < fw,
        y < fh,
    ensures
        r == hp_pixel(rgba@, fw as int, x as int, y as int, red),
{
    let (r, g, b) = rgb_exec(rgba, fw, fh, x, y);
    if red {
        r > 100 && 2 * (r as u16) > 3 * (g as u16) && 2 * (r as u16) > 3 * (b as u16) && g < 150 && b < 150
    } else {
        r as u16 + g as u16 + b as u16 >= 90
    }
}

/// Scans a health bar in the rectangle `(x, y, w, h)` of a frame (see
/// `hp_bar_scan_spec`). Every red column belongs to the bar, so the red
/// columns never outnumber the bar's, and the last red column lies in the
/// scanned width.
pub fn hp_bar_scan(rgba: &Vec<u8>, fw: u32, fh: u32, x: u32, y: u32, w: u32, h: u32) -> (r: HpBarScan)
    requires
        rgba@.len() == 4 * fw * fh,
    ensures
        r == hp_bar_scan_spec(rgba@, fw, fh, x, y, w, h),
        r.red_columns <= r.bar_columns <= r.width,
        r.red_columns > 0 ==> r.last_red_column < r.width,
{
    let ghost px = rgba@;
    let (sx, sy, sw, sh) = clamp_rect_exec(x, y, w, h, fw, fh);
    if sw < 5 || sh < 2 {
        return HpBarScan { red_columns: 0, bar_columns: 0, last_red_column: 0, width: sw };
    }
    let mid = sh / 2;
    let (ra, rb, rc) = (mid - 1, mid, if mid + 1 <= sh - 1 { mid + 1 } else { sh - 1 });
    assert(hp_rows(sh) == (ra as int, rb as int, rc as int));
    let mut red: u32 = 0;
    let mut bar: u32 = 0;
    let mut last: u32 = 0;
    let mut col: u32 = 0;
    while col < sw
        invariant
            col <= sw,
            sw >= 5,
            sh >= 2,
            sx + sw <= fw,
            sy + sh <= fh,
            hp_rows(sh) == (ra as int, rb as int, rc as int),
            ra < sh,
            rb < sh,
            rc < sh,
            px == rgba@,
            rgba@.len() == 4 * fw * fh,
            red as int == bar_columns(px, fw as int, sx as int, sy as int, sh, col as int, true),
            bar as int == bar_columns(px, fw as int, sx as int, sy as int, sh, col as int, false),
            last as int == last_red_column(px, fw as int, sx as int, sy as int, sh, col as int),
            red <= col,
            bar <= col,
        decreases sw - col,
    {
        let cx = sx + col;
        let red_votes: u32 = (if hp_pixel_exec(rgba, fw, fh, cx, sy + ra, true) { 1 } else { 0 })
            + (if hp_pixel_exec(rgba, fw, fh, cx, sy + rb, true) { 1 } else { 0 })
            + (if hp_pixel_exec(rgba, fw, fh, cx, sy + rc, true) { 1 } else { 0 });
        let lit_votes: u32 = (if hp_pixel_exec(rgba, fw, fh, cx, sy + ra, false) { 1 } else { 0 })
            + (if hp_pixel_exec(rgba, fw, fh, cx, sy + rb, false) { 1 } else { 0 })
            + (if hp_pixel_exec(rgba, fw, fh, cx, sy + rc, false) { 1 } else { 0 });
        assert(red_votes as int == votes(px, fw as int, cx as int, sy as int, sh, true));
        assert(lit_votes as int == votes(px, fw as int, cx as int, sy as int, sh, false));
        if red_votes >= 2 {
            red = red + 1;
            last = col;
        }
        if lit_votes >= 2 {
            bar = bar + 1;
        }
        col = col + 1;
    }
    proof {
        lemma_bar_columns(px, fw as int, sx as int, sy as int, sh, sw as int);
    }
    HpBarScan { red_columns: red, bar_columns: bar, last_red_column: last, width: sw }
}

} // verus!
