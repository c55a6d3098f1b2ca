//! Screen regions used by a client runner: where the lock marker, the
//! captcha question, the captcha button and the private-message window are
//! looked for, clamped to the captured frame.
use vstd::prelude::*;
use crate::pixels::sat_sub;

verus! {

/// A rectangle `(x1, y1, x2, y2)` in frame pixels.
pub type PixelRect = (u32, u32, u32, u32);

/// `max(v, 0)` read as an unsigned pixel coordinate.
pub open spec fn nonneg(v: i32) -> u32 {
    if v < 0 { 0u32 } else { v as u32 }
}

fn nonneg_exec(v: i32) -> (r: u32)
    ensures
        r == nonneg(v),
{
    if v < 0 { 0 } else { v as u32 }
}

/// The lock-marker search region of a client: the configured rectangle when
/// it is not empty, else the default band `(200, 30)-(600, 80)`.
pub open spec fn lock_region_spec(r: (i32, i32, i32, i32)) -> PixelRect {
    if r.2 > r.0 && r.3 > r.1 {
        (nonneg(r.0), nonneg(r.1), nonneg(r.2), nonneg(r.3))
    } else {
        (200u32, 30u32, 600u32, 80u32)
    }
}

/// The lock-marker search region of a client (see `lock_region_spec`).
pub fn lock_region(kilit_region: (i32, i32, i32, i32)) -> (r: PixelRect)
    ensures
        r == lock_region_spec(kilit_region),
{
    if kilit_region.2 > kilit_region.0 && kilit_region.3 > kilit_region.1 {
        (nonneg_exec(kilit_region.0), nonneg_exec(kilit_region.1), nonneg_exec(kilit_region.2), nonneg_exec(kilit_region.3))
    } else {
        (200, 30, 600, 80)
    }
}

/// The saved captcha-button rectangle, when it was set (positive corner and
/// non-empty).
pub open spec fn captcha_button_spec(x1: i32, y1: i32, x2: i32, y2: i32) -> Option<(i32, i32, i32, i32)> {
    if x1 > 0 && y1 > 0 && x2 > x1 && y2 > y1 {
        Some((x1, y1, x2, y2))
    } else {
        None
    }
}

/// The saved captcha-button rectangle (see `captcha_button_spec`).
pub fn captcha_button_region(x1: i32, y1: i32, x2: i32, y2: i32) -> (r: Option<(i32, i32, i32, i32)>)
    ensures
        r == captcha_button_spec(x1, y1, x2, y2),
{
    if x1 > 0 && y1 > 0 && x2 > x1 && y2 > y1 {
        Some((x1, y1, x2, y2))
    } else {
        None
    }
}

/// What the captcha question region allows.
#[derive(Debug, Clone, Copy, PartialEq, Eq)]
pub enum OcrRegionCheck {
    /// No usable region: empty or outside the frame; captchas are not checked.
    Missing,
    /// The region is under 30x10 pixels; OCR is skipped.
    TooSmall,
    /// OCR reads the region `(x, y, width, height)`.
    Read(u32, u32, u32, u32),
}

/// The captcha question region against a `fw` x `fh` frame.
pub open spec fn ocr_region_spec(r: (i32, i32, i32, i32), fw: u32, fh: u32) -> OcrRegionCheck {
    let (x1, y1, x2, y2) = (nonneg(r.0), nonneg(r.1), nonneg(r.2), nonneg(r.3));
    if !(x2 > x1 && y2 > y1 && x2 <= fw && y2 <= fh) {
        OcrRegionCheck::Missing
    } else if sat_sub(x2, x1) < 30 || sat_sub(y2, y1) < 10 {
        OcrRegionCheck::TooSmall
    } else {
        OcrRegionCheck::Read(x1, y1, sat_sub(x2, x1), sat_sub(y2, y1))
    }
}

/// The captcha question region against the frame (see `ocr_region_spec`).
pub fn ocr_region_check(ocr_region: (i32, i32, i32, i32), fw: u32, fh: u32) -> (r: OcrRegionCheck)
    ensures
        r == ocr_region_spec(ocr_region, fw, fh),
{
    let x1 = nonneg_exec(ocr_region.0);
    let y1 = nonneg_exec(ocr_region.1);
    let x2 = nonneg_exec(ocr_region.2);
    let y2 = nonneg_exec(ocr_region.3);
    if !(x2 > x1 && y2 > y1 && x2 <= fw && y2 <= fh) {
        return OcrRegionCheck::Missing;
    }
    let w = x2.saturating_sub(x1);
    let h = y2.saturating_sub(y1);
    if w < 30 || h < 10 {
        OcrRegionCheck::TooSmall
    } else {
        OcrRegionCheck::Read(x1, y1, w, h)
    }
}

/// `min(max(v, 0), hi)` on integers.
pub open spec fn clamp(v: int, hi: int) -> int {
    if v < 0 {
        if 0 < hi { 0 } else { hi }
    } else if v < hi {
        v
    } else {
        hi
    }
}

/// The message region clamped to a `fw` x `fh` frame, `(x1, y1, x2, y2)`:
/// left and top edges to `0..=f-1`, right and bottom edges to `0..=f`.
pub open spec fn pm_region_clamped(r: (i32, i32, i32, i32), fw: u32, fh: u32) -> (int, int, int, int) {
    (clamp(r.0 as int, fw - 1), clamp(r.1 as int, fh - 1), clamp(r.2 as int, fw as int), clamp(r.3 as int, fh as int))
}

/// What the configured message region gives against the frame: `None` when
/// it is not set; else the clamped rectangle and whether it is large enough
/// (at least 20x10) to be scanned.
pub open spec fn pm_scan_spec(r: (i32, i32, i32, i32), fw: u32, fh: u32) -> Option<((int, int, int, int), bool)> {
    if r.2 > r.0 && r.3 > r.1 {
        let c = pm_region_clamped(r, fw, fh);
        Some((c, c.2 - c.0 >= 20 && c.3 - c.1 >= 10))
    } else {
        None
    }
}

fn clamp_exec(v: i32, hi: i32) -> (r: i32)
    ensures
        r == clamp(v as int, hi as int),
{
    let a = if v < 0 { 0 } else { v };
    if a < hi { a } else { hi }
}

/// The configured message region against the frame (see `pm_scan_spec`).
pub fn pm_scan_region(r: (i32, i32, i32, i32), fw: u32, fh: u32) -> (out: Option<((i32, i32, i32, i32), bool)>)
    requires
        fw <= i32::MAX,
        fh <= i32::MAX,
    ensures
        match out {
            Some((c, ok)) => pm_scan_spec(r, fw, fh) == Some(((c.0 as int, c.1 as int, c.2 as int, c.3 as int), ok)),
            None => pm_scan_spec(r, fw, fh) is None,
        },
{
    if !(r.2 > r.0 && r.3 > r.1) {
        return None;
    }
    let fwi = fw as i32;
    let fhi = fh as i32;
    let x1 = clamp_exec(r.0, fwi - 1);
    let y1 = clamp_exec(r.1, fhi - 1);
    let x2 = clamp_exec(r.2, fwi);
    let y2 = clamp_exec(r.3, fhi);
    let ok = (x2 as i64 - x1 as i64) >= 20 && (y2 as i64 - y1 as i64) >= 10;
    Some(((x1, y1, x2, y2), ok))
}

/// The message-icon search region against the frame: when it is set, the
/// clamped rectangle if it stays wider and taller than 5 pixels.
pub open spec fn icon_region_spec(r: (i32, i32, i32, i32), fw: u32, fh: u32) -> Option<(int, int, int, int)> {
    if r.2 > r.0 && r.3 > r.1 {
        let c = pm_region_clamped(r, fw, fh);
        if c.2 > c.0 + 5 && c.3 > c.1 + 5 {
            Some(c)
        } else {
            None
        }
    } else {
        None
    }
}

/// The message-icon search region (see `icon_region_spec`).
pub fn icon_search_region(r: (i32, i32, i32, i32), fw: u32, fh: u32) -> (out: Option<(i32, i32, i32, i32)>)
    requires
        fw <= i32::MAX,
        fh <= i32::MAX,
    ensures
        match out {
            Some(c) => icon_region_spec(r, fw, fh) == Some((c.0 as int, c.1 as int, c.2 as int, c.3 as int)),
            None => icon_region_spec(r, fw, fh) is None,
        },
{
    if !(r.2 > r.0 && r.3 > r.1) {
        return None;
    }
    let fwi = fw as i32;
    let fhi = fh as i32;
    let sx = clamp_exec(r.0, fwi - 1);
    let sy = clamp_exec(r.1, fhi - 1);
    let ex = clamp_exec(r.2, fwi);
    let ey = clamp_exec(r.3, fhi);
    if ex as i64 > sx as i64 + 5 && ey as i64 > sy as i64 + 5 {
        Some((sx, sy, ex, ey))
    } else {
        None
    }
}

/// Half the assumed size of the message window (280x200 pixels).
pub const PM_HALF_W: i32 = 140;
pub const PM_HALF_H: i32 = 100;

/// The message window around the centre where its template was found.
pub open spec fn pm_window_spec(cx: i32, cy: i32) -> (int, int, int, int) {
    (cx - 140, cy - 100, cx + 140, cy + 100)
}

/// The message window around a found centre (see `pm_window_spec`).
pub fn pm_window(cx: i32, cy: i32) -> (r: (i32, i32, i32, i32))
    requires
        i32::MIN + 140 <= cx <= i32::MAX - 140,
        i32::MIN + 100 <= cy <= i32::MAX - 100,
    ensures
        (r.0 as int, r.1 as int, r.2 as int, r.3 as int) == pm_window_spec(cx, cy),
{
    (cx - PM_HALF_W, cy - PM_HALF_H, cx + PM_HALF_W, cy + PM_HALF_H)
}

/// Where the message text is read inside a message window, against a
/// `fw` x `fh` frame: 15 pixels in from the left, 50 down from the top, at
/// least 100x50 before clipping to the frame; `None` unless the clipped area
/// is wider than 50 and taller than 20.
pub open spec fn message_crop_spec(w: (i32, i32, i32, i32), fw: u32, fh: u32) -> Option<PixelRect> {
    let x = if w.0 + 15 < 0 { 0int } else { w.0 + 15 };
    let y = if w.1 + 50 < 0 { 0int } else { w.1 + 50 };
    let cw = if w.2 - w.0 - 30 < 100 { 100int } else { w.2 - w.0 - 30 };
    let ch = if w.3 - w.1 - 70 < 50 { 50int } else { w.3 - w.1 - 70 };
    let mw = if cw < sat_sub(fw, x as u32) { cw } else { sat_sub(fw, x as u32) as int };
    let mh = if ch < sat_sub(fh, y as u32) { ch } else { sat_sub(fh, y as u32) as int };
    if mw > 50 && mh > 20 {
        Some((x as u32, y as u32, mw as u32, mh as u32))
    } else {
        None
    }
}

/// The message text area of a message window (see `message_crop_spec`).
pub fn message_crop(w: (i32, i32, i32, i32), fw: u32, fh: u32) -> (r: Option<PixelRect>)
    requires
        w.0 + 15 <= i32::MAX,
        w.1 + 50 <= i32::MAX,
        w.0 <= w.2,
        w.1 <= w.3,
        w.2 - w.0 <= i32::MAX,
        w.3 - w.1 <= i32::MAX,
    ensures
        r == message_crop_spec(w, fw, fh),
{
    let x: i32 = if w.0 + 15 < 0 { 0 } else { w.0 + 15 };
    let y: i32 = if w.1 + 50 < 0 { 0 } else { w.1 + 50 };
    let cw: i32 = if w.2 - w.0 - 30 < 100 { 100 } else { w.2 - w.0 - 30 };
    let ch: i32 = if w.3 - w.1 - 70 < 50 { 50 } else { w.3 - w.1 - 70 };
    let xu = x as u32;
    let yu = y as u32;
    let cwu = cw as u32;
    let chu = ch as u32;
    let mw = if cwu < fw.saturating_sub(xu) { cwu } else { fw.saturating_sub(xu) };
    let mh = if chu < fh.saturating_sub(yu) { chu } else { fh.saturating_sub(yu) };
    if mw > 50 && mh > 20 {
        Some((xu, yu, mw, mh))
    } else {
        None
    }
}

/// Where the reply box of a message window is clicked: the middle of its
/// bottom edge, 30 pixels up.
pub open spec fn reply_box_spec(w: (i32, i32, i32, i32)) -> (int, int) {
    (w.0 + (w.2 - w.0) / 2, w.3 - 30)
}

/// The reply box of a message window (see `reply_box_spec`).
pub fn reply_box_point(w: (i32, i32, i32, i32)) -> (r: (i32, i32))
    requires
        w.0 <= w.2,
        w.2 - w.0 <= i32::MAX,
        w.3 >= i32::MIN + 30,
    ensures
        (r.0 as int, r.1 as int) == reply_box_spec(w),
{
    (w.0 + (w.2 - w.0) / 2, w.3 - 30)
}

/// Where the close button of a message window is: 15 pixels in from the
/// top-right corner.
pub open spec fn close_button_spec(w: (i32, i32, i32, i32)) -> (int, int) {
    (w.2 - 15, w.1 + 15)
}

/// The close button of a message window (see `close_button_spec`).
pub fn close_button_point(w: (i32, i32, i32, i32)) -> (r: (i32, i32))
    requires
        w.2 >= i32::MIN + 15,
        w.1 <= i32::MAX - 15,
    ensures
        (r.0 as int, r.1 as int) == close_button_spec(w),
{
    (w.2 - 15, w.1 + 15)
}

/// The health-bar region: the configured one when its left edge is positive
/// and it is not empty, else the lock-marker region.
pub open spec fn hp_region_spec(hp: (i32, i32, i32, i32), lock: PixelRect) -> PixelRect {
    if hp.0 > 0 && hp.2 > hp.0 && hp.3 > hp.1 {
        (hp.0 as u32, hp.1 as u32, hp.2 as u32, hp.3 as u32)
    } else {
        lock
    }
}

/// The health-bar region (see `hp_region_spec`).
pub fn hp_region(hp: (i32, i32, i32, i32), lock: PixelRect) -> (r: PixelRect)
    ensures
        r == hp_region_spec(hp, lock),
{
    if hp.0 > 0 && hp.2 > hp.0 && hp.3 > hp.1 {
        (hp.0 as u32, hp.1 as u32, hp.2 as u32, hp.3 as u32)
    } else {
        lock
    }
}

} // verus!
