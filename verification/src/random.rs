//! Random choices of the bot loop: pause lengths, camera turns, walking
//! steps, pickup presses and click delays.
use vstd::prelude::*;
use rand::Rng;

verus! {

/// `rand::thread_rng().gen_range(lo..=hi)`. Claims only that the value lies
/// in the range, as the crate documents; it depends on chance.
#[verifier::external_body]
pub(crate) fn random_in(lo: u64, hi: u64) -> (r: u64)
    requires
        lo <= hi,
    ensures
        lo <= r <= hi,
{
    rand::thread_rng().gen_range(lo..=hi)
}

/// The cursor offset for a draw `d` of 0 to 6: `d - 3` pixels.
pub open spec fn micro_of_spec(d: u64) -> int {
    d - 3
}

/// The cursor offset for a draw (see `micro_of_spec`).
pub fn micro_of(d: u64) -> (r: i32)
    requires
        d <= 6,
    ensures
        r == micro_of_spec(d),
{
    d as i32 - 3
}

/// A small cursor offset of the anti-detection mode: up to 3 pixels on
/// each axis, either way, each axis drawn from 0 to 6 (see `micro_of`).
pub fn micro_offset() -> (r: (i32, i32))
    ensures
        exists|dx: u64, dy: u64| dx <= 6 && dy <= 6 && r.0 == #[trigger] micro_of_spec(dx) && r.1 == #[trigger] micro_of_spec(dy),
{
    let a = random_in(0, 6);
    let b = random_in(0, 6);
    let r = (micro_of(a), micro_of(b));
    assert(a <= 6 && b <= 6 && r.0 == micro_of_spec(a) && r.1 == micro_of_spec(b));
    r
}

/// The escape direction of a draw `d` of 0 to 3: W, A, S, D in turn.
pub open spec fn escape_key_spec(d: u64) -> (char, u16) {
    if d == 0 {
        ('W', 0x57u16)
    } else if d == 1 {
        ('A', 0x41u16)
    } else if d == 2 {
        ('S', 0x53u16)
    } else {
        ('D', 0x44u16)
    }
}

/// The escape direction of a draw (see `escape_key_spec`).
pub fn escape_key(d: u64) -> (r: (char, u16))
    requires
        d <= 3,
    ensures
        r == escape_key_spec(d),
{
    if d == 0 {
        ('W', 0x57)
    } else if d == 1 {
        ('A', 0x41)
    } else if d == 2 {
        ('S', 0x53)
    } else {
        ('D', 0x44)
    }
}

/// The direction key of an escape move when the bot is stuck on a stone:
/// W, A, S or D by a draw of 0 to 3 (see `escape_key_spec`).
pub fn escape_step() -> (r: (char, u16))
    ensures
        exists|d: u64| d <= 3 && r == escape_key_spec(d),
{
    let d = random_in(0, 3);
    escape_key(d)
}

/// Length of a human-like pause, 10 to 30 seconds.
pub fn human_pause_secs() -> (r: u64)
    ensures
        10 <= r <= 30,
{
    random_in(10, 30)
}

/// Time until the next human-like pause, 300 to 599 seconds.
pub fn next_pause_secs() -> (r: u64)
    ensures
        300 <= r < 600,
{
    random_in(300, 599)
}

/// The camera key of a draw `d` of 0 or 1: Q (0x51) for 0, E (0x45) for 1.
pub open spec fn camera_key_spec(d: u64) -> u16 {
    if d == 0 { 0x51u16 } else { 0x45u16 }
}

/// The camera key of a draw (see `camera_key_spec`).
pub fn camera_key(d: u64) -> (r: u16)
    requires
        d <= 1,
    ensures
        r == camera_key_spec(d),
{
    if d == 0 { 0x51 } else { 0x45 }
}

/// A camera turn of `ms` milliseconds: Q or E by a draw of 0 or 1 (see
/// `camera_key_spec`).
pub fn camera_turn(ms: u64) -> (r: (u16, u64))
    ensures
        exists|d: u64| d <= 1 && r == (camera_key_spec(d), ms),
{
    let d = random_in(0, 1);
    (camera_key(d), ms)
}

/// The walking step of a draw `d` of 0 or 1: W (0x57) for 1000 ms for 0,
/// S (0x53) for 800 ms for 1.
pub open spec fn walk_of_spec(d: u64) -> (char, u16, u64) {
    if d == 0 { ('W', 0x57u16, 1000u64) } else { ('S', 0x53u16, 800u64) }
}

/// The walking step of a draw (see `walk_of_spec`).
pub fn walk_of(d: u64) -> (r: (char, u16, u64))
    requires
        d <= 1,
    ensures
        r == walk_of_spec(d),
{
    if d == 0 { ('W', 0x57, 1000) } else { ('S', 0x53, 800) }
}

/// A walking step when no stone is seen: by a draw of 0 or 1 (see
/// `walk_of_spec`).
pub fn walk_step() -> (r: (char, u16, u64))
    ensures
        exists|d: u64| d <= 1 && r == walk_of_spec(d),
{
    let d = random_in(0, 1);
    walk_of(d)
}

/// How often the pickup key is pressed after a stone breaks: 3 to 5 times.
pub fn pickup_presses() -> (r: u64)
    ensures
        3 <= r <= 5,
{
    random_in(3, 5)
}

/// Wait between two pickup presses: 150 to 300 ms.
pub fn pickup_wait_ms() -> (r: u64)
    ensures
        150 <= r <= 300,
{
    random_in(150, 300)
}

/// Random delay while cutting, between the configured bounds (ms).
pub fn click_delay_ms(min: u32, max: u32) -> (r: u64)
    requires
        min <= max,
    ensures
        min <= r <= max,
{
    random_in(min as u64, max as u64)
}

/// Index of a camera key among `n` enabled ones, by chance.
pub fn pick_index(n: usize) -> (r: usize)
    requires
        n > 0,
    ensures
        r < n,
{
    random_in(0, (n - 1) as u64) as usize
}

} // verus!
