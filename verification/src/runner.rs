//! Decisions of the per-client bot loop: the stone-cutting cycle (search,
//! wait for the lock marker, cut), the miss list, the health-bar stall
//! detector and the timers between actions. The loop itself (capture,
//! detection, input) feeds observations in and performs what is decided.
//! Times are nanoseconds since the loop started.
use vstd::prelude::*;

verus! {

/// Delay after a click before the lock marker is checked.
pub const LOCK_CHECK_DELAY: u64 = 1_500_000_000;
/// Time after a click when a stone without lock counts as missed.
pub const LOCK_GIVE_UP: u64 = 3_000_000_000;
/// How long a missed stone is not retried.
pub const BLACKLIST_TTL: u64 = 15_000_000_000;
/// Distance (pixels, on each axis) within which a stone is taken for a listed one.
pub const BLACKLIST_RADIUS: i64 = 50;
/// How long the health bar may stay unchanged while cutting.
pub const HP_STUCK: u64 = 4_000_000_000;
/// Minimum time between two potions.
pub const POT_COOLDOWN: u64 = 3_000_000_000;
/// Minimum time between two item pickups.
pub const PICKUP_COOLDOWN: u64 = 500_000_000;
/// Minimum time between two camera moves while searching.
pub const CAMERA_COOLDOWN: u64 = 500_000_000;
/// Time between two small cursor moves of the anti-detection mode.
pub const MICRO_MOVE_INTERVAL: u64 = 3_000_000_000;

/// Time between two readings, zero when the second is earlier.
pub open spec fn since(earlier: u64, now: u64) -> int {
    if now >= earlier {
        now - earlier
    } else {
        0
    }
}

fn since_exec(earlier: u64, now: u64) -> (r: u64)
    ensures
        r == since(earlier, now),
{
    if now >= earlier { now - earlier } else { 0 }
}

/// Where the bot is in its cycle.
#[derive(Debug, Clone, Copy, PartialEq, Eq)]
pub enum BotState {
    /// Looking for a stone.
    Arama,
    /// A stone was clicked at `click_time`; waiting for the lock marker.
    KilitBekleniyor { click_time: u64, target_cx: i32, target_cy: i32 },
    /// Cutting the locked stone since `start_time`.
    Kesiyor { start_time: u64 },
    /// On a break.
    Mola { start_time: u64, duration: u64 },
    /// On a short human-like pause.
    HumanPause { start_time: u64, duration: u64 },
}

/// The moves of the cycle: a click turns searching into waiting for the
/// lock, the lock marker turns waiting into cutting, and every state may go
/// back to searching or into a pause; staying put is always allowed.
pub open spec fn cycle_move(a: BotState, b: BotState) -> bool {
    ||| a == b
    ||| b is Arama
    ||| b is Mola
    ||| b is HumanPause
    ||| (a is Arama && b is KilitBekleniyor)
    ||| (a is KilitBekleniyor && b is Kesiyor)
}

/// Cutting starts only after the lock marker was awaited for a clicked
/// stone, and waiting for a lock starts only from searching.
pub proof fn law_cut_follows_lock(a: BotState, b: BotState)
    requires
        cycle_move(a, b),
    ensures
        b is Kesiyor && !(a is Kesiyor) ==> a is KilitBekleniyor,
        b is KilitBekleniyor && a != b ==> a is Arama,
{
}

/// Name of a state as shown to the user.
pub open spec fn state_name_spec(s: BotState) -> Seq<char> {
    match s {
        BotState::Arama => "Taş Arıyor"@,
        BotState::KilitBekleniyor { .. } => "Kilit Bekleniyor"@,
        BotState::Kesiyor { .. } => "Taş Kesiliyor"@,
        BotState::Mola { .. } => "Mola"@,
        BotState::HumanPause { .. } => "İnsancıl Duraklama"@,
    }
}

impl BotState {
    /// Name of the state as shown to the user.
    pub fn state_name(&self) -> (r: &'static str)
        ensures
            r@ == state_name_spec(*self),
    {
        match self {
            BotState::Arama => "Taş Arıyor",
            BotState::KilitBekleniyor { .. } => "Kilit Bekleniyor",
            BotState::Kesiyor { .. } => "Taş Kesiliyor",
            BotState::Mola { .. } => "Mola",
            BotState::HumanPause { .. } => "İnsancıl Duraklama",
        }
    }
}

/// A missed stone: its centre and when it was missed.
pub type ListedStone = ((i32, i32), u64);

/// The entries of a miss list younger than `BLACKLIST_TTL` at `now`, in order.
pub open spec fn fresh_entries(s: Seq<ListedStone>, now: u64) -> Seq<ListedStone>
    decreases s.len(),
{
    if s.len() == 0 {
        s
    } else {
        let prev = fresh_entries(s.drop_last(), now);
        if since(s.last().1, now) < BLACKLIST_TTL {
            prev.push(s.last())
        } else {
            prev
        }
    }
}

/// Whether a stone centred at `(cx, cy)` is within the radius of entry `e`.
pub open spec fn near(e: ListedStone, cx: i32, cy: i32) -> bool {
    -BLACKLIST_RADIUS < e.0.0 - cx < BLACKLIST_RADIUS && -BLACKLIST_RADIUS < e.0.1 - cy < BLACKLIST_RADIUS
}

/// Whether a stone centred at `(cx, cy)` is within the radius of a listed one.
pub open spec fn near_listed(s: Seq<ListedStone>, cx: i32, cy: i32) -> bool {
    exists|i: int| 0 <= i < s.len() && near(#[trigger] s[i], cx, cy)
}

/// Index of the first candidate that is not near a listed stone and that
/// the learner does not reject, if any.
pub open spec fn first_target(bl: Seq<ListedStone>, c: Seq<(i32, i32, bool)>) -> Option<int> {
    if exists|i: int| 0 <= i < c.len() && !near_listed(bl, c[i].0, c[i].1) && c[i].2 {
        Some(choose|i: int|
            0 <= i < c.len() && !near_listed(bl, c[i].0, c[i].1) && c[i].2
                && forall|j: int| 0 <= j < i ==> near_listed(bl, c[j].0, c[j].1) || !c[j].2)
    } else {
        None
    }
}

/// Whether candidate `i` may be clicked: not near a listed stone, approved.
pub open spec fn clickable(bl: Seq<ListedStone>, c: Seq<(i32, i32, bool)>, i: int) -> bool {
    0 <= i < c.len() && !near_listed(bl, c[i].0, c[i].1) && c[i].2
}

proof fn lemma_first_clickable(bl: Seq<ListedStone>, c: Seq<(i32, i32, bool)>, k: int)
    requires
        clickable(bl, c, k),
    ensures
        exists|i: int| clickable(bl, c, i) && forall|j: int| 0 <= j < i ==> !clickable(bl, c, j),
    decreases k,
{
    if exists|j: int| 0 <= j < k && clickable(bl, c, j) {
        let j = choose|j: int| 0 <= j < k && clickable(bl, c, j);
        lemma_first_clickable(bl, c, j);
    } else {
        assert(forall|j: int| 0 <= j < k ==> !clickable(bl, c, j));
    }
}

/// The target picked among candidates is the first clickable one: it is not
/// near a listed stone, it is approved, and no earlier candidate is both.
pub proof fn law_target_is_first_clickable(bl: Seq<ListedStone>, c: Seq<(i32, i32, bool)>)
    ensures
        first_target(bl, c) matches Some(i) ==> clickable(bl, c, i)
            && forall|j: int| 0 <= j < i ==> !clickable(bl, c, j),
        first_target(bl, c) is None ==> forall|j: int| 0 <= j < c.len() ==> !clickable(bl, c, j),
{
    if exists|i: int| 0 <= i < c.len() && !near_listed(bl, c[i].0, c[i].1) && c[i].2 {
        let k = choose|i: int| 0 <= i < c.len() && !near_listed(bl, c[i].0, c[i].1) && c[i].2;
        lemma_first_clickable(bl, c, k);
        let m = choose|i: int| clickable(bl, c, i) && forall|j: int| 0 <= j < i ==> !clickable(bl, c, j);
        assert(0 <= m < c.len() && !near_listed(bl, c[m].0, c[m].1) && c[m].2
            && forall|j: int| 0 <= j < m ==> near_listed(bl, c[j].0, c[j].1) || !c[j].2) by {
            assert forall|j: int| 0 <= j < m implies near_listed(bl, c[j].0, c[j].1) || !c[j].2 by {
                assert(!clickable(bl, c, j));
            }
        }
        let i = first_target(bl, c)->0;
        assert forall|j: int| 0 <= j < i implies !clickable(bl, c, j) by {
            assert(near_listed(bl, c[j].0, c[j].1) || !c[j].2);
        }
    } else {
        assert forall|j: int| 0 <= j < c.len() implies !clickable(bl, c, j) by {
            if clickable(bl, c, j) {
                assert(0 <= j < c.len() && !near_listed(bl, c[j].0, c[j].1) && c[j].2);
            }
        }
    }
}

/// The miss list keeps exactly the entries younger than `BLACKLIST_TTL`:
/// every kept entry is young, every young entry is kept, in order.
pub proof fn law_fresh_entries_exact(s: Seq<ListedStone>, now: u64)
    ensures
        fresh_entries(s, now) == s.filter(|e: ListedStone| since(e.1, now) < BLACKLIST_TTL),
        forall|i: int| 0 <= i < fresh_entries(s, now).len() ==> since(#[trigger] fresh_entries(s, now)[i].1, now) < BLACKLIST_TTL,
        fresh_entries(s, now).len() <= s.len(),
    decreases s.len(),
{
    let f = |e: ListedStone| since(e.1, now) < BLACKLIST_TTL;
    if s.len() > 0 {
        law_fresh_entries_exact(s.drop_last(), now);
        assert(s =~= s.drop_last().push(s.last()));
        s.drop_last().lemma_filter_push(s.last(), f);
        reveal(Seq::filter);
    } else {
        assert(s.filter(f) =~= s) by {
            reveal(Seq::filter);
        }
    }
    broadcast use vstd::seq_lib::group_filter_ensures;
    assert(forall|i: int| 0 <= i < s.filter(f).len() ==> f(#[trigger] s.filter(f)[i]));
}

/// A stone missed at `t` is not clicked again while it is younger than
/// `BLACKLIST_TTL`: after the miss list is pruned at `now`, the stone's own
/// position is listed and no picked candidate lies near it. Once
/// `BLACKLIST_TTL` has passed, pruning forgets it.
pub proof fn law_missed_stone_not_retried(
    bl: Seq<ListedStone>,
    target: (i32, i32),
    t: u64,
    now: u64,
    c: Seq<(i32, i32, bool)>,
)
    ensures
        since(t, now) < BLACKLIST_TTL ==> {
            let kept = fresh_entries(bl.push((target, t)), now);
            &&& near_listed(kept, target.0, target.1)
            &&& first_target(kept, c) matches Some(i) ==> !near((target, t), c[i].0, c[i].1)
        },
        since(t, now) >= BLACKLIST_TTL ==> fresh_entries(bl.push((target, t)), now) == fresh_entries(bl, now),
{
    let s = bl.push((target, t));
    assert(s.drop_last() =~= bl);
    let kept = fresh_entries(s, now);
    if since(t, now) < BLACKLIST_TTL {
        let k = kept.len() - 1;
        assert(kept[k] == (target, t));
        assert(near(kept[k], target.0, target.1));
        law_target_is_first_clickable(kept, c);
        if first_target(kept, c) is Some {
            let i = first_target(kept, c)->0;
            assert(clickable(kept, c, i));
            if near((target, t), c[i].0, c[i].1) {
                assert(near(kept[k], c[i].0, c[i].1));
                assert(near_listed(kept, c[i].0, c[i].1));
            }
        }
    }
}

/// A statistics counter after one more event: one up, wrapping to 0 past
/// `u32::MAX` as the release build's `+= 1` does.
pub open spec fn next_count(x: u32) -> u32 {
    if x == u32::MAX { 0 } else { (x + 1) as u32 }
}

pub(crate) fn next_count_exec(x: u32) -> (r: u32)
    ensures
        r == next_count(x),
{
    x.wrapping_add(1)
}

/// A stone whose lock marker does not show is missed once `LOCK_GIVE_UP`
/// has passed since its click: checks in between keep waiting; the miss
/// counts one, lists the stone's centre and resumes searching; and while
/// the listing is younger than `BLACKLIST_TTL`, no target picked after
/// pruning lies near that centre.
pub proof fn law_unlocked_stone_missed(
    o: RunnerCore,
    f: RunnerCore,
    now: u64,
    r: LockOutcome,
    later: u64,
    c: Seq<(i32, i32, bool)>,
)
    requires
        o.state is KilitBekleniyor,
        lock_checked(o, f, now, false, r),
    ensures
        LOCK_CHECK_DELAY <= since(o.state->click_time, now) < LOCK_GIVE_UP ==> r == LockOutcome::Waiting && f == o,
        since(o.state->click_time, now) >= LOCK_GIVE_UP ==> {
            let target = (o.state->target_cx, o.state->target_cy);
            &&& r == LockOutcome::Missed
            &&& f.stones_missed == next_count(o.stones_missed)
            &&& f.state == BotState::Arama
            &&& f.blacklist@ == o.blacklist@.push((target, now))
            &&& since(now, later) < BLACKLIST_TTL ==> (first_target(fresh_entries(f.blacklist@, later), c) matches Some(i)
                ==> !near((target, now), c[i].0, c[i].1))
        },
{
    if since(o.state->click_time, now) >= LOCK_GIVE_UP {
        law_missed_stone_not_retried(o.blacklist@, (o.state->target_cx, o.state->target_cy), now, later, c);
    }
}

/// How a detected stone is marked on the radar.
#[derive(Debug, Clone, Copy, PartialEq, Eq, Structural)]
pub enum RadarPointType {
    Stone,
    BlacklistedStone,
    TargetStone,
}

/// What the lock check decided.
#[derive(Debug, Clone, Copy, PartialEq, Eq)]
pub enum LockOutcome {
    /// Keep waiting.
    Waiting,
    /// The marker appeared: cutting starts.
    Locked,
    /// No marker in time: the stone is missed and listed.
    Missed,
}

/// What the health-bar tracker saw.
#[derive(Debug, Clone, Copy, PartialEq, Eq)]
pub enum HpVerdict {
    /// Too little red to track, or nothing new.
    Idle,
    /// Tracking started.
    Started,
    /// The bar moved; tracking restarts.
    Changed,
    /// The bar did not move for `HP_STUCK`: the stone is given up.
    Stagnant,
}

/// Observable state of the bot loop.
pub struct RunnerCore {
    pub state: BotState,
    pub stones_mined: u32,
    pub stones_missed: u32,
    pub captcha_solved: u32,
    pub blacklist: Vec<ListedStone>,
    pub last_seen_stone_pos: Option<(i32, i32)>,
    pub hp_check_start: Option<u64>,
    pub last_hp_red_count: i32,
    pub last_attack_time: u64,
    pub last_camera_move: u64,
    pub last_item_pickup: u64,
    pub last_pot_time: u64,
    pub last_micro_move: u64,
}

/// What a cutting frame asks the host to do, in order.
#[derive(Debug, Clone, Copy, PartialEq, Eq, Structural)]
pub enum CutAction {
    /// The stone broke: report it.
    Broke,
    /// Press the pickup key.
    PickUp,
    /// Move the cursor a little (anti-detection).
    Nudge,
    /// Wait a random delay.
    Delay,
    /// Walk away from an obstacle.
    Escape,
    /// Take a potion.
    Potion,
}

/// The settings a cutting frame reads.
#[derive(Debug, Clone, Copy, PartialEq, Eq, Structural)]
pub struct CutSettings {
    pub pickup: bool,
    pub anti_detect: bool,
    pub random_delay: bool,
    pub auto_pot: bool,
}

/// Whether a health-bar sample of `red` pixels at `now` finds the bar stuck
/// (see `on_hp_sample`): tracked for `HP_STUCK` with a change of at most one
/// pixel.
pub open spec fn hp_stuck(o: RunnerCore, red: i32, now: u64) -> bool {
    &&& red > 1
    &&& o.hp_check_start matches Some(start)
    &&& since(start, now) >= HP_STUCK
    &&& -1 <= o.last_hp_red_count - red <= 1
}

/// The actions of a cutting frame of runner `o` at `now`, given whether the
/// lock marker shows, the red pixels of the health bars and whether the
/// health is under the potion threshold. When the marker is gone the stone
/// broke, then the pickup key is pressed when enabled and due. Otherwise:
/// the anti-detection nudge when enabled and due, the random delay when
/// enabled, then an escape when the health bar is stuck, or else a potion
/// when enabled, due and the health is low.
pub open spec fn cut_plan(o: RunnerCore, now: u64, locked: bool, red: i32, hp_low: bool, s: CutSettings) -> Seq<CutAction> {
    if !locked {
        seq![CutAction::Broke] + if s.pickup && since(o.last_item_pickup, now) >= PICKUP_COOLDOWN {
            seq![CutAction::PickUp]
        } else {
            Seq::<CutAction>::empty()
        }
    } else {
        (if s.anti_detect && since(o.last_micro_move, now) >= MICRO_MOVE_INTERVAL {
            seq![CutAction::Nudge]
        } else {
            Seq::<CutAction>::empty()
        }) + (if s.random_delay { seq![CutAction::Delay] } else { Seq::<CutAction>::empty() }) + if hp_stuck(o, red, now) {
            seq![CutAction::Escape]
        } else if s.auto_pot && since(o.last_pot_time, now) >= POT_COOLDOWN && hp_low {
            seq![CutAction::Potion]
        } else {
            Seq::<CutAction>::empty()
        }
    }
}

/// What a check of the lock marker at `now` does to a runner `o` waiting
/// for a lock: it becomes `f` and answers `r`. Before `LOCK_CHECK_DELAY`
/// nothing happens; a lock that shows starts cutting; no lock after
/// `LOCK_GIVE_UP` misses the stone: it is counted and listed at `now` and
/// searching resumes; no lock before that keeps waiting.
pub open spec fn lock_checked(o: RunnerCore, f: RunnerCore, now: u64, locked: bool, r: LockOutcome) -> bool {
    let click = o.state->click_time;
    let target = (o.state->target_cx, o.state->target_cy);
    if since(click, now) < LOCK_CHECK_DELAY {
        r == LockOutcome::Waiting && f == o
    } else if locked {
        r == LockOutcome::Locked && f == (RunnerCore {
            state: BotState::Kesiyor { start_time: now },
            ..o
        })
    } else if since(click, now) >= LOCK_GIVE_UP {
        &&& r == LockOutcome::Missed
        &&& f.blacklist@ == o.blacklist@.push((target, now))
        &&& f == (RunnerCore {
            state: BotState::Arama,
            stones_missed: next_count(o.stones_missed),
            blacklist: f.blacklist,
            ..o
        })
    } else {
        r == LockOutcome::Waiting && f == o
    }
}

impl RunnerCore {
    /// A loop that starts searching at time 0 with empty counters.
    pub fn new() -> (r: Self)
        ensures
            r.state == BotState::Arama,
            r.stones_mined == 0,
            r.stones_missed == 0,
            r.captcha_solved == 0,
            r.blacklist@.len() == 0,
            r.last_seen_stone_pos is None,
            r.hp_check_start is None,
            r.last_hp_red_count == 0,
            r.last_attack_time == 0,
            r.last_camera_move == 0,
            r.last_item_pickup == 0,
            r.last_pot_time == 0,
            r.last_micro_move == 0,
    {
        RunnerCore {
            state: BotState::Arama,
            stones_mined: 0,
            stones_missed: 0,
            captcha_solved: 0,
            blacklist: Vec::new(),
            last_seen_stone_pos: None,
            hp_check_start: None,
            last_hp_red_count: 0,
            last_attack_time: 0,
            last_camera_move: 0,
            last_item_pickup: 0,
            last_pot_time: 0,
            last_micro_move: 0,
        }
    }

    /// Drops the listed stones that are `BLACKLIST_TTL` old at `now`.
    pub fn prune_blacklist(&mut self, now: u64)
        ensures
            final(self).blacklist@ == fresh_entries(old(self).blacklist@, now),
            final(self).state == old(self).state,
            final(self).stones_mined == old(self).stones_mined,
            final(self).stones_missed == old(self).stones_missed,
            final(self).captcha_solved == old(self).captcha_solved,
            final(self).last_seen_stone_pos == old(self).last_seen_stone_pos,
            final(self).hp_check_start == old(self).hp_check_start,
            final(self).last_hp_red_count == old(self).last_hp_red_count,
            final(self).last_attack_time == old(self).last_attack_time,
            final(self).last_camera_move == old(self).last_camera_move,
            final(self).last_item_pickup == old(self).last_item_pickup,
            final(self).last_pot_time == old(self).last_pot_time,
            final(self).last_micro_move == old(self).last_micro_move,
    {
        let mut kept: Vec<ListedStone> = Vec::new();
        let mut i: usize = 0;
        let ghost s = self.blacklist@;
        assert(s.take(0) =~= Seq::<ListedStone>::empty());
        while i < self.blacklist.len()
            invariant
                i <= s.len(),
                s == self.blacklist@,
                kept@ == fresh_entries(s.take(i as int), now),
            decreases s.len() - i,
        {
            assert(s.take(i + 1).drop_last() =~= s.take(i as int));
            let e = self.blacklist[i];
            if since_exec(e.1, now) < BLACKLIST_TTL {
                kept.push(e);
            }
            i = i + 1;
        }
        assert(s.take(s.len() as int) =~= s);
        self.blacklist = kept;
    }

    /// Whether a stone centred at `(cx, cy)` is near a listed one.
    pub fn is_blacklisted(&self, cx: i32, cy: i32) -> (r: bool)
        ensures
            r == near_listed(self.blacklist@, cx, cy),
    {
        let mut i: usize = 0;
        while i < self.blacklist.len()
            invariant
                i <= self.blacklist@.len(),
                forall|j: int| 0 <= j < i ==> !near(#[trigger] self.blacklist@[j], cx, cy),
            decreases self.blacklist@.len() - i,
        {
            let ((bx, by), _) = self.blacklist[i];
            let dx = bx as i64 - cx as i64;
            let dy = by as i64 - cy as i64;
            if -BLACKLIST_RADIUS < dx && dx < BLACKLIST_RADIUS && -BLACKLIST_RADIUS < dy && dy < BLACKLIST_RADIUS {
                return true;
            }
            i = i + 1;
        }
        false
    }

    /// The radar mark of a detected stone centred at `(cx, cy)`: listed
    /// when it is near a missed stone.
    pub fn radar_point_type(&self, cx: i32, cy: i32) -> (r: RadarPointType)
        ensures
            r == (if near_listed(self.blacklist@, cx, cy) { RadarPointType::BlacklistedStone } else { RadarPointType::Stone }),
    {
        if self.is_blacklisted(cx, cy) {
            RadarPointType::BlacklistedStone
        } else {
            RadarPointType::Stone
        }
    }

    /// The stone to click among candidate centres, each with the learner's
    /// approval: the first that is not near a listed stone and is approved.
    pub fn pick_target(&self, candidates: &Vec<(i32, i32, bool)>) -> (r: Option<usize>)
        ensures
            match r {
                Some(i) => first_target(self.blacklist@, candidates@) == Some(i as int),
                None => first_target(self.blacklist@, candidates@) is None,
            },
    {
        let mut i: usize = 0;
        while i < candidates.len()
            invariant
                i <= candidates@.len(),
                forall|j: int| 0 <= j < i ==> near_listed(self.blacklist@, candidates@[j].0, candidates@[j].1) || !candidates@[j].2,
            decreases candidates@.len() - i,
        {
            let (cx, cy, ok) = candidates[i];
            if !self.is_blacklisted(cx, cy) && ok {
                let ghost c = choose|c: int|
                    0 <= c < candidates@.len() && !near_listed(self.blacklist@, candidates@[c].0, candidates@[c].1) && candidates@[c].2
                        && forall|j: int| 0 <= j < c ==> near_listed(self.blacklist@, candidates@[j].0, candidates@[j].1) || !candidates@[j].2;
                assert(c == i as int) by {
                    if c < i as int {
                    } else if c > i as int {
                    }
                }
                return Some(i);
            }
            i = i + 1;
        }
        None
    }

    /// Whether the attack cooldown (milliseconds) has passed since the last click.
    pub fn attack_ready(&self, now: u64, cooldown_ms: u64) -> (r: bool)
        ensures
            r == (since(self.last_attack_time, now) >= cooldown_ms * 1_000_000),
    {
        let e = since_exec(self.last_attack_time, now);
        let r = e / 1_000_000 >= cooldown_ms;
        proof {
            if r {
                assert(e >= cooldown_ms * 1_000_000) by (nonlinear_arith)
                    requires e / 1_000_000 >= cooldown_ms;
            } else {
                assert(e < cooldown_ms * 1_000_000) by (nonlinear_arith)
                    requires e / 1_000_000 < cooldown_ms;
            }
        }
        r
    }

    /// Whether the camera may be turned again while searching.
    pub fn camera_ready(&self, now: u64) -> (r: bool)
        ensures
            r == (since(self.last_camera_move, now) >= CAMERA_COOLDOWN),
    {
        since_exec(self.last_camera_move, now) >= CAMERA_COOLDOWN
    }

    /// Notes a camera move at `now`.
    pub fn on_camera_moved(&mut self, now: u64)
        ensures
            *final(self) == (RunnerCore { last_camera_move: now, ..*old(self) }),
    {
        self.last_camera_move = now;
    }

    /// A stone centred at `(cx, cy)` was clicked at `now`: wait for its lock.
    pub fn on_stone_clicked(&mut self, now: u64, cx: i32, cy: i32)
        requires
            old(self).state is Arama,
        ensures
            cycle_move(old(self).state, final(self).state),
            *final(self) == (RunnerCore {
                state: BotState::KilitBekleniyor { click_time: now, target_cx: cx, target_cy: cy },
                last_seen_stone_pos: Some((cx, cy)),
                last_attack_time: now,
                ..*old(self)
            }),
    {
        self.last_seen_stone_pos = Some((cx, cy));
        self.last_attack_time = now;
        self.state = BotState::KilitBekleniyor { click_time: now, target_cx: cx, target_cy: cy };
    }

    /// Whether the lock marker is due to be checked (1.5 s after the click).
    pub fn lock_check_due(&self, now: u64) -> (r: bool)
        ensures
            r == (self.state matches BotState::KilitBekleniyor { click_time, .. } && since(click_time, now) >= LOCK_CHECK_DELAY),
    {
        match self.state {
            BotState::KilitBekleniyor { click_time, .. } => since_exec(click_time, now) >= LOCK_CHECK_DELAY,
            _ => false,
        }
    }

    /// The lock marker was checked at `now` (due per `lock_check_due`): when
    /// it shows, cutting starts; when it does not and 3 s have passed since
    /// the click, the stone is missed, counted and listed.
    pub fn on_lock_checked(&mut self, now: u64, locked: bool) -> (r: LockOutcome)
        requires
            old(self).state is KilitBekleniyor,
        ensures
            cycle_move(old(self).state, final(self).state),
            lock_checked(*old(self), *final(self), now, locked, r),
    {
        if let BotState::KilitBekleniyor { click_time, target_cx, target_cy } = self.state {
            let e = since_exec(click_time, now);
            if e < LOCK_CHECK_DELAY {
                return LockOutcome::Waiting;
            }
            if locked {
                self.state = BotState::Kesiyor { start_time: now };
                return LockOutcome::Locked;
            }
            if e >= LOCK_GIVE_UP {
                self.stones_missed = next_count_exec(self.stones_missed);
                self.blacklist.push(((target_cx, target_cy), now));
                self.state = BotState::Arama;
                return LockOutcome::Missed;
            }
            LockOutcome::Waiting
        } else {
            LockOutcome::Waiting
        }
    }

    /// One frame while cutting: when the lock marker is gone the stone broke;
    /// it is counted, health tracking is reset and searching resumes.
    pub fn on_cutting_frame(&mut self, locked: bool) -> (broke: bool)
        requires
            old(self).state is Kesiyor,
        ensures
            cycle_move(old(self).state, final(self).state),
            broke == !locked,
            broke ==> *final(self) == (RunnerCore {
                state: BotState::Arama,
                stones_mined: next_count(old(self).stones_mined),
                hp_check_start: None,
                last_hp_red_count: 0,
                ..*old(self)
            }),
            !broke ==> *final(self) == *old(self),
    {
        if !locked {
            self.stones_mined = next_count_exec(self.stones_mined);
            self.hp_check_start = None;
            self.last_hp_red_count = 0;
            self.state = BotState::Arama;
            true
        } else {
            false
        }
    }

    /// Whether items may be picked up again (0.5 s since the last pickup).
    pub fn pickup_ready(&self, now: u64) -> (r: bool)
        ensures
            r == (since(self.last_item_pickup, now) >= PICKUP_COOLDOWN),
    {
        since_exec(self.last_item_pickup, now) >= PICKUP_COOLDOWN
    }

    /// Notes an item pickup at `now`.
    pub fn on_pickup(&mut self, now: u64)
        ensures
            *final(self) == (RunnerCore { last_item_pickup: now, ..*old(self) }),
    {
        self.last_item_pickup = now;
    }

    /// One health-bar sample while cutting: `red` pixels counted on the
    /// stones at `now`. Tracking starts when more than one red pixel is seen;
    /// a change of more than one pixel restarts it; no such change for
    /// `HP_STUCK` gives the stone up: the last clicked stone is listed and
    /// searching resumes.
    pub fn on_hp_sample(&mut self, red: i32, now: u64) -> (v: HpVerdict)
        requires
            old(self).state is Kesiyor,
        ensures
            cycle_move(old(self).state, final(self).state),
            red <= 1 ==> v == HpVerdict::Idle && *final(self) == *old(self),
            red > 1 ==> match old(self).hp_check_start {
                None => v == HpVerdict::Started && *final(self) == (RunnerCore {
                    hp_check_start: Some(now),
                    last_hp_red_count: red,
                    ..*old(self)
                }),
                Some(start) => {
                    let change = if old(self).last_hp_red_count - red >= 0 {
                        old(self).last_hp_red_count - red
                    } else {
                        red - old(self).last_hp_red_count
                    };
                    if since(start, now) >= HP_STUCK && change <= 1 {
                        &&& v == HpVerdict::Stagnant
                        &&& final(self).blacklist@ == match old(self).last_seen_stone_pos {
                            Some(p) => old(self).blacklist@.push((p, now)),
                            None => old(self).blacklist@,
                        }
                        &&& *final(self) == (RunnerCore {
                            state: BotState::Arama,
                            hp_check_start: None,
                            last_hp_red_count: 0,
                            blacklist: final(self).blacklist,
                            ..*old(self)
                        })
                    } else if change > 1 {
                        v == HpVerdict::Changed && *final(self) == (RunnerCore {
                            hp_check_start: Some(now),
                            last_hp_red_count: red,
                            ..*old(self)
                        })
                    } else {
                        v == HpVerdict::Idle && *final(self) == *old(self)
                    }
                },
            },
    {
        if red <= 1 {
            return HpVerdict::Idle;
        }
        match self.hp_check_start {
            None => {
                self.hp_check_start = Some(now);
                self.last_hp_red_count = red;
                HpVerdict::Started
            },
            Some(start) => {
                let d = self.last_hp_red_count as i64 - red as i64;
                let change = if d >= 0 { d } else { -d };
                if since_exec(start, now) >= HP_STUCK && change <= 1 {
                    if let Some(p) = self.last_seen_stone_pos {
                        self.blacklist.push((p, now));
                    }
                    self.hp_check_start = None;
                    self.last_hp_red_count = 0;
                    self.state = BotState::Arama;
                    HpVerdict::Stagnant
                } else if change > 1 {
                    self.hp_check_start = Some(now);
                    self.last_hp_red_count = red;
                    HpVerdict::Changed
                } else {
                    HpVerdict::Idle
                }
            },
        }
    }

    /// Whether a potion may be taken again (3 s since the last one).
    pub fn pot_ready(&self, now: u64) -> (r: bool)
        ensures
            r == (since(self.last_pot_time, now) >= POT_COOLDOWN),
    {
        since_exec(self.last_pot_time, now) >= POT_COOLDOWN
    }

    /// Whether the anti-detection mode moves the cursor a little again
    /// (3 s since the last such move).
    pub fn micro_move_due(&self, now: u64) -> (r: bool)
        ensures
            r == (since(self.last_micro_move, now) >= MICRO_MOVE_INTERVAL),
    {
        since_exec(self.last_micro_move, now) >= MICRO_MOVE_INTERVAL
    }

    /// Notes a small cursor move at `now`.
    pub fn on_micro_move(&mut self, now: u64)
        ensures
            *final(self) == (RunnerCore { last_micro_move: now, ..*old(self) }),
    {
        self.last_micro_move = now;
    }

    /// Notes a potion taken at `now`.
    pub fn on_pot(&mut self, now: u64)
        ensures
            *final(self) == (RunnerCore { last_pot_time: now, ..*old(self) }),
    {
        self.last_pot_time = now;
    }

    /// End of a cutting frame when the potion check did not run (potions off
    /// or not due): health tracking, if started, is reset.
    pub fn on_pot_skipped(&mut self)
        ensures
            old(self).hp_check_start is Some ==> *final(self) == (RunnerCore {
                hp_check_start: None,
                last_hp_red_count: 0,
                ..*old(self)
            }),
            old(self).hp_check_start is None ==> *final(self) == *old(self),
    {
        if self.hp_check_start.is_some() {
            self.hp_check_start = None;
            self.last_hp_red_count = 0;
        }
    }

    /// A captcha was handled: counted when solved; searching resumes with
    /// an empty miss list.
    pub fn on_captcha_handled(&mut self, solved: bool)
        ensures
            cycle_move(old(self).state, final(self).state),
            final(self).blacklist@.len() == 0,
            *final(self) == (RunnerCore {
                state: BotState::Arama,
                captcha_solved: if solved { next_count(old(self).captcha_solved) } else { old(self).captcha_solved },
                blacklist: final(self).blacklist,
                ..*old(self)
            }),
    {
        if solved {
            self.captcha_solved = next_count_exec(self.captcha_solved);
        }
        self.state = BotState::Arama;
        self.blacklist = Vec::new();
    }

    /// One cutting frame at `now` (see `cut_plan`): the steps
    /// `on_cutting_frame`, `on_pickup`, `on_micro_move`, `on_hp_sample`,
    /// `on_pot` and `on_pot_skipped` in that order, as the actions planned
    /// call for them.
    pub fn cut_frame(&mut self, now: u64, locked: bool, red: i32, hp_low: bool, s: CutSettings) -> (plan: Vec<CutAction>)
        requires
            old(self).state is Kesiyor,
        ensures
            plan@ == cut_plan(*old(self), now, locked, red, hp_low, s),
            cycle_move(old(self).state, final(self).state),
            final(self).state == (if !locked || hp_stuck(*old(self), red, now) { BotState::Arama } else { old(self).state }),
            final(self).stones_mined == (if !locked { next_count(old(self).stones_mined) } else { old(self).stones_mined }),
            final(self).stones_missed == old(self).stones_missed,
            final(self).last_item_pickup == (if !locked && s.pickup && since(old(self).last_item_pickup, now) >= PICKUP_COOLDOWN {
                now
            } else {
                old(self).last_item_pickup
            }),
            final(self).last_micro_move == (if locked && s.anti_detect && since(old(self).last_micro_move, now) >= MICRO_MOVE_INTERVAL {
                now
            } else {
                old(self).last_micro_move
            }),
            final(self).last_pot_time == (if locked && !hp_stuck(*old(self), red, now) && s.auto_pot
                && since(old(self).last_pot_time, now) >= POT_COOLDOWN && hp_low {
                now
            } else {
                old(self).last_pot_time
            }),
    {
        let ghost o = *self;
        let mut plan: Vec<CutAction> = Vec::new();
        if self.on_cutting_frame(locked) {
            plan.push(CutAction::Broke);
            if s.pickup && self.pickup_ready(now) {
                self.on_pickup(now);
                plan.push(CutAction::PickUp);
                assert(plan@ =~= seq![CutAction::Broke, CutAction::PickUp]);
            } else {
                assert(plan@ =~= seq![CutAction::Broke]);
            }
            assert(cut_plan(o, now, locked, red, hp_low, s) =~= plan@);
            return plan;
        }
        if s.anti_detect && self.micro_move_due(now) {
            self.on_micro_move(now);
            plan.push(CutAction::Nudge);
        }
        let ghost nudged = plan@;
        if s.random_delay {
            plan.push(CutAction::Delay);
        }
        let ghost delayed = plan@;
        assert(hp_stuck(*self, red, now) == hp_stuck(o, red, now));
        let v = self.on_hp_sample(red, now);
        if let HpVerdict::Stagnant = v {
            plan.push(CutAction::Escape);
            assert(plan@ =~= delayed + seq![CutAction::Escape]);
            assert(cut_plan(o, now, locked, red, hp_low, s) =~= plan@);
            return plan;
        }
        if s.auto_pot && self.pot_ready(now) {
            if hp_low {
                self.on_pot(now);
                plan.push(CutAction::Potion);
            }
        } else {
            self.on_pot_skipped();
        }
        assert(cut_plan(o, now, locked, red, hp_low, s) =~= plan@);
        plan
    }

    /// Respawn after death is complete: searching resumes with an empty
    /// miss list.
    pub fn on_respawned(&mut self)
        ensures
            cycle_move(old(self).state, final(self).state),
            final(self).blacklist@.len() == 0,
            *final(self) == (RunnerCore { state: BotState::Arama, blacklist: final(self).blacklist, ..*old(self) }),
    {
        self.state = BotState::Arama;
        self.blacklist = Vec::new();
    }
}

} // verus!
