//! Timed phases of a client runner: work breaks, short human-like pauses,
//! the respawn sequence after death, the captcha guard and the blinking
//! message-icon confirmation. Times are nanoseconds since the loop started.
use vstd::prelude::*;
use crate::runner::{BotState, since, cycle_move};

verus! {

/// One second, in nanoseconds.
pub const SEC: u64 = 1_000_000_000;

fn since_exec(earlier: u64, now: u64) -> (r: u64)
    ensures
        r == since(earlier, now),
{
    if now >= earlier { now - earlier } else { 0 }
}

/// Phase of the break system.
#[derive(Debug, Clone, Copy, PartialEq, Eq)]
pub enum MolaState {
    /// Working.
    Calisiyor,
    /// A break is due; it starts when the bot is next searching.
    MolaBekleniyor,
    /// On a break.
    Molada,
}

/// What a break tick decided.
#[derive(Debug, Clone, Copy, PartialEq, Eq)]
pub enum BreakAction {
    /// Nothing changes.
    Working,
    /// The work interval is over; the break waits for the current stone.
    BreakDue,
    /// The break starts now.
    BreakStarted,
    /// The break is over; the camera is turned before searching again.
    BreakOver,
    /// Still on the break: the frame is skipped.
    OnBreak,
}

/// Break bookkeeping: phase, start of the break, last accounting time,
/// accumulated work time and number of breaks taken.
#[derive(Debug, Clone, Copy, PartialEq, Eq)]
pub struct BreakPlanner {
    pub state: MolaState,
    pub start: Option<u64>,
    pub last_check: u64,
    pub total_work: u64,
    pub count: u32,
}

/// Work time and accounting time after a tick: the time since the last
/// accounting is added (saturating) once at least a second has passed.
pub open spec fn accounted(p: BreakPlanner, now: u64) -> (u64, u64) {
    if since(p.last_check, now) >= SEC {
        let t = p.total_work + since(p.last_check, now);
        (if t > u64::MAX { u64::MAX } else { t as u64 }, now)
    } else {
        (p.total_work, p.last_check)
    }
}

/// The planner and the action after a tick at `now` with a work interval of
/// `interval_min` minutes and breaks of `break_min` minutes, `searching`
/// telling whether the bot is looking for a stone.
pub open spec fn break_tick_spec(p: BreakPlanner, now: u64, interval_min: u32, break_min: u32, searching: bool) -> (BreakPlanner, BreakAction) {
    let (work, last) = accounted(p, now);
    let q = BreakPlanner { total_work: work, last_check: last, ..p };
    match p.state {
        MolaState::Calisiyor => if work >= interval_min * 60 * SEC {
            (BreakPlanner { state: MolaState::MolaBekleniyor, ..q }, BreakAction::BreakDue)
        } else {
            (q, BreakAction::Working)
        },
        MolaState::MolaBekleniyor => if searching {
            (BreakPlanner { state: MolaState::Molada, start: Some(now), count: (p.count + 1) as u32, ..q }, BreakAction::BreakStarted)
        } else {
            (q, BreakAction::Working)
        },
        MolaState::Molada => match p.start {
            Some(s) => if since(s, now) >= break_min * 60 * SEC {
                (BreakPlanner { state: MolaState::Calisiyor, total_work: 0, start: None, ..q }, BreakAction::BreakOver)
            } else {
                (q, BreakAction::OnBreak)
            },
            None => (q, BreakAction::Working),
        },
    }
}

/// The break cycle: a break is announced only once the accumulated work
/// reaches the interval; it starts only from the announced phase while the
/// bot is searching (never in the middle of a stone), and each start counts
/// one break; a running break goes on until `break_min` minutes have passed
/// since it started, and its end clears the accumulated work.
pub proof fn law_break_cycle(p: BreakPlanner, now: u64, interval_min: u32, break_min: u32, searching: bool)
    requires
        p.count < u32::MAX,
    ensures
        ({
            let (q, a) = break_tick_spec(p, now, interval_min, break_min, searching);
            &&& a == BreakAction::BreakDue ==> p.state == MolaState::Calisiyor
                && q.state == MolaState::MolaBekleniyor
                && accounted(p, now).0 >= interval_min * 60 * SEC
            &&& a == BreakAction::BreakStarted ==> p.state == MolaState::MolaBekleniyor && searching
                && q.state == MolaState::Molada && q.start == Some(now) && q.count == p.count + 1
            &&& q.state == MolaState::Molada ==> p.state != MolaState::Calisiyor
            &&& (p.state == MolaState::Molada && p.start is Some && since(p.start->0, now) < break_min * 60 * SEC)
                ==> a == BreakAction::OnBreak && q.state == MolaState::Molada
            &&& a == BreakAction::BreakOver ==> q.state == MolaState::Calisiyor && q.total_work == 0
                && p.start is Some && since(p.start->0, now) >= break_min * 60 * SEC
        }),
{
}

impl BreakPlanner {
    /// Working, nothing accumulated, accounting from time 0.
    pub fn new() -> (r: Self)
        ensures
            r == (BreakPlanner { state: MolaState::Calisiyor, start: None, last_check: 0, total_work: 0, count: 0 }),
    {
        BreakPlanner { state: MolaState::Calisiyor, start: None, last_check: 0, total_work: 0, count: 0 }
    }

    /// One tick of the break system (see `break_tick_spec`).
    pub fn tick(&mut self, now: u64, interval_min: u32, break_min: u32, searching: bool) -> (a: BreakAction)
        requires
            interval_min * 60 <= u32::MAX,
            break_min * 60 <= u32::MAX,
            old(self).count < u32::MAX,
        ensures
            (*final(self), a) == break_tick_spec(*old(self), now, interval_min, break_min, searching),
    {
        let e = since_exec(self.last_check, now);
        if e >= SEC {
            self.total_work = self.total_work.saturating_add(e);
            self.last_check = now;
        }
        let interval = (interval_min * 60) as u64 * SEC;
        let pause = (break_min * 60) as u64 * SEC;
        match self.state {
            MolaState::Calisiyor => {
                if self.total_work >= interval {
                    self.state = MolaState::MolaBekleniyor;
                    BreakAction::BreakDue
                } else {
                    BreakAction::Working
                }
            },
            MolaState::MolaBekleniyor => {
                if searching {
                    self.state = MolaState::Molada;
                    self.start = Some(now);
                    self.count = self.count + 1;
                    BreakAction::BreakStarted
                } else {
                    BreakAction::Working
                }
            },
            MolaState::Molada => {
                match self.start {
                    Some(s) => {
                        if since_exec(s, now) >= pause {
                            self.state = MolaState::Calisiyor;
                            self.total_work = 0;
                            self.start = None;
                            BreakAction::BreakOver
                        } else {
                            BreakAction::OnBreak
                        }
                    },
                    None => BreakAction::Working,
                }
            },
        }
    }
}

/// What a pause tick decided.
#[derive(Debug, Clone, Copy, PartialEq, Eq)]
pub enum PauseTick {
    /// No pause is running.
    NotPausing,
    /// The pause goes on; `remaining` whole seconds are left.
    Pausing { remaining: u64 },
    /// The pause is over; searching resumes.
    Ended,
}

/// Short human-like pauses every few minutes.
#[derive(Debug, Clone, Copy, PartialEq, Eq)]
pub struct HumanPacer {
    pub pausing: bool,
    pub next_pause: u64,
}

impl HumanPacer {
    /// Whether a pause starts at `now`: the mode is on, no pause runs and
    /// its time has come.
    pub fn pause_due(&self, now: u64, enabled: bool) -> (r: bool)
        ensures
            r == (enabled && !self.pausing && now >= self.next_pause),
    {
        enabled && !self.pausing && now >= self.next_pause
    }

    /// Starts a pause of `secs` seconds at `now`; the bot state becomes the pause.
    pub fn start_pause(&mut self, state: &mut BotState, now: u64, secs: u64)
        requires
            secs <= 30,
        ensures
            cycle_move(*old(state), *final(state)),
            final(self).pausing,
            final(self).next_pause == old(self).next_pause,
            *final(state) == (BotState::HumanPause { start_time: now, duration: (secs * SEC) as u64 }),
    {
        self.pausing = true;
        *state = BotState::HumanPause { start_time: now, duration: secs * SEC };
    }

    /// One tick: a running pause either goes on or ends, in which case the
    /// next pause is planned `next_secs` seconds later and searching resumes.
    pub fn tick(&mut self, state: &mut BotState, now: u64, next_secs: u64) -> (t: PauseTick)
        requires
            next_secs <= 600,
            now <= u64::MAX - 600 * SEC,
        ensures
            cycle_move(*old(state), *final(state)),
            (match *old(state) {
                BotState::HumanPause { start_time, duration } => if since(start_time, now) >= duration {
                    &&& t == PauseTick::Ended
                    &&& *final(state) == BotState::Arama
                    &&& *final(self) == (HumanPacer { pausing: false, next_pause: (now + next_secs * SEC) as u64 })
                } else {
                    &&& t == (PauseTick::Pausing { remaining: (duration / SEC - since(start_time, now) / (SEC as int)) as u64 })
                    &&& *final(state) == *old(state)
                    &&& *final(self) == *old(self)
                },
                _ => t == PauseTick::NotPausing && *final(state) == *old(state) && *final(self) == *old(self),
            }),
    {
        match *state {
            BotState::HumanPause { start_time, duration } => {
                let e = since_exec(start_time, now);
                if e >= duration {
                    self.pausing = false;
                    self.next_pause = now + next_secs * SEC;
                    *state = BotState::Arama;
                    PauseTick::Ended
                } else {
                    assert(e / SEC <= duration / SEC) by (nonlinear_arith)
                        requires e < duration;
                    PauseTick::Pausing { remaining: duration / SEC - e / SEC }
                }
            },
            _ => PauseTick::NotPausing,
        }
    }
}

/// What the respawn sequence does on a frame.
#[derive(Debug, Clone, Copy, PartialEq, Eq)]
pub enum DeathPhase {
    /// Watch the frame for the death screen.
    Watch,
    /// Death seen `elapsed` whole seconds ago; wait until ten have passed.
    Wait { elapsed: u64 },
    /// Look for the respawn button and click it.
    TryClick,
    /// The button was clicked: use the configured skills and mount, then resume.
    Recover,
    /// Nothing to do.
    Idle,
}

/// Seconds waited on the death screen before respawning.
pub const RESPAWN_WAIT_SECS: u64 = 10;

/// Respawn bookkeeping.
#[derive(Debug, Clone, Copy, PartialEq, Eq)]
pub struct DeathTracker {
    pub detected: bool,
    pub detect_time: Option<u64>,
    pub button_clicked: bool,
}

/// The respawn phase at `now`.
pub open spec fn death_phase_spec(d: DeathTracker, now: u64) -> DeathPhase {
    if !d.detected && !d.button_clicked {
        DeathPhase::Watch
    } else if d.detected && !d.button_clicked {
        match d.detect_time {
            Some(t) => if since(t, now) / (SEC as int) >= RESPAWN_WAIT_SECS {
                DeathPhase::TryClick
            } else {
                DeathPhase::Wait { elapsed: (since(t, now) / (SEC as int)) as u64 }
            },
            None => DeathPhase::Idle,
        }
    } else {
        DeathPhase::Recover
    }
}

/// The respawn button is looked for only after the death screen has been
/// seen at least `RESPAWN_WAIT_SECS` seconds earlier.
pub proof fn law_respawn_waits(d: DeathTracker, now: u64)
    ensures
        death_phase_spec(d, now) == DeathPhase::TryClick ==> d.detected && !d.button_clicked
            && d.detect_time is Some && since(d.detect_time->0, now) >= RESPAWN_WAIT_SECS * SEC,
{
    if death_phase_spec(d, now) == DeathPhase::TryClick {
        let t = d.detect_time->0;
        assert(since(t, now) >= RESPAWN_WAIT_SECS * SEC) by (nonlinear_arith)
            requires since(t, now) / (SEC as int) >= RESPAWN_WAIT_SECS, since(t, now) >= 0;
    }
}

impl DeathTracker {
    /// Nothing seen.
    pub fn new() -> (r: Self)
        ensures
            r == (DeathTracker { detected: false, detect_time: None, button_clicked: false }),
    {
        DeathTracker { detected: false, detect_time: None, button_clicked: false }
    }

    /// The respawn phase at `now` (see `death_phase_spec`).
    pub fn phase(&self, now: u64) -> (r: DeathPhase)
        ensures
            r == death_phase_spec(*self, now),
    {
        if !self.detected && !self.button_clicked {
            DeathPhase::Watch
        } else if self.detected && !self.button_clicked {
            match self.detect_time {
                Some(t) => {
                    let secs = since_exec(t, now) / SEC;
                    if secs >= RESPAWN_WAIT_SECS {
                        DeathPhase::TryClick
                    } else {
                        DeathPhase::Wait { elapsed: secs }
                    }
                },
                None => DeathPhase::Idle,
            }
        } else {
            DeathPhase::Recover
        }
    }

    /// The death screen was seen at `now`.
    pub fn on_death_seen(&mut self, now: u64)
        ensures
            *final(self) == (DeathTracker { detected: true, detect_time: Some(now), ..*old(self) }),
    {
        self.detected = true;
        self.detect_time = Some(now);
    }

    /// The respawn button was clicked.
    pub fn on_button_clicked(&mut self)
        ensures
            *final(self) == (DeathTracker { button_clicked: true, ..*old(self) }),
    {
        self.button_clicked = true;
    }

    /// The recovery is done: back to watching.
    pub fn on_recovered(&mut self)
        ensures
            *final(self) == (DeathTracker { detected: false, detect_time: None, button_clicked: false }),
    {
        self.detected = false;
        self.detect_time = None;
        self.button_clicked = false;
    }
}

/// Captcha bookkeeping: whether one is being solved, since when, and when
/// the screen was last checked.
#[derive(Debug, Clone, Copy, PartialEq, Eq)]
pub struct CaptchaGuard {
    pub solving: bool,
    pub solve_start: u64,
    pub last_check: u64,
}

/// Interval between captcha checks.
pub const CAPTCHA_CHECK_INTERVAL: u64 = 200_000_000;

impl CaptchaGuard {
    /// Not solving; last checked at time 0.
    pub fn new() -> (r: Self)
        ensures
            r == (CaptchaGuard { solving: false, solve_start: 0, last_check: 0 }),
    {
        CaptchaGuard { solving: false, solve_start: 0, last_check: 0 }
    }

    /// Whether the screen is checked for a captcha at `now`: the interval has
    /// passed, none is being solved, no death is being handled and the
    /// question region is usable.
    pub fn check_due(&self, now: u64, dead: bool, has_ocr_region: bool) -> (r: bool)
        ensures
            r == (since(self.last_check, now) >= CAPTCHA_CHECK_INTERVAL && !self.solving && !dead && has_ocr_region),
    {
        since_exec(self.last_check, now) >= CAPTCHA_CHECK_INTERVAL && !self.solving && !dead && has_ocr_region
    }

    /// The screen was checked at `now`.
    pub fn on_checked(&mut self, now: u64)
        ensures
            *final(self) == (CaptchaGuard { last_check: now, ..*old(self) }),
    {
        self.last_check = now;
    }

    /// Solving started at `now`.
    pub fn on_solving(&mut self, now: u64)
        ensures
            *final(self) == (CaptchaGuard { solving: true, solve_start: now, ..*old(self) }),
    {
        self.solving = true;
        self.solve_start = now;
    }

    /// Ends the solving flag once more than ten whole seconds have passed.
    pub fn expire(&mut self, now: u64)
        ensures
            *final(self) == (if old(self).solving && since(old(self).solve_start, now) / (SEC as int) > 10 {
                CaptchaGuard { solving: false, ..*old(self) }
            } else {
                *old(self)
            }),
    {
        if self.solving && since_exec(self.solve_start, now) / SEC > 10 {
            self.solving = false;
        }
    }
}

/// Consecutive detections needed before the message icon is clicked.
pub const BLINK_CONFIRMATIONS: u32 = 4;

/// Counter of consecutive message-icon detections.
#[derive(Debug, Clone, Copy, PartialEq, Eq)]
pub struct BlinkCounter {
    pub count: u32,
}

impl BlinkCounter {
    /// One scan: a detection raises the count and, at the fourth in a row,
    /// asks for a click and starts over; no detection starts over.
    pub fn on_scan(&mut self, found: bool) -> (click: bool)
        requires
            old(self).count < u32::MAX,
        ensures
            found && old(self).count + 1 >= BLINK_CONFIRMATIONS ==> click && final(self).count == 0,
            found && old(self).count + 1 < BLINK_CONFIRMATIONS ==> !click && final(self).count == old(self).count + 1,
            !found ==> !click && final(self).count == 0,
            old(self).count < BLINK_CONFIRMATIONS ==> final(self).count < BLINK_CONFIRMATIONS,
    {
        if found {
            self.count = self.count + 1;
            if self.count >= BLINK_CONFIRMATIONS {
                self.count = 0;
                true
            } else {
                false
            }
        } else {
            self.count = 0;
            false
        }
    }
}

/// Time between two looks at a visible game window.
pub const OBS_NORMAL_INTERVAL: u64 = 5_000_000_000;
/// Time between two looks at a minimised game window.
pub const OBS_MINIMIZED_INTERVAL: u64 = 2_000_000_000;

/// The window watch of the OBS bypass: the game window is looked at every
/// 5 seconds, or every 2 seconds while it is minimised.
#[derive(Debug, Clone, Copy, PartialEq, Eq)]
pub struct ObsWatch {
    pub interval: u64,
    pub last_check: u64,
}

impl ObsWatch {
    /// A watch that looks at the window 5 seconds after `now`.
    pub fn new(now: u64) -> (r: Self)
        ensures
            r == (ObsWatch { interval: OBS_NORMAL_INTERVAL, last_check: now }),
    {
        ObsWatch { interval: OBS_NORMAL_INTERVAL, last_check: now }
    }

    /// Whether the window is due to be looked at.
    pub fn check_due(&self, now: u64) -> (r: bool)
        ensures
            r == (since(self.last_check, now) >= self.interval),
    {
        since_exec(self.last_check, now) >= self.interval
    }

    /// The window was looked at `now`: the next look comes after 2 seconds
    /// when it was minimised, else after 5.
    pub fn on_checked(&mut self, now: u64, minimized: bool)
        ensures
            *final(self) == (ObsWatch { interval: if minimized { OBS_MINIMIZED_INTERVAL } else { OBS_NORMAL_INTERVAL }, last_check: now }),
    {
        self.last_check = now;
        self.interval = if minimized { OBS_MINIMIZED_INTERVAL } else { OBS_NORMAL_INTERVAL };
    }
}

} // verus!
