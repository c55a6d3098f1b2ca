use kbot::runner::{
    BotState, CutAction, CutSettings, HpVerdict, LockOutcome, RadarPointType, RunnerCore, BLACKLIST_TTL, HP_STUCK, LOCK_CHECK_DELAY,
    LOCK_GIVE_UP,
};
use kbot::schedule::{
    BlinkCounter, BreakAction, BreakPlanner, CaptchaGuard, DeathPhase, DeathTracker, HumanPacer, MolaState, ObsWatch, PauseTick,
    SEC,
};

const S: u64 = 1_000_000_000;

#[test]
fn search_lock_cut_cycle() {
    let mut r = RunnerCore::new();
    assert_eq!(r.state, BotState::Arama);
    assert_eq!(r.state.state_name(), "Taş Arıyor");
    r.on_stone_clicked(10 * S, 400, 300);
    assert_eq!(r.state, BotState::KilitBekleniyor { click_time: 10 * S, target_cx: 400, target_cy: 300 });
    assert_eq!(r.state.state_name(), "Kilit Bekleniyor");
    assert!(!r.lock_check_due(10 * S + LOCK_CHECK_DELAY - 1));
    assert!(r.lock_check_due(10 * S + LOCK_CHECK_DELAY));
    assert_eq!(r.on_lock_checked(11 * S, true), LockOutcome::Waiting);
    assert_eq!(r.on_lock_checked(12 * S, true), LockOutcome::Locked);
    assert_eq!(r.state, BotState::Kesiyor { start_time: 12 * S });
    assert!(!r.on_cutting_frame(true));
    assert!(r.on_cutting_frame(false));
    assert_eq!(r.state, BotState::Arama);
    assert_eq!(r.stones_mined, 1);
}

#[test]
fn missed_stone_is_listed_and_skipped_for_fifteen_seconds() {
    let mut r = RunnerCore::new();
    r.on_stone_clicked(0, 400, 300);
    assert_eq!(r.on_lock_checked(2 * S, false), LockOutcome::Waiting);
    assert_eq!(r.on_lock_checked(LOCK_GIVE_UP, false), LockOutcome::Missed);
    assert_eq!(r.stones_missed, 1);
    assert_eq!(r.state, BotState::Arama);
    assert_eq!(r.blacklist, vec![((400, 300), LOCK_GIVE_UP)]);
    let candidates = vec![(420, 310, true), (800, 100, true)];
    r.prune_blacklist(LOCK_GIVE_UP + 10 * S);
    assert!(r.is_blacklisted(430, 290));
    assert_eq!(r.radar_point_type(400, 300), RadarPointType::BlacklistedStone);
    assert_eq!(r.radar_point_type(800, 100), RadarPointType::Stone);
    assert_eq!(r.pick_target(&candidates), Some(1));
    r.prune_blacklist(LOCK_GIVE_UP + BLACKLIST_TTL);
    assert!(r.blacklist.is_empty());
    assert_eq!(r.pick_target(&candidates), Some(0));
}

#[test]
fn target_needs_learner_approval() {
    let r = RunnerCore::new();
    assert_eq!(r.pick_target(&vec![(1, 1, false), (2, 2, true)]), Some(1));
    assert_eq!(r.pick_target(&vec![(1, 1, false)]), None);
    assert_eq!(r.pick_target(&vec![]), None);
}

#[test]
fn radius_is_exclusive() {
    let mut r = RunnerCore::new();
    r.on_stone_clicked(0, 100, 100);
    r.on_lock_checked(LOCK_GIVE_UP, false);
    assert!(r.is_blacklisted(149, 51));
    assert!(!r.is_blacklisted(150, 100));
    assert!(!r.is_blacklisted(100, 50));
}

#[test]
fn stuck_health_bar_gives_the_stone_up() {
    let mut r = RunnerCore::new();
    r.on_stone_clicked(0, 10, 20);
    r.on_lock_checked(2 * S, true);
    assert_eq!(r.on_hp_sample(1, 3 * S), HpVerdict::Idle);
    assert_eq!(r.on_hp_sample(100, 3 * S), HpVerdict::Started);
    assert_eq!(r.on_hp_sample(101, 4 * S), HpVerdict::Idle);
    assert_eq!(r.on_hp_sample(90, 5 * S), HpVerdict::Changed);
    assert_eq!(r.hp_check_start, Some(5 * S));
    assert_eq!(r.on_hp_sample(90, 5 * S + HP_STUCK), HpVerdict::Stagnant);
    assert_eq!(r.state, BotState::Arama);
    assert_eq!(r.blacklist, vec![((10, 20), 5 * S + HP_STUCK)]);
    assert_eq!(r.hp_check_start, None);
}

#[test]
fn timers_between_actions() {
    let mut r = RunnerCore::new();
    assert!(r.attack_ready(300_000_000, 300));
    assert!(!r.attack_ready(299_999_999, 300));
    assert!(r.camera_ready(S / 2));
    r.on_camera_moved(S);
    assert!(!r.camera_ready(S + 1));
    r.on_pickup(S);
    assert!(!r.pickup_ready(S + S / 4));
    assert!(r.pickup_ready(S + S / 2));
    r.on_pot(S);
    assert!(!r.pot_ready(3 * S));
    assert!(r.pot_ready(4 * S));
    assert!(r.micro_move_due(3 * S));
    r.on_micro_move(3 * S);
    assert!(!r.micro_move_due(5 * S));
    assert!(r.micro_move_due(6 * S));
}

#[test]
fn captcha_and_respawn_clear_the_miss_list() {
    let mut r = RunnerCore::new();
    r.on_stone_clicked(0, 1, 1);
    r.on_lock_checked(LOCK_GIVE_UP, false);
    r.on_captcha_handled(true);
    assert!(r.blacklist.is_empty());
    assert_eq!(r.captcha_solved, 1);
    r.on_stone_clicked(0, 1, 1);
    r.on_respawned();
    assert_eq!(r.state, BotState::Arama);
}

#[test]
fn break_after_the_work_interval() {
    let mut b = BreakPlanner::new();
    assert_eq!(b.tick(30 * 60 * SEC, 57, 6, true), BreakAction::Working);
    assert_eq!(b.tick(57 * 60 * SEC, 57, 6, false), BreakAction::BreakDue);
    assert_eq!(b.state, MolaState::MolaBekleniyor);
    assert_eq!(b.tick(57 * 60 * SEC + SEC / 2, 57, 6, false), BreakAction::Working);
    assert_eq!(b.tick(58 * 60 * SEC, 57, 6, true), BreakAction::BreakStarted);
    assert_eq!(b.count, 1);
    assert_eq!(b.tick(60 * 60 * SEC, 57, 6, true), BreakAction::OnBreak);
    assert_eq!(b.tick(64 * 60 * SEC, 57, 6, true), BreakAction::BreakOver);
    assert_eq!(b.state, MolaState::Calisiyor);
    assert_eq!(b.total_work, 0);
}

#[test]
fn human_pause_runs_and_ends() {
    let mut p = HumanPacer { pausing: false, next_pause: 100 * SEC };
    let mut st = BotState::Arama;
    assert!(!p.pause_due(99 * SEC, true));
    assert!(p.pause_due(100 * SEC, true));
    assert!(!p.pause_due(100 * SEC, false));
    p.start_pause(&mut st, 100 * SEC, 20);
    assert_eq!(st, BotState::HumanPause { start_time: 100 * SEC, duration: 20 * SEC });
    assert_eq!(p.tick(&mut st, 105 * SEC, 400), PauseTick::Pausing { remaining: 15 });
    assert_eq!(p.tick(&mut st, 120 * SEC, 400), PauseTick::Ended);
    assert_eq!(st, BotState::Arama);
    assert_eq!(p.next_pause, 520 * SEC);
    assert_eq!(p.tick(&mut st, 121 * SEC, 400), PauseTick::NotPausing);
}

#[test]
fn respawn_waits_ten_seconds() {
    let mut d = DeathTracker::new();
    assert_eq!(d.phase(0), DeathPhase::Watch);
    d.on_death_seen(5 * SEC);
    assert_eq!(d.phase(9 * SEC), DeathPhase::Wait { elapsed: 4 });
    assert_eq!(d.phase(15 * SEC), DeathPhase::TryClick);
    d.on_button_clicked();
    assert_eq!(d.phase(16 * SEC), DeathPhase::Recover);
    d.on_recovered();
    assert_eq!(d.phase(17 * SEC), DeathPhase::Watch);
}

#[test]
fn captcha_guard_interval_and_expiry() {
    let mut g = CaptchaGuard::new();
    assert!(!g.check_due(100_000_000, false, true));
    assert!(g.check_due(200_000_000, false, true));
    assert!(!g.check_due(200_000_000, true, true));
    assert!(!g.check_due(200_000_000, false, false));
    g.on_solving(SEC);
    assert!(!g.check_due(5 * SEC, false, true));
    g.expire(11 * SEC);
    assert!(g.solving);
    g.expire(12 * SEC);
    assert!(!g.solving);
}

#[test]
fn message_icon_needs_four_detections_in_a_row() {
    let mut b = BlinkCounter { count: 0 };
    assert!(!b.on_scan(true));
    assert!(!b.on_scan(true));
    assert!(!b.on_scan(false));
    assert!(!b.on_scan(true));
    assert!(!b.on_scan(true));
    assert!(!b.on_scan(true));
    assert!(b.on_scan(true));
    assert_eq!(b.count, 0);
}

#[test]
fn counters_wrap_past_their_maximum() {
    let mut r = RunnerCore::new();
    r.stones_missed = u32::MAX;
    r.stones_mined = u32::MAX;
    r.on_stone_clicked(0, 400, 300);
    assert_eq!(r.on_lock_checked(LOCK_GIVE_UP, false), LockOutcome::Missed);
    assert_eq!(r.stones_missed, 0);
    assert_eq!(r.blacklist, vec![((400, 300), LOCK_GIVE_UP)]);
    r.on_stone_clicked(LOCK_GIVE_UP, 10, 10);
    assert_eq!(r.on_lock_checked(2 * LOCK_GIVE_UP, true), LockOutcome::Locked);
    assert!(r.on_cutting_frame(false));
    assert_eq!(r.stones_mined, 0);
}

#[test]
fn obs_watch_looks_more_often_at_a_minimised_window() {
    let mut w = ObsWatch::new(0);
    assert!(!w.check_due(4 * S));
    assert!(w.check_due(5 * S));
    w.on_checked(5 * S, true);
    assert!(w.check_due(7 * S));
    w.on_checked(7 * S, false);
    assert!(!w.check_due(11 * S));
    assert!(w.check_due(12 * S));
}

#[test]
fn cutting_frame_plans_its_actions_in_order() {
    let all = CutSettings { pickup: true, anti_detect: true, random_delay: true, auto_pot: true };
    let mut r = RunnerCore::new();
    r.on_stone_clicked(0, 10, 20);
    r.on_lock_checked(2 * S, true);
    // Locked, nudge due, delay on, health tracking starts, potion due and health low.
    let t = 10 * S;
    assert_eq!(r.cut_frame(t, true, 100, true, all), vec![CutAction::Nudge, CutAction::Delay, CutAction::Potion]);
    assert_eq!(r.last_micro_move, t);
    assert_eq!(r.last_pot_time, t);
    // The bar does not move for HP_STUCK: escape, no potion.
    assert_eq!(r.cut_frame(t + HP_STUCK, true, 100, true, all), vec![CutAction::Nudge, CutAction::Delay, CutAction::Escape]);
    assert_eq!(r.state, BotState::Arama);
    // A stone that breaks: reported, then picked up.
    let mut b = RunnerCore::new();
    b.on_stone_clicked(0, 10, 20);
    b.on_lock_checked(2 * S, true);
    assert_eq!(b.cut_frame(3 * S, false, 0, false, all), vec![CutAction::Broke, CutAction::PickUp]);
    assert_eq!(b.stones_mined, 1);
    let none = CutSettings { pickup: false, anti_detect: false, random_delay: false, auto_pot: false };
    let mut c = RunnerCore::new();
    c.on_stone_clicked(0, 10, 20);
    c.on_lock_checked(2 * S, true);
    assert_eq!(c.cut_frame(3 * S, true, 0, true, none), vec![]);
    assert_eq!(c.cut_frame(4 * S, false, 0, true, none), vec![CutAction::Broke]);
}
