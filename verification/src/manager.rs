//! The text command protocols: commands to the client manager (start, stop,
//! preview, settings for all clients), commands to one runner, the legacy
//! colon-separated start command, and the crash-recovery bookkeeping.
use vstd::prelude::*;
use vstd::string::*;
use crate::text::{split_char, split_spec, strs_view, str_eq, to_lower, lower_of};
use crate::num::{
    parse_unsigned, parse_signed, parse_usize, parse_u64, parse_u32, parse_i32, starts_with,
    starts_with_spec, remove_all, remove_all_str,
};
use crate::client_params::{ClientStartParams, strings_view, pm_defaults, pm_default_fields};
use crate::runner::since;

verus! {

broadcast use vstd::string::group_string_axioms;

/// `v` parsed as an `i32`, or `d`.
pub open spec fn i32_or(v: Seq<char>, d: i32) -> int {
    match parse_signed(v, i32::MIN as int, i32::MAX as int) {
        Some(x) => x,
        None => d as int,
    }
}

/// `v` parsed as a `usize`, or `d`.
pub open spec fn usize_or(v: Seq<char>, d: nat) -> nat {
    match parse_unsigned(v, usize::MAX as nat) {
        Some(x) => x,
        None => d,
    }
}

/// `v` parsed as a `u64`, or `d`.
pub open spec fn u64_or(v: Seq<char>, d: nat) -> nat {
    match parse_unsigned(v, u64::MAX as nat) {
        Some(x) => x,
        None => d,
    }
}

/// A rectangle written `x1,y1,x2,y2`: each coordinate parsed, or the
/// corresponding default; the default rectangle when there are not exactly
/// four fields.
pub open spec fn rect_field(part: Seq<char>, d: (i32, i32, i32, i32)) -> (int, int, int, int) {
    let c = split_spec(part, ',');
    if c.len() == 4 {
        (i32_or(c[0], d.0), i32_or(c[1], d.1), i32_or(c[2], d.2), i32_or(c[3], d.3))
    } else {
        (d.0 as int, d.1 as int, d.2 as int, d.3 as int)
    }
}

/// Field `i` as a switch: `1` or, case-insensitively, `true`; off when absent.
pub open spec fn flag_field(parts: Seq<Seq<char>>, i: int) -> bool {
    i < parts.len() && (parts[i] == "1"@ || lower_of(parts[i]) == "true"@)
}

/// Field `i` as a list of skill keys: empty when absent, empty or `EMPTY`;
/// else its comma-separated pieces.
pub open spec fn skills_field(parts: Seq<Seq<char>>, i: int) -> Seq<Seq<char>> {
    if i < parts.len() && !(parts[i].len() == 0 || parts[i] == "EMPTY"@) {
        split_spec(parts[i], ',')
    } else {
        Seq::<Seq<char>>::empty()
    }
}

/// Field `i` as a wait in seconds, or `d`.
pub open spec fn secs_field(parts: Seq<Seq<char>>, i: int, d: nat) -> nat {
    if i < parts.len() {
        u64_or(parts[i], d)
    } else {
        d
    }
}

/// The fields of a legacy start command.
pub open spec fn legacy_fields(cmd: Seq<char>) -> Seq<Seq<char>> {
    split_spec(remove_all(cmd, "START_CLIENT:"@), ':')
}

/// What a legacy start command `START_CLIENT:id:hwnd:model:driver:lock
/// [:lock rect[:ocr rect[:skills on:skills:skill wait:mount on:mount key:mount
/// wait[:button rect]]]]` describes, given its fields `f` (at least five).
pub open spec fn legacy_params_ok(f: Seq<Seq<char>>, p: ClientStartParams) -> bool {
    &&& p.id as nat == usize_or(f[0], 0)
    &&& p.hwnd as nat == usize_or(f[1], 0)
    &&& p.model@ == f[2]
    &&& p.driver@ == f[3]
    &&& p.kilit_path@ == f[4]
    &&& (p.kilit_region.0 as int, p.kilit_region.1 as int, p.kilit_region.2 as int, p.kilit_region.3 as int)
        == (if f.len() >= 6 { rect_field(f[5], (200, 30, 600, 80)) } else { (200int, 30int, 600int, 80int) })
    &&& (p.ocr_region.0 as int, p.ocr_region.1 as int, p.ocr_region.2 as int, p.ocr_region.3 as int)
        == (if f.len() >= 7 { rect_field(f[6], (313, 153, 457, 168)) } else { (313int, 153int, 457int, 168int) })
    &&& p.olum_skill_aktif == flag_field(f, 7)
    &&& strings_view(p.olum_skill_tuslari@) == skills_field(f, 8)
    &&& p.olum_skill_bekleme as nat == secs_field(f, 9, 3)
    &&& p.olum_binek_aktif == flag_field(f, 10)
    &&& p.olum_binek_tusu@ == (if f.len() > 11 { f[11] } else { Seq::<char>::empty() })
    &&& p.olum_binek_bekleme as nat == secs_field(f, 12, 5)
    &&& (p.captcha_buton_x1 as int, p.captcha_buton_y1 as int, p.captcha_buton_x2 as int, p.captcha_buton_y2 as int)
        == (if f.len() >= 14 { rect_field(f[13], (0, 0, 0, 0)) } else { (0int, 0int, 0int, 0int) })
    &&& pm_defaults(p)
}

fn usize_or_exec(v: &str, d: usize) -> (r: usize)
    ensures
        r as nat == usize_or(v@, d as nat),
{
    match parse_usize(v) {
        Some(x) => x,
        None => d,
    }
}

fn u64_or_exec(v: &str, d: u64) -> (r: u64)
    ensures
        r as nat == u64_or(v@, d as nat),
{
    match parse_u64(v) {
        Some(x) => x,
        None => d,
    }
}

fn i32_or_exec(v: &str, d: i32) -> (r: i32)
    ensures
        r as int == i32_or(v@, d),
{
    match parse_i32(v) {
        Some(x) => x,
        None => d,
    }
}

/// A rectangle field (see `rect_field`).
pub fn parse_rect_field(part: &str, d: (i32, i32, i32, i32)) -> (r: (i32, i32, i32, i32))
    ensures
        (r.0 as int, r.1 as int, r.2 as int, r.3 as int) == rect_field(part@, d),
{
    let c = split_char(part, ',');
    if c.len() == 4 {
        (i32_or_exec(c[0], d.0), i32_or_exec(c[1], d.1), i32_or_exec(c[2], d.2), i32_or_exec(c[3], d.3))
    } else {
        d
    }
}

fn flag_exec(parts: &Vec<&str>, i: usize) -> (r: bool)
    ensures
        r == flag_field(strs_view(parts@), i as int),
{
    if i < parts.len() {
        let v = parts[i];
        str_eq(v, "1") || str_eq(to_lower(v).as_str(), "true")
    } else {
        false
    }
}

fn secs_exec(parts: &Vec<&str>, i: usize, d: u64) -> (r: u64)
    ensures
        r as nat == secs_field(strs_view(parts@), i as int, d as nat),
{
    if i < parts.len() {
        u64_or_exec(parts[i], d)
    } else {
        d
    }
}

fn strings_of(v: &Vec<&str>) -> (r: Vec<String>)
    ensures
        strings_view(r@) == strs_view(v@),
{
    let mut out: Vec<String> = Vec::new();
    let mut i: usize = 0;
    while i < v.len()
        invariant
            i <= v@.len(),
            strings_view(out@) == strs_view(v@).take(i as int),
        decreases v@.len() - i,
    {
        let ghost before = out@;
        out.push(v[i].to_string());
        assert(strings_view(out@) =~= strings_view(before).push(v@[i as int]@));
        assert(strs_view(v@).take(i + 1) =~= strs_view(v@).take(i as int).push(v@[i as int]@));
        i = i + 1;
    }
    assert(strs_view(v@).take(v@.len() as int) =~= strs_view(v@));
    out
}

fn skills_exec(parts: &Vec<&str>, i: usize) -> (r: Vec<String>)
    ensures
        strings_view(r@) == skills_field(strs_view(parts@), i as int),
{
    if i < parts.len() {
        let v = parts[i];
        if v.unicode_len() == 0 || str_eq(v, "EMPTY") {
            Vec::new()
        } else {
            strings_of(&split_char(v, ','))
        }
    } else {
        Vec::new()
    }
}

/// Parses a legacy start command (see `legacy_params_ok`); `None` when it
/// has fewer than five fields. The reply settings take their defaults.
pub fn parse_legacy_start(cmd: &str) -> (r: Option<ClientStartParams>)
    ensures
        match r {
            Some(p) => legacy_fields(cmd@).len() >= 5 && legacy_params_ok(legacy_fields(cmd@), p),
            None => legacy_fields(cmd@).len() < 5,
        },
{
    proof {
        reveal_strlit("START_CLIENT:");
    }
    let cleaned = remove_all_str(cmd, "START_CLIENT:");
    let parts = split_char(cleaned.as_str(), ':');
    let ghost f = strs_view(parts@);
    if parts.len() < 5 {
        return None;
    }
    let id = usize_or_exec(parts[0], 0);
    let hwnd = usize_or_exec(parts[1], 0);
    let model = parts[2].to_string();
    let driver = parts[3].to_string();
    let kilit_path = parts[4].to_string();
    let kilit_region = if parts.len() >= 6 { parse_rect_field(parts[5], (200, 30, 600, 80)) } else { (200, 30, 600, 80) };
    let ocr_region = if parts.len() >= 7 { parse_rect_field(parts[6], (313, 153, 457, 168)) } else { (313, 153, 457, 168) };
    let olum_skill_aktif = flag_exec(&parts, 7);
    let olum_skill_tuslari = skills_exec(&parts, 8);
    let olum_skill_bekleme = secs_exec(&parts, 9, 3);
    let olum_binek_aktif = flag_exec(&parts, 10);
    let olum_binek_tusu = if parts.len() > 11 { parts[11].to_string() } else { String::new() };
    let olum_binek_bekleme = secs_exec(&parts, 12, 5);
    let (captcha_buton_x1, captcha_buton_y1, captcha_buton_x2, captcha_buton_y2) =
        if parts.len() >= 14 { parse_rect_field(parts[13], (0, 0, 0, 0)) } else { (0, 0, 0, 0) };
    let (pm_ai_aktif, pm_ai_backend, pm_ai_api_key, pm_system_prompt, pm_region, pm_cooldown_sn, pm_daily_limit) =
        pm_default_fields();
    let p = ClientStartParams {
        id,
        hwnd,
        model,
        driver,
        kilit_path,
        kilit_region,
        ocr_region,
        olum_skill_aktif,
        olum_skill_tuslari,
        olum_skill_bekleme,
        olum_binek_aktif,
        olum_binek_tusu,
        olum_binek_bekleme,
        captcha_buton_x1,
        captcha_buton_y1,
        captcha_buton_x2,
        captcha_buton_y2,
        pm_ai_aktif,
        pm_ai_backend,
        pm_ai_api_key,
        pm_system_prompt,
        pm_region,
        pm_cooldown_sn,
        pm_daily_limit,
    };
    Some(p)
}

/// Why a start is refused.
#[derive(Debug, Clone, Copy, PartialEq, Eq, Structural)]
pub enum StartRejection {
    /// No window handle.
    NoWindow,
    /// No lock-marker template path (empty or `0`).
    NoLockTemplate,
}

/// Why a start with these parameters is refused, if it is.
pub open spec fn start_rejection_spec(hwnd: usize, kilit_path: Seq<char>) -> Option<StartRejection> {
    if hwnd == 0 {
        Some(StartRejection::NoWindow)
    } else if kilit_path.len() == 0 || kilit_path == "0"@ {
        Some(StartRejection::NoLockTemplate)
    } else {
        None
    }
}

/// Why a start is refused (see `start_rejection_spec`).
pub fn start_rejection(p: &ClientStartParams) -> (r: Option<StartRejection>)
    ensures
        r == start_rejection_spec(p.hwnd, p.kilit_path@),
{
    if p.hwnd == 0 {
        Some(StartRejection::NoWindow)
    } else if p.kilit_path.as_str().unicode_len() == 0 || str_eq(p.kilit_path.as_str(), "0") {
        Some(StartRejection::NoLockTemplate)
    } else {
        None
    }
}

/// A command to the client manager.
#[derive(Debug)]
pub enum ManagerCommand {
    /// Start a client from JSON parameters (the payload).
    StartJson(String),
    /// Start a client from a legacy command (`None`: too few fields, ignored).
    StartLegacy(Option<ClientStartParams>),
    /// Stop one client.
    StopClient(usize),
    /// Stop every client.
    StopAll,
    /// Start every client (started per client from the interface instead).
    StartAll,
    /// Show the live view of a window (0: none).
    Preview(usize),
    /// Pass the command on to every client.
    Forward,
    /// Not a command.
    Unknown,
}

/// How the manager reads a command: JSON start, legacy start, stop of one
/// client (999 when the id does not parse), stop of all, start of all,
/// preview (0 when the handle does not parse), settings forwarded to all.
pub open spec fn manager_command_ok(cmd: Seq<char>, r: ManagerCommand) -> bool {
    if starts_with_spec(cmd, "START_CLIENT_JSON:"@) {
        r matches ManagerCommand::StartJson(s) && s@ == remove_all(cmd, "START_CLIENT_JSON:"@)
    } else if starts_with_spec(cmd, "START_CLIENT:"@) {
        r matches ManagerCommand::StartLegacy(o) && match o {
            Some(p) => legacy_fields(cmd).len() >= 5 && legacy_params_ok(legacy_fields(cmd), p),
            None => legacy_fields(cmd).len() < 5,
        }
    } else if starts_with_spec(cmd, "STOP_CLIENT:"@) {
        r matches ManagerCommand::StopClient(id) && id as nat == usize_or(remove_all(cmd, "STOP_CLIENT:"@), 999)
    } else if cmd == "STOP"@ || cmd == "STOP_ALL"@ {
        r is StopAll
    } else if cmd == "START_ALL"@ {
        r is StartAll
    } else if starts_with_spec(cmd, "PREVIEW:"@) {
        r matches ManagerCommand::Preview(h) && h as nat == usize_or(remove_all(cmd, "PREVIEW:"@), 0)
    } else if starts_with_spec(cmd, "MODEL:"@) || starts_with_spec(cmd, "DRIVER:"@)
        || starts_with_spec(cmd, "LOAD_KILIT:"@) || starts_with_spec(cmd, "UPDATE_KILIT_REGION:"@) {
        r is Forward
    } else {
        r is Unknown
    }
}

/// Reads a command to the client manager (see `manager_command_ok`).
pub fn parse_manager_command(cmd: &str) -> (r: ManagerCommand)
    ensures
        manager_command_ok(cmd@, r),
{
    proof {
        reveal_strlit("START_CLIENT_JSON:");
        reveal_strlit("STOP_CLIENT:");
        reveal_strlit("PREVIEW:");
    }
    if starts_with(cmd, "START_CLIENT_JSON:") {
        ManagerCommand::StartJson(remove_all_str(cmd, "START_CLIENT_JSON:"))
    } else if starts_with(cmd, "START_CLIENT:") {
        ManagerCommand::StartLegacy(parse_legacy_start(cmd))
    } else if starts_with(cmd, "STOP_CLIENT:") {
        let rest = remove_all_str(cmd, "STOP_CLIENT:");
        ManagerCommand::StopClient(usize_or_exec(rest.as_str(), 999))
    } else if str_eq(cmd, "STOP") || str_eq(cmd, "STOP_ALL") {
        ManagerCommand::StopAll
    } else if str_eq(cmd, "START_ALL") {
        ManagerCommand::StartAll
    } else if starts_with(cmd, "PREVIEW:") {
        let rest = remove_all_str(cmd, "PREVIEW:");
        ManagerCommand::Preview(usize_or_exec(rest.as_str(), 0))
    } else if starts_with(cmd, "MODEL:") || starts_with(cmd, "DRIVER:") || starts_with(cmd, "LOAD_KILIT:")
        || starts_with(cmd, "UPDATE_KILIT_REGION:") {
        ManagerCommand::Forward
    } else {
        ManagerCommand::Unknown
    }
}

/// A command to one client runner.
#[derive(Debug)]
pub enum RunnerCommand {
    /// Stop the runner.
    Stop,
    /// Load another detection model.
    SwitchModel(String),
    /// Reload the lock-marker template from a path.
    LoadKilit(String),
    /// Search the lock marker in another region.
    KilitRegion(u32, u32, u32, u32),
    /// Nothing to do.
    Ignored,
}

/// `v` parsed as a `u32`, or 0.
pub open spec fn u32_or_zero(v: Seq<char>) -> nat {
    match parse_unsigned(v, u32::MAX as nat) {
        Some(x) => x,
        None => 0,
    }
}

/// How a runner reads a command: `STOP`; `MODEL:<file>` (ignored for the
/// placeholder `MODEL_BULUNAMADI`); `LOAD_KILIT:<path>`;
/// `UPDATE_KILIT_REGION:x1,y1,x2,y2` when it has four fields and is not empty.
pub open spec fn runner_command_ok(cmd: Seq<char>, r: RunnerCommand) -> bool {
    if cmd == "STOP"@ {
        r is Stop
    } else if starts_with_spec(cmd, "MODEL:"@) {
        let m = remove_all(cmd, "MODEL:"@);
        if m != "MODEL_BULUNAMADI"@ {
            r matches RunnerCommand::SwitchModel(s) && s@ == m
        } else {
            r is Ignored
        }
    } else if starts_with_spec(cmd, "LOAD_KILIT:"@) {
        r matches RunnerCommand::LoadKilit(s) && s@ == remove_all(cmd, "LOAD_KILIT:"@)
    } else if starts_with_spec(cmd, "UPDATE_KILIT_REGION:"@) {
        let p = split_spec(remove_all(cmd, "UPDATE_KILIT_REGION:"@), ',');
        if p.len() == 4 && u32_or_zero(p[2]) > u32_or_zero(p[0]) && u32_or_zero(p[3]) > u32_or_zero(p[1]) {
            r matches RunnerCommand::KilitRegion(x1, y1, x2, y2)
                && (x1 as nat, y1 as nat, x2 as nat, y2 as nat) == (u32_or_zero(p[0]), u32_or_zero(p[1]), u32_or_zero(p[2]), u32_or_zero(p[3]))
        } else {
            r is Ignored
        }
    } else {
        r is Ignored
    }
}

fn u32_or_zero_exec(v: &str) -> (r: u32)
    ensures
        r as nat == u32_or_zero(v@),
{
    match parse_u32(v) {
        Some(x) => x,
        None => 0,
    }
}

/// Reads a command to a runner (see `runner_command_ok`).
pub fn parse_runner_command(cmd: &str) -> (r: RunnerCommand)
    ensures
        runner_command_ok(cmd@, r),
{
    proof {
        reveal_strlit("MODEL:");
        reveal_strlit("LOAD_KILIT:");
        reveal_strlit("UPDATE_KILIT_REGION:");
    }
    if str_eq(cmd, "STOP") {
        RunnerCommand::Stop
    } else if starts_with(cmd, "MODEL:") {
        let m = remove_all_str(cmd, "MODEL:");
        if !str_eq(m.as_str(), "MODEL_BULUNAMADI") {
            RunnerCommand::SwitchModel(m)
        } else {
            RunnerCommand::Ignored
        }
    } else if starts_with(cmd, "LOAD_KILIT:") {
        RunnerCommand::LoadKilit(remove_all_str(cmd, "LOAD_KILIT:"))
    } else if starts_with(cmd, "UPDATE_KILIT_REGION:") {
        let clean = remove_all_str(cmd, "UPDATE_KILIT_REGION:");
        let p = split_char(clean.as_str(), ',');
        if p.len() == 4 {
            let x1 = u32_or_zero_exec(p[0]);
            let y1 = u32_or_zero_exec(p[1]);
            let x2 = u32_or_zero_exec(p[2]);
            let y2 = u32_or_zero_exec(p[3]);
            if x2 > x1 && y2 > y1 {
                return RunnerCommand::KilitRegion(x1, y1, x2, y2);
            }
        }
        RunnerCommand::Ignored
    } else {
        RunnerCommand::Ignored
    }
}

/// Seconds without heartbeat after which a client counts as dead.
pub const HEARTBEAT_TIMEOUT_SECS: u64 = 10;
/// Restarts attempted for a dead client.
pub const MAX_RESTARTS: u32 = 3;

/// Crash-recovery bookkeeping of one client: restarts so far and the time
/// (nanoseconds on the manager's clock) of its last heartbeat.
#[derive(Debug, Clone, Copy, PartialEq, Eq)]
pub struct ClientHealth {
    pub restart_count: u32,
    pub last_heartbeat: u64,
}

/// Whether a heartbeat came within the last ten whole seconds.
pub open spec fn alive_at(h: ClientHealth, now: u64) -> bool {
    since(h.last_heartbeat, now) / 1_000_000_000 < HEARTBEAT_TIMEOUT_SECS
}

/// Whether a client is dead at `now` and may still be restarted.
pub open spec fn restart_due(h: ClientHealth, now: u64) -> bool {
    !alive_at(h, now) && h.restart_count < MAX_RESTARTS
}

/// A client is restarted at most `MAX_RESTARTS` times: a restart is due only
/// below that count, so counting it never passes the bound; and a client
/// whose heartbeat arrived less than ten seconds ago is never due.
pub proof fn law_restarts_bounded(h: ClientHealth, now: u64)
    requires
        h.restart_count <= MAX_RESTARTS,
    ensures
        restart_due(h, now) ==> h.restart_count + 1 <= MAX_RESTARTS,
        h.last_heartbeat <= now && now - h.last_heartbeat < HEARTBEAT_TIMEOUT_SECS * 1_000_000_000
            ==> alive_at(h, now) && !restart_due(h, now),
{
    if h.last_heartbeat <= now && now - h.last_heartbeat < HEARTBEAT_TIMEOUT_SECS * 1_000_000_000 {
        let e = now - h.last_heartbeat;
        assert(e / 1_000_000_000 < 10) by (nonlinear_arith)
            requires 0 <= e < 10_000_000_000;
    }
}

impl ClientHealth {
    /// A client started at `now`.
    pub fn new(now: u64) -> (r: Self)
        ensures
            r == (ClientHealth { restart_count: 0, last_heartbeat: now }),
    {
        ClientHealth { restart_count: 0, last_heartbeat: now }
    }

    /// A heartbeat arrived at `now`.
    pub fn update_heartbeat(&mut self, now: u64)
        ensures
            *final(self) == (ClientHealth { last_heartbeat: now, ..*old(self) }),
    {
        self.last_heartbeat = now;
    }

    /// Whether a heartbeat came within the last ten whole seconds.
    pub fn is_alive(&self, now: u64) -> (r: bool)
        ensures
            r == alive_at(*self, now),
    {
        let e = if now >= self.last_heartbeat { now - self.last_heartbeat } else { 0 };
        e / 1_000_000_000 < HEARTBEAT_TIMEOUT_SECS
    }

    /// Whether the client is dead and may still be restarted (at most three times).
    pub fn should_restart(&self, now: u64) -> (r: bool)
        ensures
            r == restart_due(*self, now),
    {
        !self.is_alive(now) && self.restart_count < MAX_RESTARTS
    }

    /// Counts a restart.
    pub fn increment_restart(&mut self)
        requires
            old(self).restart_count < u32::MAX,
        ensures
            *final(self) == (ClientHealth { restart_count: (old(self).restart_count + 1) as u32, ..*old(self) }),
    {
        self.restart_count = self.restart_count + 1;
    }
}

} // verus!
