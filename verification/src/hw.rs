//! Input-device choices: click modes, input modes, message parameters and
//! the serial commands of the Arduino mouse.
use vstd::prelude::*;
use vstd::string::*;
use vstd::utf8::{
    is_ascii_chars, encode_utf8, decode_utf8, is_char_boundary, encode_utf8_decode_utf8, is_ascii_chars_encode_utf8,
    encode_utf8_valid_utf8, is_continuation_byte, is_char_boundary_iff_not_is_continuation_byte,
};
use crate::text::{occurs_at, str_eq, to_lower, to_upper, lower_of, upper_of, find_str, find_spec, ascii_upper_char};
use crate::num::{starts_with, starts_with_spec};

verus! {

broadcast use vstd::string::group_string_axioms;

/// How clicks reach a background window.
#[derive(Debug, Clone, Copy, PartialEq, Eq, Structural)]
pub enum ClickMode {
    /// Posted window messages only; the window stays in the background.
    PostMessageW,
    /// The window is brought to the front for the click.
    FocusSwap,
    /// Messages by default, focus swap where needed.
    Hibrit,
}

/// The click mode a (lower-cased) name selects: `postmessagew`,
/// `postmessage`, `post`; `focusswap`, `focus`, `swap`; anything else Hibrit.
pub open spec fn click_mode_of(lower: Seq<char>) -> ClickMode {
    if lower == "postmessagew"@ || lower == "postmessage"@ || lower == "post"@ {
        ClickMode::PostMessageW
    } else if lower == "focusswap"@ || lower == "focus"@ || lower == "swap"@ {
        ClickMode::FocusSwap
    } else {
        ClickMode::Hibrit
    }
}

/// Name of a click mode.
pub open spec fn click_mode_name(m: ClickMode) -> Seq<char> {
    match m {
        ClickMode::PostMessageW => "PostMessageW"@,
        ClickMode::FocusSwap => "FocusSwap"@,
        ClickMode::Hibrit => "Hibrit"@,
    }
}

impl ClickMode {
    /// The click mode a name selects, case-insensitively.
    pub fn from_str(s: &str) -> (r: ClickMode)
        ensures
            r == click_mode_of(lower_of(s@)),
    {
        let lower = to_lower(s);
        let l = lower.as_str();
        if str_eq(l, "postmessagew") || str_eq(l, "postmessage") || str_eq(l, "post") {
            ClickMode::PostMessageW
        } else if str_eq(l, "focusswap") || str_eq(l, "focus") || str_eq(l, "swap") {
            ClickMode::FocusSwap
        } else {
            ClickMode::Hibrit
        }
    }

    /// Name of the click mode.
    pub fn as_str(&self) -> (r: &'static str)
        ensures
            r@ == click_mode_name(*self),
    {
        match self {
            ClickMode::PostMessageW => "PostMessageW",
            ClickMode::FocusSwap => "FocusSwap",
            ClickMode::Hibrit => "Hibrit",
        }
    }
}

/// Reading back the name of a click mode gives the same mode.
pub proof fn law_click_mode_roundtrip(m: ClickMode)
    ensures
        click_mode_of(lower_of(click_mode_name(m))) == m,
{
    reveal_strlit("PostMessageW");
    reveal_strlit("FocusSwap");
    reveal_strlit("Hibrit");
    reveal_strlit("postmessagew");
    reveal_strlit("postmessage");
    reveal_strlit("post");
    reveal_strlit("focusswap");
    reveal_strlit("focus");
    reveal_strlit("swap");
    let n = click_mode_name(m);
    assert(is_ascii_chars(n));
    let l = lower_of(n);
    match m {
        ClickMode::PostMessageW => {
            assert(l =~= "postmessagew"@);
        },
        ClickMode::FocusSwap => {
            assert(l =~= "focusswap"@);
        },
        ClickMode::Hibrit => {
            assert(l.len() == 6);
            assert(l != "postmessagew"@ && l != "postmessage"@ && l != "post"@);
            assert(l != "focusswap"@ && l != "focus"@ && l != "swap"@);
        },
    }
}

/// How the mouse and keyboard are driven.
#[derive(Debug)]
pub enum InputMode {
    /// Windows input API.
    WinAPI,
    /// An Arduino on a serial port (`Arduino_COM3`, `Arduino_AUTO`, ...).
    Arduino { port_name: String },
    /// A kernel-level virtual mouse (falls back to the Windows input API).
    Interception,
}

/// The input mode in force after a mode was asked for: an Arduino only when
/// its serial port was opened, else the Windows input API; other modes as
/// asked.
pub fn mode_after_open(requested: &InputMode, port_opened: bool) -> (r: InputMode)
    ensures
        match *requested {
            InputMode::Arduino { port_name } => if port_opened {
                r matches InputMode::Arduino { port_name: p } && p@ == port_name@
            } else {
                r is WinAPI
            },
            InputMode::WinAPI => r is WinAPI,
            InputMode::Interception => r is Interception,
        },
{
    match requested {
        InputMode::Arduino { port_name } => {
            if port_opened {
                InputMode::Arduino { port_name: port_name.clone() }
            } else {
                InputMode::WinAPI
            }
        },
        InputMode::WinAPI => InputMode::WinAPI,
        InputMode::Interception => InputMode::Interception,
    }
}

/// The port name kept for reconnecting: the name of an Arduino mode, empty
/// for any other mode.
pub fn reconnect_port_name(mode: &InputMode) -> (r: String)
    ensures
        match *mode {
            InputMode::Arduino { port_name } => r@ == port_name@,
            _ => r@.len() == 0,
        },
{
    match mode {
        InputMode::Arduino { port_name } => port_name.clone(),
        _ => String::new(),
    }
}

/// Minimum time between two reconnect attempts of the serial port.
pub const RECONNECT_INTERVAL: u64 = 3_000_000_000;

/// Whether a reconnect may be tried at `now` given the last attempt (both in
/// nanoseconds): not within `RECONNECT_INTERVAL` of it; when it may, `now`
/// becomes the last attempt.
pub fn reconnect_allowed(last_attempt: &mut u64, now: u64) -> (r: bool)
    ensures
        r == !(now >= *old(last_attempt) && now - *old(last_attempt) < RECONNECT_INTERVAL),
        r ==> *final(last_attempt) == now,
        !r ==> *final(last_attempt) == *old(last_attempt),
{
    if now >= *last_attempt && now - *last_attempt < RECONNECT_INTERVAL {
        false
    } else {
        *last_attempt = now;
        true
    }
}

/// Whether `s` holds `p`.
pub open spec fn contains_spec(s: Seq<char>, p: Seq<char>) -> bool {
    find_spec(s, p) is Some
}

/// The input mode of a driver name: an Arduino on that port when the name
/// holds `Arduino`, else the Windows input API.
pub fn input_mode_for_driver(driver: &str) -> (r: InputMode)
    ensures
        contains_spec(driver@, "Arduino"@) ==> (r matches InputMode::Arduino { port_name } && port_name@ == driver@),
        !contains_spec(driver@, "Arduino"@) ==> r is WinAPI,
{
    if find_str(driver, "Arduino").is_some() {
        InputMode::Arduino { port_name: driver.to_string() }
    } else {
        InputMode::WinAPI
    }
}

/// The `LPARAM` of a mouse message at client point `(x, y)`: the low 16 bits
/// of `x` in the low word, the low 16 bits of `y` in the high word.
pub open spec fn lparam_of(x: i32, y: i32) -> u32 {
    ((x as u16) as u32 | (((y as u16) as u32) << 16u32)) as u32
}

/// Packs a client point into a mouse message parameter.
pub fn pack_lparam(x: i32, y: i32) -> (r: u32)
    ensures
        r == lparam_of(x, y),
        r as int == (x as u16) as int + (y as u16) as int * 65536,
{
    let lo = x as u16 as u32;
    let hi = y as u16 as u32;
    let r = lo | (hi << 16u32);
    assert(lo < 65536 && hi < 65536);
    assert(r == lo + hi * 65536) by (bit_vector)
        requires lo < 65536u32, hi < 65536u32, r == lo | (hi << 16u32);
    r
}

/// Mouse button of a button name: `right`, else left.
#[derive(Debug, Clone, Copy, PartialEq, Eq, Structural)]
pub enum MouseButton {
    Left,
    Right,
}

/// The mouse button a name selects.
pub fn mouse_button(name: &str) -> (r: MouseButton)
    ensures
        r == (if name@ == "right"@ { MouseButton::Right } else { MouseButton::Left }),
{
    if str_eq(name, "right") { MouseButton::Right } else { MouseButton::Left }
}

/// Serial command of the Arduino mouse for a click of a named button.
pub fn arduino_click_command(name: &str) -> (r: &'static str)
    ensures
        r@ == (if name@ == "right"@ { "C2\n"@ } else { "C1\n"@ }),
{
    if str_eq(name, "right") { "C2\n" } else { "C1\n" }
}

/// Decimal digits of a natural number.
pub open spec fn nat_text(n: nat) -> Seq<char>
    decreases n,
{
    if n < 10 {
        seq![('0' as int + n) as char]
    } else {
        nat_text(n / 10).push(('0' as int + n % 10) as char)
    }
}

/// Decimal text of an integer, with `-` when negative.
pub open spec fn int_text(v: int) -> Seq<char> {
    if v < 0 {
        seq!['-'] + nat_text((-v) as nat)
    } else {
        nat_text(v as nat)
    }
}

fn digit_str(d: u64) -> (r: &'static str)
    requires
        d < 10,
    ensures
        r@ == seq![('0' as int + d) as char],
{
    proof {
        reveal_strlit("0");
        reveal_strlit("1");
        reveal_strlit("2");
        reveal_strlit("3");
        reveal_strlit("4");
        reveal_strlit("5");
        reveal_strlit("6");
        reveal_strlit("7");
        reveal_strlit("8");
        reveal_strlit("9");
    }
    if d == 0 {
        "0"
    } else if d == 1 {
        "1"
    } else if d == 2 {
        "2"
    } else if d == 3 {
        "3"
    } else if d == 4 {
        "4"
    } else if d == 5 {
        "5"
    } else if d == 6 {
        "6"
    } else if d == 7 {
        "7"
    } else if d == 8 {
        "8"
    } else {
        "9"
    }
}

pub(crate) fn append_nat(out: &mut String, n: u64)
    ensures
        final(out)@ == old(out)@ + nat_text(n as nat),
    decreases n,
{
    if n < 10 {
        out.append(digit_str(n));
    } else {
        append_nat(out, n / 10);
        out.append(digit_str(n % 10));
        assert(nat_text(n as nat) == nat_text((n / 10) as nat).push(('0' as int + n % 10) as char));
    }
}

/// Appends the decimal text of an integer.
pub fn append_int(out: &mut String, v: i32)
    ensures
        final(out)@ == old(out)@ + int_text(v as int),
{
    if v < 0 {
        proof {
            reveal_strlit("-");
        }
        out.append("-");
        let m = (0i64 - v as i64) as u64;
        append_nat(out, m);
        assert(final(out)@ =~= old(out)@ + int_text(v as int));
    } else {
        append_nat(out, v as u64);
    }
}

/// Serial command of the Arduino mouse moving to `(x, y)`: `M<x>,<y>` and a
/// newline.
pub fn arduino_move_command(x: i32, y: i32) -> (r: String)
    ensures
        r@ == "M"@ + int_text(x as int) + ","@ + int_text(y as int) + "\n"@,
{
    let mut s = String::new();
    s.append("M");
    append_int(&mut s, x);
    s.append(",");
    append_int(&mut s, y);
    s.append("\n");
    s
}

/// Whether a click goes through posted messages (else through a focus swap).
pub open spec fn posts_click(m: ClickMode) -> bool {
    m == ClickMode::PostMessageW
}

/// How a background click at a window is made: nothing without a window,
/// posted messages in `PostMessageW` mode, a focus swap otherwise.
pub fn background_click_route(window_ok: bool, mode: ClickMode) -> (r: Option<bool>)
    ensures
        r == (if window_ok { Some(posts_click(mode)) } else { None::<bool> }),
{
    if !window_ok {
        return None;
    }
    match mode {
        ClickMode::PostMessageW => Some(true),
        ClickMode::FocusSwap | ClickMode::Hibrit => Some(false),
    }
}

/// The serial port an Arduino driver name designates, given the ports found
/// on the machine: with `AUTO`, the first port whose upper-cased name starts
/// with `COM`; with `COM` somewhere in the upper-cased name, the ASCII
/// letters and digits of the name from the same byte offset on; else the
/// name itself.
pub open spec fn port_for(raw: Seq<char>, ports: Seq<Seq<char>>) -> Option<Seq<char>> {
    let upper = upper_of(raw);
    if find_spec(upper, "AUTO"@) is Some {
        if exists|i: int| 0 <= i < ports.len() && is_com_port(#[trigger] ports[i]) {
            Some(ports[choose|i: int| 0 <= i < ports.len() && is_com_port(ports[i])
                && forall|j: int| 0 <= j < i ==> !is_com_port(#[trigger] ports[j])])
        } else {
            None
        }
    } else {
        match find_spec(upper, "COM"@) {
            Some(k) => Some(alnum_run(decode_utf8(byte_tail(raw, com_offset(upper, k))))),
            None => Some(raw),
        }
    }
}

/// The byte offset, in the upper-cased name `upper`, of its character `k`.
pub open spec fn com_offset(upper: Seq<char>, k: int) -> int {
    encode_utf8(upper.subrange(0, k)).len() as usize as int
}

/// The bytes of the name `raw` from byte offset `i` on.
pub open spec fn byte_tail(raw: Seq<char>, i: int) -> Seq<u8> {
    encode_utf8(raw).subrange(i, encode_utf8(raw).len() as int)
}

/// Whether the name can be cut where `COM` starts in its upper-cased form:
/// the byte offset of that `COM` is a character boundary of the name
/// itself (always so for an ASCII name; upper-casing may shift it
/// otherwise). Names without `COM`, or with `AUTO`, are not cut.
pub open spec fn port_cut_ok(raw: Seq<char>) -> bool {
    let upper = upper_of(raw);
    find_spec(upper, "AUTO"@) is None ==> match find_spec(upper, "COM"@) {
        Some(k) => {
            &&& com_offset(upper, k) <= encode_utf8(raw).len()
            &&& is_char_boundary(encode_utf8(raw), com_offset(upper, k))
        },
        None => true,
    }
}

/// Whether a port name, upper-cased, starts with `COM`.
#[verifier::opaque]
pub open spec fn is_com_port(p: Seq<char>) -> bool {
    starts_with_spec(upper_of(p), "COM"@)
}

/// Whether a character is an ASCII letter or digit.
pub open spec fn is_ascii_alnum(c: char) -> bool {
    ('0' <= c <= '9') || ('A' <= c <= 'Z') || ('a' <= c <= 'z')
}

/// The leading run of ASCII letters and digits.
pub open spec fn alnum_run(s: Seq<char>) -> Seq<char>
    decreases s.len(),
{
    if s.len() > 0 && is_ascii_alnum(s[0]) {
        seq![s[0]] + alnum_run(s.drop_first())
    } else {
        Seq::<char>::empty()
    }
}

fn alnum_run_exec(s: &str) -> (r: &str)
    ensures
        r@ == alnum_run(s@),
{
    let v = crate::text::chars_of(s);
    let n = v.len();
    let mut i: usize = 0;
    assert(s@.subrange(0, 0) =~= Seq::<char>::empty());
    assert(s@.subrange(0, n as int) =~= s@);
    while i < n && (('0' <= v[i] && v[i] <= '9') || ('A' <= v[i] && v[i] <= 'Z') || ('a' <= v[i] && v[i] <= 'z'))
        invariant
            i <= n,
            n == s@.len(),
            v@ == s@,
            alnum_run(s@) == s@.subrange(0, i as int) + alnum_run(s@.subrange(i as int, n as int)),
        decreases n - i,
    {
        assert(s@.subrange(i as int, n as int).drop_first() =~= s@.subrange(i + 1, n as int));
        assert(s@.subrange(0, i as int) + seq![s@[i as int]] =~= s@.subrange(0, i + 1));
        i = i + 1;
    }
    assert(alnum_run(s@.subrange(i as int, n as int)) =~= Seq::<char>::empty());
    s.substring_char(0, i)
}

/// Every ASCII name can be cut where `COM` starts.
#[verifier::spinoff_prover]
#[verifier::rlimit(40)]
pub proof fn lemma_ascii_port_cut_ok(raw: Seq<char>)
    requires
        is_ascii_chars(raw),
        raw.len() <= usize::MAX,
    ensures
        port_cut_ok(raw),
{
    let upper = upper_of(raw);
    assert(upper == raw.map_values(|c: char| ascii_upper_char(c)));
    assert(upper.len() == raw.len());
    if find_spec(upper, "AUTO"@) is None {
        if let Some(k) = find_spec(upper, "COM"@) {
            crate::text::lemma_find_spec_occurs(upper, "COM"@);
            assert(occurs_at(upper, "COM"@, k));
            reveal_strlit("COM");
            assert(k < raw.len());
            lemma_ascii_prefix_offset(raw, upper, k);
            let bytes = encode_utf8(raw);
            is_ascii_chars_encode_utf8(raw);
            encode_utf8_valid_utf8(raw);
            assert(bytes.len() == raw.len());
            assert(com_offset(upper, k) <= bytes.len());
            assert('\0' <= raw[k] <= '\u{7f}');
            assert(raw[k] as u8 == bytes[k]);
            assert(!is_continuation_byte(bytes[k]));
            is_char_boundary_iff_not_is_continuation_byte(bytes, k);
            assert(is_char_boundary(bytes, com_offset(upper, k)));
        }
    }
}

proof fn lemma_ascii_prefix_offset(raw: Seq<char>, upper: Seq<char>, k: int)
    requires
        is_ascii_chars(raw),
        upper == raw.map_values(|c: char| ascii_upper_char(c)),
        0 <= k < raw.len(),
        raw.len() <= usize::MAX,
    ensures
        com_offset(upper, k) == k,
{
    let sub = upper.subrange(0, k);
    assert(is_ascii_chars(sub)) by {
        assert forall|i: int| 0 <= i < sub.len() implies '\0' <= #[trigger] sub[i] <= '\u{7f}' by {
            assert(sub[i] == upper[i]);
            assert(upper[i] == ascii_upper_char(raw[i]));
            assert('\0' <= raw[i] <= '\u{7f}');
        }
    }
    is_ascii_chars_encode_utf8(sub);
}

/// The serial port an Arduino driver name designates (see `port_for`); the
/// name can be cut where `COM` starts (see `port_cut_ok`).
pub fn resolve_port_name(raw: &str, ports: &Vec<String>) -> (r: Option<String>)
    requires
        port_cut_ok(raw@),
    ensures
        match r {
            Some(p) => port_for(raw@, ports@.map_values(|s: String| s@)) == Some(p@),
            None => port_for(raw@, ports@.map_values(|s: String| s@)) is None,
        },
{
    let ghost pv = ports@.map_values(|s: String| s@);
    let upper = to_upper(raw);
    if find_str(upper.as_str(), "AUTO").is_some() {
        let mut i: usize = 0;
        while i < ports.len()
            invariant
                i <= ports@.len(),
                pv == ports@.map_values(|s: String| s@),
                find_spec(upper_of(raw@), "AUTO"@) is Some,
                forall|j: int| 0 <= j < i ==> !is_com_port(#[trigger] pv[j]),
            decreases ports@.len() - i,
        {
            let pu = to_upper(ports[i].as_str());
            assert(pv[i as int] == ports@[i as int]@);
            if starts_with(pu.as_str(), "COM") {
                assert(is_com_port(pv[i as int])) by {
                    reveal(is_com_port);
                }
                let ghost c = choose|c: int| 0 <= c < pv.len() && is_com_port(pv[c])
                    && forall|j: int| 0 <= j < c ==> !is_com_port(#[trigger] pv[j]);
                assert(c == i as int) by {
                    if c < i as int {
                    } else if c > i as int {
                    }
                }
                return Some(ports[i].clone());
            }
            assert(!is_com_port(pv[i as int])) by {
                reveal(is_com_port);
            }
            i = i + 1;
        }
        return None;
    }
    match find_str(upper.as_str(), "COM") {
        Some(k) => {
            let head = upper.as_str().substring_char(0, k);
            let idx = head.len();
            assert(idx as int == com_offset(upper@, k as int));
            let (_, tail) = raw.split_at(idx);
            proof {
                encode_utf8_decode_utf8(tail@);
                assert(tail@ == decode_utf8(byte_tail(raw@, idx as int)));
            }
            Some(alnum_run_exec(tail).to_string())
        },
        None => Some(raw.to_string()),
    }
}

} // verus!
