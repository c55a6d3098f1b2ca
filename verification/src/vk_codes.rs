//! Key names to Windows virtual-key codes, and key combinations such as
//! `"Ctrl+G"`.
use vstd::prelude::*;
use vstd::string::*;
use crate::text::{
    trim, to_upper, str_eq, split_char, split_spec, strs_view, trim_spec, upper_of, ascii_upper_char, lemma_trim_shape,
    lemma_trim_unchanged,
};
use vstd::utf8::is_ascii_chars;
use crate::num::{is_digit, digit_val};

verus! {

broadcast use vstd::string::group_string_axioms;

/// Virtual-key code of a modifier name: CTRL/CONTROL, SHIFT, ALT/MENU.
pub open spec fn modifier_vk(s: Seq<char>) -> Option<u16> {
    if s == "CTRL"@ || s == "CONTROL"@ {
        Some(0x11u16)
    } else if s == "SHIFT"@ {
        Some(0x10u16)
    } else if s == "ALT"@ || s == "MENU"@ {
        Some(0x12u16)
    } else {
        None
    }
}

/// Virtual-key code of a named special key (space, enter, navigation, arrows).
pub open spec fn special_vk(s: Seq<char>) -> Option<u16> {
    if s == "SPACE"@ {
        Some(0x20u16)
    } else if s == "ENTER"@ || s == "RETURN"@ {
        Some(0x0Du16)
    } else if s == "TAB"@ {
        Some(0x09u16)
    } else if s == "ESCAPE"@ || s == "ESC"@ {
        Some(0x1Bu16)
    } else if s == "BACKSPACE"@ || s == "BACK"@ {
        Some(0x08u16)
    } else if s == "DELETE"@ || s == "DEL"@ {
        Some(0x2Eu16)
    } else if s == "INSERT"@ || s == "INS"@ {
        Some(0x2Du16)
    } else if s == "HOME"@ {
        Some(0x24u16)
    } else if s == "END"@ {
        Some(0x23u16)
    } else if s == "PAGEUP"@ || s == "PGUP"@ {
        Some(0x21u16)
    } else if s == "PAGEDOWN"@ || s == "PGDN"@ {
        Some(0x22u16)
    } else if s == "UP"@ {
        Some(0x26u16)
    } else if s == "DOWN"@ {
        Some(0x28u16)
    } else if s == "LEFT"@ {
        Some(0x25u16)
    } else if s == "RIGHT"@ {
        Some(0x27u16)
    } else {
        None
    }
}

/// Virtual-key code of a single letter `A`-`Z` or digit `0`-`9`
/// (their ASCII codes).
pub open spec fn char_key_vk(s: Seq<char>) -> Option<u16> {
    if s.len() == 1 && (('A' <= s[0] <= 'Z') || is_digit(s[0])) {
        Some(s[0] as u16)
    } else {
        None
    }
}

/// Virtual-key code of `F1`-`F12` (0x70-0x7B).
pub open spec fn fkey_vk(s: Seq<char>) -> Option<u16> {
    if s.len() == 2 && s[0] == 'F' && '1' <= s[1] <= '9' {
        Some((0x6F + digit_val(s[1])) as u16)
    } else if s.len() == 3 && s[0] == 'F' && s[1] == '1' && '0' <= s[2] <= '2' {
        Some((0x79 + digit_val(s[2])) as u16)
    } else {
        None
    }
}

/// Virtual-key code of `NUM0`-`NUM9` and `NUMPAD0`-`NUMPAD9` (0x60-0x69).
pub open spec fn numpad_vk(s: Seq<char>) -> Option<u16> {
    if s.len() == 4 && s.take(3) == "NUM"@ && is_digit(s[3]) {
        Some((0x60 + digit_val(s[3])) as u16)
    } else if s.len() == 7 && s.take(6) == "NUMPAD"@ && is_digit(s[6]) {
        Some((0x60 + digit_val(s[6])) as u16)
    } else {
        None
    }
}

/// Virtual-key code of an upper-case key name, or `None` for an unknown name.
pub open spec fn key_vk(s: Seq<char>) -> Option<u16> {
    if modifier_vk(s) is Some {
        modifier_vk(s)
    } else if fkey_vk(s) is Some {
        fkey_vk(s)
    } else if char_key_vk(s) is Some {
        char_key_vk(s)
    } else if special_vk(s) is Some {
        special_vk(s)
    } else {
        numpad_vk(s)
    }
}

/// The spelling under which a key is listed: each alias (`CONTROL`, `MENU`,
/// `RETURN`, `ESC`, `BACK`, `DEL`, `INS`, `PGUP`, `PGDN`, `NUMPAD0`-`NUMPAD9`)
/// stands for its main name (`CTRL`, `ALT`, `ENTER`, `ESCAPE`, `BACKSPACE`,
/// `DELETE`, `INSERT`, `PAGEUP`, `PAGEDOWN`, `NUM0`-`NUM9`); any other name
/// is its own.
pub open spec fn canonical_key(s: Seq<char>) -> Seq<char> {
    if s == "CONTROL"@ {
        "CTRL"@
    } else if s == "MENU"@ {
        "ALT"@
    } else if s == "RETURN"@ {
        "ENTER"@
    } else if s == "ESC"@ {
        "ESCAPE"@
    } else if s == "BACK"@ {
        "BACKSPACE"@
    } else if s == "DEL"@ {
        "DELETE"@
    } else if s == "INS"@ {
        "INSERT"@
    } else if s == "PGUP"@ {
        "PAGEUP"@
    } else if s == "PGDN"@ {
        "PAGEDOWN"@
    } else if s.len() == 7 && s.take(6) == "NUMPAD"@ {
        "NUM"@ + s.skip(6)
    } else {
        s
    }
}

/// The decimal digit character of a value below ten.
pub open spec fn digit_char(d: int) -> char {
    (d + '0' as int) as char
}

/// The main name of the key that has virtual-key code `v`, as the Windows
/// table lists it: CTRL 0x11, SHIFT 0x10, ALT 0x12; F1-F12 0x70-0x7B;
/// digits and letters their ASCII codes; BACKSPACE 0x08, TAB 0x09,
/// ENTER 0x0D, ESCAPE 0x1B, SPACE 0x20, PAGEUP 0x21, PAGEDOWN 0x22, END
/// 0x23, HOME 0x24, LEFT 0x25, UP 0x26, RIGHT 0x27, DOWN 0x28, INSERT 0x2D,
/// DELETE 0x2E; NUM0-NUM9 0x60-0x69. Empty for any other code.
pub open spec fn key_name_of(v: u16) -> Seq<char> {
    if v == 0x11 {
        "CTRL"@
    } else if v == 0x10 {
        "SHIFT"@
    } else if v == 0x12 {
        "ALT"@
    } else if 0x70 <= v <= 0x78 {
        seq!['F', digit_char(v - 0x6F)]
    } else if 0x79 <= v <= 0x7B {
        seq!['F', '1', digit_char(v - 0x79)]
    } else if (0x30 <= v <= 0x39) || (0x41 <= v <= 0x5A) {
        seq![v as char]
    } else if v == 0x08 {
        "BACKSPACE"@
    } else if v == 0x09 {
        "TAB"@
    } else if v == 0x0D {
        "ENTER"@
    } else if v == 0x1B {
        "ESCAPE"@
    } else if v == 0x20 {
        "SPACE"@
    } else if v == 0x21 {
        "PAGEUP"@
    } else if v == 0x22 {
        "PAGEDOWN"@
    } else if v == 0x23 {
        "END"@
    } else if v == 0x24 {
        "HOME"@
    } else if v == 0x25 {
        "LEFT"@
    } else if v == 0x26 {
        "UP"@
    } else if v == 0x27 {
        "RIGHT"@
    } else if v == 0x28 {
        "DOWN"@
    } else if v == 0x2D {
        "INSERT"@
    } else if v == 0x2E {
        "DELETE"@
    } else if 0x60 <= v <= 0x69 {
        "NUM"@ + seq![digit_char(v - 0x60)]
    } else {
        Seq::<char>::empty()
    }
}

proof fn lemma_key_name_letters()
    ensures
        "CTRL"@ == seq!['C', 'T', 'R', 'L'],
        "CONTROL"@ == seq!['C', 'O', 'N', 'T', 'R', 'O', 'L'],
        "SHIFT"@ == seq!['S', 'H', 'I', 'F', 'T'],
        "ALT"@ == seq!['A', 'L', 'T'],
        "MENU"@ == seq!['M', 'E', 'N', 'U'],
        "SPACE"@ == seq!['S', 'P', 'A', 'C', 'E'],
        "ENTER"@ == seq!['E', 'N', 'T', 'E', 'R'],
        "RETURN"@ == seq!['R', 'E', 'T', 'U', 'R', 'N'],
        "TAB"@ == seq!['T', 'A', 'B'],
        "ESCAPE"@ == seq!['E', 'S', 'C', 'A', 'P', 'E'],
        "ESC"@ == seq!['E', 'S', 'C'],
        "BACKSPACE"@ == seq!['B', 'A', 'C', 'K', 'S', 'P', 'A', 'C', 'E'],
        "BACK"@ == seq!['B', 'A', 'C', 'K'],
        "DELETE"@ == seq!['D', 'E', 'L', 'E', 'T', 'E'],
        "DEL"@ == seq!['D', 'E', 'L'],
        "INSERT"@ == seq!['I', 'N', 'S', 'E', 'R', 'T'],
        "INS"@ == seq!['I', 'N', 'S'],
        "HOME"@ == seq!['H', 'O', 'M', 'E'],
        "END"@ == seq!['E', 'N', 'D'],
        "PAGEUP"@ == seq!['P', 'A', 'G', 'E', 'U', 'P'],
        "PGUP"@ == seq!['P', 'G', 'U', 'P'],
        "PAGEDOWN"@ == seq!['P', 'A', 'G', 'E', 'D', 'O', 'W', 'N'],
        "PGDN"@ == seq!['P', 'G', 'D', 'N'],
        "UP"@ == seq!['U', 'P'],
        "DOWN"@ == seq!['D', 'O', 'W', 'N'],
        "LEFT"@ == seq!['L', 'E', 'F', 'T'],
        "RIGHT"@ == seq!['R', 'I', 'G', 'H', 'T'],
        "NUM"@ == seq!['N', 'U', 'M'],
        "NUMPAD"@ == seq!['N', 'U', 'M', 'P', 'A', 'D'],
{
    reveal_strlit("CTRL");
    reveal_strlit("CONTROL");
    reveal_strlit("SHIFT");
    reveal_strlit("ALT");
    reveal_strlit("MENU");
    reveal_strlit("SPACE");
    reveal_strlit("ENTER");
    reveal_strlit("RETURN");
    reveal_strlit("TAB");
    reveal_strlit("ESCAPE");
    reveal_strlit("ESC");
    reveal_strlit("BACKSPACE");
    reveal_strlit("BACK");
    reveal_strlit("DELETE");
    reveal_strlit("DEL");
    reveal_strlit("INSERT");
    reveal_strlit("INS");
    reveal_strlit("HOME");
    reveal_strlit("END");
    reveal_strlit("PAGEUP");
    reveal_strlit("PGUP");
    reveal_strlit("PAGEDOWN");
    reveal_strlit("PGDN");
    reveal_strlit("UP");
    reveal_strlit("DOWN");
    reveal_strlit("LEFT");
    reveal_strlit("RIGHT");
    reveal_strlit("NUM");
    reveal_strlit("NUMPAD");
    assert("CTRL"@ =~= seq!['C', 'T', 'R', 'L']);
    assert("CONTROL"@ =~= seq!['C', 'O', 'N', 'T', 'R', 'O', 'L']);
    assert("SHIFT"@ =~= seq!['S', 'H', 'I', 'F', 'T']);
    assert("ALT"@ =~= seq!['A', 'L', 'T']);
    assert("MENU"@ =~= seq!['M', 'E', 'N', 'U']);
    assert("SPACE"@ =~= seq!['S', 'P', 'A', 'C', 'E']);
    assert("ENTER"@ =~= seq!['E', 'N', 'T', 'E', 'R']);
    assert("RETURN"@ =~= seq!['R', 'E', 'T', 'U', 'R', 'N']);
    assert("TAB"@ =~= seq!['T', 'A', 'B']);
    assert("ESCAPE"@ =~= seq!['E', 'S', 'C', 'A', 'P', 'E']);
    assert("ESC"@ =~= seq!['E', 'S', 'C']);
    assert("BACKSPACE"@ =~= seq!['B', 'A', 'C', 'K', 'S', 'P', 'A', 'C', 'E']);
    assert("BACK"@ =~= seq!['B', 'A', 'C', 'K']);
    assert("DELETE"@ =~= seq!['D', 'E', 'L', 'E', 'T', 'E']);
    assert("DEL"@ =~= seq!['D', 'E', 'L']);
    assert("INSERT"@ =~= seq!['I', 'N', 'S', 'E', 'R', 'T']);
    assert("INS"@ =~= seq!['I', 'N', 'S']);
    assert("HOME"@ =~= seq!['H', 'O', 'M', 'E']);
    assert("END"@ =~= seq!['E', 'N', 'D']);
    assert("PAGEUP"@ =~= seq!['P', 'A', 'G', 'E', 'U', 'P']);
    assert("PGUP"@ =~= seq!['P', 'G', 'U', 'P']);
    assert("PAGEDOWN"@ =~= seq!['P', 'A', 'G', 'E', 'D', 'O', 'W', 'N']);
    assert("PGDN"@ =~= seq!['P', 'G', 'D', 'N']);
    assert("UP"@ =~= seq!['U', 'P']);
    assert("DOWN"@ =~= seq!['D', 'O', 'W', 'N']);
    assert("LEFT"@ =~= seq!['L', 'E', 'F', 'T']);
    assert("RIGHT"@ =~= seq!['R', 'I', 'G', 'H', 'T']);
    assert("NUM"@ =~= seq!['N', 'U', 'M']);
    assert("NUMPAD"@ =~= seq!['N', 'U', 'M', 'P', 'A', 'D']);
}

proof fn lemma_modifier_named(s: Seq<char>)
    requires
        modifier_vk(s) is Some,
    ensures
        canonical_key(s) == key_name_of(modifier_vk(s)->0),
{
    lemma_key_name_letters();
}

proof fn lemma_fkey_named(s: Seq<char>)
    requires
        fkey_vk(s) is Some,
    ensures
        canonical_key(s) == key_name_of(fkey_vk(s)->0),
{
    lemma_key_name_letters();
    if s.len() == 2 {
        assert(s =~= seq!['F', digit_char(fkey_vk(s)->0 - 0x6F)]);
    } else {
        assert(s =~= seq!['F', '1', digit_char(fkey_vk(s)->0 - 0x79)]);
    }
}

proof fn lemma_char_key_named(s: Seq<char>)
    requires
        char_key_vk(s) is Some,
    ensures
        canonical_key(s) == key_name_of(char_key_vk(s)->0),
{
    lemma_key_name_letters();
    assert(s =~= seq![(char_key_vk(s)->0) as char]);
}

proof fn lemma_special_named(s: Seq<char>)
    requires
        special_vk(s) is Some,
    ensures
        canonical_key(s) == key_name_of(special_vk(s)->0),
{
    lemma_key_name_letters();
}

proof fn lemma_numpad_named(s: Seq<char>)
    requires
        numpad_vk(s) is Some,
    ensures
        canonical_key(s) == key_name_of(numpad_vk(s)->0),
{
    lemma_key_name_letters();
    if s.len() == 4 {
        assert(s =~= s.take(3) + seq![s[3]]);
        assert(s =~= "NUM"@ + seq![digit_char(numpad_vk(s)->0 - 0x60)]);
    } else {
        assert(s.skip(6) =~= seq![s[6]]);
        assert("NUM"@ + s.skip(6) =~= "NUM"@ + seq![digit_char(numpad_vk(s)->0 - 0x60)]);
    }
}

/// Each virtual-key code stands for one key: a name that `key_vk` knows is,
/// up to its aliases, the listed name of the code it gets.
pub proof fn law_key_code_names_key(s: Seq<char>)
    ensures
        key_vk(s) matches Some(v) ==> canonical_key(s) == key_name_of(v),
{
    if modifier_vk(s) is Some {
        lemma_modifier_named(s);
    } else if fkey_vk(s) is Some {
        lemma_fkey_named(s);
    } else if char_key_vk(s) is Some {
        lemma_char_key_named(s);
    } else if special_vk(s) is Some {
        lemma_special_named(s);
    } else if numpad_vk(s) is Some {
        lemma_numpad_named(s);
    }
}

/// An alias names the same key as its main name: looking up the main name
/// of a known key name gives the same code.
pub proof fn law_alias_same_key(s: Seq<char>)
    requires
        key_vk(s) is Some,
    ensures
        key_vk(canonical_key(s)) == key_vk(s),
{
    lemma_key_name_letters();
    if s.len() == 7 && s.take(6) == "NUMPAD"@ && canonical_key(s) == "NUM"@ + s.skip(6) {
        let c = "NUM"@ + s.skip(6);
        assert(c.take(3) =~= "NUM"@);
        assert(c[3] == s[6]);
    }
}

/// Distinct key names get distinct virtual-key codes; only a name and its
/// alias share one.
pub proof fn law_key_codes_distinct(a: Seq<char>, b: Seq<char>)
    requires
        key_vk(a) is Some,
        key_vk(a) == key_vk(b),
    ensures
        canonical_key(a) == canonical_key(b),
{
    law_key_code_names_key(a);
    law_key_code_names_key(b);
}

/// The form in which a key name is looked up: trimmed, then upper-cased.
pub open spec fn key_form(name: Seq<char>) -> Seq<char> {
    upper_of(trim_spec(name))
}

/// Looking a key name up trims and upper-cases it once and for all: an
/// ASCII name already in that form is looked up as it is, so
/// `vk_from_name(name)` and `vk_from_name(name.trim().to_uppercase())`
/// agree.
pub proof fn law_key_form_settled(name: Seq<char>)
    requires
        is_ascii_chars(name),
    ensures
        key_form(key_form(name)) == key_form(name),
        key_vk(key_form(key_form(name))) == key_vk(key_form(name)),
{
    let t = trim_spec(name);
    lemma_trim_shape(name);
    let (i, j) = choose|i: int, j: int| 0 <= i <= j <= name.len() && #[trigger] name.subrange(i, j) == t;
    assert(is_ascii_chars(t)) by {
        assert forall|k: int| 0 <= k < t.len() implies '\0' <= #[trigger] t[k] <= '\u{7f}' by {
            assert(t[k] == name[i + k]);
        }
    }
    let u = t.map_values(|c: char| ascii_upper_char(c));
    assert(key_form(name) == u);
    assert(is_ascii_chars(u)) by {
        assert forall|k: int| 0 <= k < u.len() implies '\0' <= #[trigger] u[k] <= '\u{7f}' by {
            assert(u[k] == ascii_upper_char(t[k]));
        }
    }
    if u.len() > 0 {
        assert(u[0] == ascii_upper_char(t[0]));
        assert(u.last() == ascii_upper_char(t.last()));
    }
    lemma_trim_unchanged(u);
    assert(u.map_values(|c: char| ascii_upper_char(c)) =~= u);
}

/// Virtual-key code of an already trimmed, upper-case key name.
pub fn vk_from_upper(s: &str) -> (r: Option<u16>)
    ensures
        r == key_vk(s@),
{
    if str_eq(s, "CTRL") || str_eq(s, "CONTROL") {
        return Some(0x11);
    }
    if str_eq(s, "SHIFT") {
        return Some(0x10);
    }
    if str_eq(s, "ALT") || str_eq(s, "MENU") {
        return Some(0x12);
    }
    let n = s.unicode_len();
    if n == 2 {
        let c0 = s.get_char(0);
        let c1 = s.get_char(1);
        if c0 == 'F' && '1' <= c1 && c1 <= '9' {
            return Some((0x6F + (c1 as u32 - '0' as u32)) as u16);
        }
    }
    if n == 3 {
        let c0 = s.get_char(0);
        let c1 = s.get_char(1);
        let c2 = s.get_char(2);
        if c0 == 'F' && c1 == '1' && '0' <= c2 && c2 <= '2' {
            return Some((0x79 + (c2 as u32 - '0' as u32)) as u16);
        }
    }
    if n == 1 {
        let c = s.get_char(0);
        if ('A' <= c && c <= 'Z') || ('0' <= c && c <= '9') {
            return Some(c as u32 as u16);
        }
    }
    if str_eq(s, "SPACE") {
        return Some(0x20);
    }
    if str_eq(s, "ENTER") || str_eq(s, "RETURN") {
        return Some(0x0D);
    }
    if str_eq(s, "TAB") {
        return Some(0x09);
    }
    if str_eq(s, "ESCAPE") || str_eq(s, "ESC") {
        return Some(0x1B);
    }
    if str_eq(s, "BACKSPACE") || str_eq(s, "BACK") {
        return Some(0x08);
    }
    if str_eq(s, "DELETE") || str_eq(s, "DEL") {
        return Some(0x2E);
    }
    if str_eq(s, "INSERT") || str_eq(s, "INS") {
        return Some(0x2D);
    }
    if str_eq(s, "HOME") {
        return Some(0x24);
    }
    if str_eq(s, "END") {
        return Some(0x23);
    }
    if str_eq(s, "PAGEUP") || str_eq(s, "PGUP") {
        return Some(0x21);
    }
    if str_eq(s, "PAGEDOWN") || str_eq(s, "PGDN") {
        return Some(0x22);
    }
    if str_eq(s, "UP") {
        return Some(0x26);
    }
    if str_eq(s, "DOWN") {
        return Some(0x28);
    }
    if str_eq(s, "LEFT") {
        return Some(0x25);
    }
    if str_eq(s, "RIGHT") {
        return Some(0x27);
    }
    if n == 4 {
        let head = s.substring_char(0, 3);
        let c = s.get_char(3);
        if str_eq(head, "NUM") && '0' <= c && c <= '9' {
            return Some((0x60 + (c as u32 - '0' as u32)) as u16);
        }
    }
    if n == 7 {
        let head = s.substring_char(0, 6);
        let c = s.get_char(6);
        if str_eq(head, "NUMPAD") && '0' <= c && c <= '9' {
            return Some((0x60 + (c as u32 - '0' as u32)) as u16);
        }
    }
    None
}

/// Virtual-key code of a key name; the name is trimmed and upper-cased
/// first, so `" f1 "` and `"F1"` name the same key.
pub fn vk_from_name(name: &str) -> (r: Option<u16>)
    ensures
        r == key_vk(key_form(name@)),
{
    let t = trim(name);
    let upper = to_upper(t);
    vk_from_upper(upper.as_str())
}

/// Virtual-key code of a mount key name, `G` (0x47) when the name is unknown.
pub fn binek_vk_from_name(name: &str) -> (r: u16)
    ensures
        r == (match key_vk(key_form(name@)) {
            Some(v) => v,
            None => 0x47u16,
        }),
{
    match vk_from_name(name) {
        Some(v) => v,
        None => 0x47,
    }
}

/// Modifier codes of the pieces of a combination, in order.
pub open spec fn combo_modifiers(parts: Seq<Seq<char>>) -> Seq<u16>
    decreases parts.len(),
{
    if parts.len() == 0 {
        Seq::<u16>::empty()
    } else {
        let prev = combo_modifiers(parts.drop_last());
        match modifier_vk(key_form(parts.last())) {
            Some(m) => prev.push(m),
            None => prev,
        }
    }
}

/// The main key of a combination: the code of the last piece that is no
/// modifier and names a key (the piece's normalised form is looked up again
/// as a key name).
pub open spec fn combo_main(parts: Seq<Seq<char>>) -> Option<u16>
    decreases parts.len(),
{
    if parts.len() == 0 {
        None
    } else {
        let p = key_form(parts.last());
        if modifier_vk(p) is None && key_vk(key_form(p)) is Some {
            key_vk(key_form(p))
        } else {
            combo_main(parts.drop_last())
        }
    }
}

/// Parses a key combination such as `"Ctrl+G"`, `"Shift+F1"` or `"F2"`:
/// the modifier codes in order of appearance, and the main key.
pub fn parse_key_combo(combo: &str) -> (r: (Vec<u16>, Option<u16>))
    ensures
        r.0@ == combo_modifiers(split_spec(combo@, '+')),
        r.1 == combo_main(split_spec(combo@, '+')),
{
    let parts = split_char(combo, '+');
    let ghost pv = strs_view(parts@);
    let mut modifiers: Vec<u16> = Vec::new();
    let mut main_key: Option<u16> = None;
    let mut i: usize = 0;
    assert(pv.take(0) =~= Seq::<Seq<char>>::empty());
    while i < parts.len()
        invariant
            i <= parts@.len(),
            pv == strs_view(parts@),
            pv == split_spec(combo@, '+'),
            modifiers@ == combo_modifiers(pv.take(i as int)),
            main_key == combo_main(pv.take(i as int)),
        decreases parts@.len() - i,
    {
        assert(pv.take(i + 1).drop_last() =~= pv.take(i as int));
        assert(pv.take(i + 1).last() == parts@[i as int]@);
        let t = trim(parts[i]);
        let p = to_upper(t);
        let ps = p.as_str();
        if str_eq(ps, "CTRL") || str_eq(ps, "CONTROL") {
            modifiers.push(0x11);
        } else if str_eq(ps, "SHIFT") {
            modifiers.push(0x10);
        } else if str_eq(ps, "ALT") || str_eq(ps, "MENU") {
            modifiers.push(0x12);
        } else {
            if let Some(vk) = vk_from_name(ps) {
                main_key = Some(vk);
            }
        }
        i = i + 1;
    }
    assert(pv.take(parts@.len() as int) =~= pv);
    (modifiers, main_key)
}


/// A key press sent to a window: one key, one modifier with a key, or two
/// modifiers with a key.
#[derive(Debug, Clone, Copy, PartialEq, Eq, Structural)]
pub enum KeyAction {
    Press(u16),
    Combo(u16, u16),
    Combo2(u16, u16, u16),
}

/// The press for parsed combination parts: two modifiers, one modifier or
/// the bare key (also when there are more modifiers); nothing without a
/// main key.
pub open spec fn combo_action(mods: Seq<u16>, main: Option<u16>) -> Option<KeyAction> {
    match main {
        Some(k) => if mods.len() == 2 {
            Some(KeyAction::Combo2(mods[0], mods[1], k))
        } else if mods.len() == 1 {
            Some(KeyAction::Combo(mods[0], k))
        } else {
            Some(KeyAction::Press(k))
        },
        None => None,
    }
}

/// The press of a skill key after respawning: nothing for an empty key or a
/// combination without a main key.
pub fn skill_key_action(key: &str) -> (r: Option<KeyAction>)
    ensures
        r == (if key@.len() == 0 {
            None
        } else {
            combo_action(combo_modifiers(split_spec(key@, '+')), combo_main(split_spec(key@, '+')))
        }),
{
    if key.unicode_len() == 0 {
        return None;
    }
    let (mods, main) = parse_key_combo(key);
    match main {
        Some(k) => {
            if mods.len() == 2 {
                Some(KeyAction::Combo2(mods[0], mods[1], k))
            } else if mods.len() == 1 {
                Some(KeyAction::Combo(mods[0], k))
            } else {
                Some(KeyAction::Press(k))
            }
        },
        None => None,
    }
}

/// The press of the mount key: with a main key, the first modifier (if any)
/// with it; without one, `G` (0x47).
pub open spec fn mount_action(mods: Seq<u16>, main: Option<u16>) -> KeyAction {
    match main {
        Some(k) => if mods.len() > 0 { KeyAction::Combo(mods[0], k) } else { KeyAction::Press(k) },
        None => KeyAction::Press(0x47),
    }
}

/// The press of the mount key (see `mount_action`).
pub fn mount_key_action(key: &str) -> (r: KeyAction)
    ensures
        r == mount_action(combo_modifiers(split_spec(key@, '+')), combo_main(split_spec(key@, '+'))),
{
    let (mods, main) = parse_key_combo(key);
    match main {
        Some(k) => if mods.len() > 0 { KeyAction::Combo(mods[0], k) } else { KeyAction::Press(k) },
        None => KeyAction::Press(0x47),
    }
}

/// The pickup key of an (upper-cased) key name: Z, X, C, V, F, G or SPACE,
/// and Z for anything else.
pub open spec fn pickup_vk_of(upper: Seq<char>) -> u16 {
    if upper == "Z"@ {
        0x5A
    } else if upper == "X"@ {
        0x58
    } else if upper == "C"@ {
        0x43
    } else if upper == "V"@ {
        0x56
    } else if upper == "F"@ {
        0x46
    } else if upper == "G"@ {
        0x47
    } else if upper == "SPACE"@ {
        0x20
    } else {
        0x5A
    }
}

/// The pickup key configured by name (see `pickup_vk_of`).
pub fn pickup_vk(key: &str) -> (r: u16)
    ensures
        r == pickup_vk_of(upper_of(key@)),
{
    let u = to_upper(key);
    let s = u.as_str();
    if str_eq(s, "Z") {
        0x5A
    } else if str_eq(s, "X") {
        0x58
    } else if str_eq(s, "C") {
        0x43
    } else if str_eq(s, "V") {
        0x56
    } else if str_eq(s, "F") {
        0x46
    } else if str_eq(s, "G") {
        0x47
    } else if str_eq(s, "SPACE") {
        0x20
    } else {
        0x5A
    }
}

/// The potion key configured by name, `1` (0x31) when the name is unknown.
pub fn pot_vk(key: &str) -> (r: u16)
    ensures
        r == (match key_vk(key_form(key@)) {
            Some(v) => v,
            None => 0x31u16,
        }),
{
    match vk_from_name(key) {
        Some(v) => v,
        None => 0x31,
    }
}

} // verus!
