//! Recovering the sender and the text of a private message from an OCR line.
use vstd::prelude::*;
use vstd::string::*;
use crate::text::{
    blen, trim_spec, trim, find_spec, find_str, has_white, has_char, contains_white, contains_char,
    trim_start_char_spec, trim_start_char, count_lower, lower_count, count_alnum, alnum_count,
    has_alpha, contains_alpha, is_upper, char_is_uppercase, chars_of,
};

verus! {

broadcast use vstd::string::group_string_axioms;

/// A parsed message: sender and text.
pub type PmParse = Option<(Seq<char>, Seq<char>)>;

/// `[Sender]: text`: the sender between the brackets, the text after the
/// closing bracket with its leading colons and surrounding whitespace dropped.
pub open spec fn bracket_parse(t: Seq<char>) -> PmParse {
    if t.len() > 0 && t[0] == '[' {
        match find_spec(t, "]"@) {
            Some(k) => {
                let sender = trim_spec(t.subrange(1, k));
                let rest = trim_spec(trim_start_char_spec(t.subrange(k + 1, t.len() as int), ':'));
                if 2 <= blen(sender) <= 20 && rest.len() > 0 && blen(rest) >= 2 {
                    Some((sender, rest))
                } else {
                    None
                }
            },
            None => None,
        }
    } else {
        None
    }
}

/// `Sender<sep>text` for one separator: split at its first occurrence; the
/// sender must be 2-20 bytes with two alphanumerics, the text 2-200 bytes.
pub open spec fn sep_parse(t: Seq<char>, sep: Seq<char>) -> PmParse {
    match find_spec(t, sep) {
        Some(k) => {
            let sender = trim_spec(t.subrange(0, k));
            let after = trim_spec(t.subrange(k + sep.len(), t.len() as int));
            if 2 <= blen(sender) <= 20 && 2 <= blen(after) <= 200 && count_alnum(sender) >= 2 {
                Some((sender, after))
            } else {
                None
            }
        },
        None => None,
    }
}

/// The separators tried in order: `:`, ` :`, `>`, ` -`, `- `, `»`, `›`.
pub open spec fn separator_parse(t: Seq<char>) -> PmParse {
    if sep_parse(t, ":"@) is Some {
        sep_parse(t, ":"@)
    } else if sep_parse(t, " :"@) is Some {
        sep_parse(t, " :"@)
    } else if sep_parse(t, ">"@) is Some {
        sep_parse(t, ">"@)
    } else if sep_parse(t, " -"@) is Some {
        sep_parse(t, " -"@)
    } else if sep_parse(t, "- "@) is Some {
        sep_parse(t, "- "@)
    } else if sep_parse(t, "»"@) is Some {
        sep_parse(t, "»"@)
    } else {
        sep_parse(t, "›"@)
    }
}

/// A line introduced by a keyword such as `PM:`: the sender is unknown and
/// the text (at least 3 bytes) follows the keyword's first occurrence.
pub open spec fn keyword_try(t: Seq<char>, kw: Seq<char>) -> PmParse {
    match find_spec(t, kw) {
        Some(k) => {
            let after = trim_spec(t.subrange(k + kw.len(), t.len() as int));
            if blen(after) >= 3 {
                Some(("Bilinmeyen"@, after))
            } else {
                None
            }
        },
        None => None,
    }
}

/// The keywords tried in order: `PM:`, `pm:`, `Özel:`, `özel:`, `Private:`,
/// `private:`.
pub open spec fn keyword_parse(t: Seq<char>) -> PmParse {
    if keyword_try(t, "PM:"@) is Some {
        keyword_try(t, "PM:"@)
    } else if keyword_try(t, "pm:"@) is Some {
        keyword_try(t, "pm:"@)
    } else if keyword_try(t, "Özel:"@) is Some {
        keyword_try(t, "Özel:"@)
    } else if keyword_try(t, "özel:"@) is Some {
        keyword_try(t, "özel:"@)
    } else if keyword_try(t, "Private:"@) is Some {
        keyword_try(t, "Private:"@)
    } else {
        keyword_try(t, "private:"@)
    }
}

/// Position of the first upper-case character at or after `i`, or 0 when
/// there is none.
pub open spec fn first_upper_from(c: Seq<char>, i: nat) -> nat
    decreases c.len() - i,
{
    if i >= c.len() {
        0
    } else if is_upper(c[i as int]) {
        i
    } else {
        first_upper_from(c, i + 1)
    }
}

/// Tries sender lengths `len`, `len - 1`, ... down to 4: the first split whose
/// text is at least 3 bytes and holds a letter.
pub open spec fn fuzzy_scan(c: Seq<char>, len: nat) -> PmParse
    decreases len,
{
    if len < 4 {
        None
    } else if len < c.len() && blen(c.subrange(len as int, c.len() as int)) >= 3 && has_alpha(
        c.subrange(len as int, c.len() as int),
    ) {
        Some((c.subrange(0, len as int), c.subrange(len as int, c.len() as int)))
    } else {
        fuzzy_scan(c, (len - 1) as nat)
    }
}

/// Guess at a line whose separator was lost: 8-40 bytes; split before the
/// first upper-case letter after the first character, or else at the longest
/// sender length from 12 down to 4 that leaves a meaningful text.
pub open spec fn fuzzy_spec(t: Seq<char>) -> PmParse {
    if blen(t) < 8 || blen(t) > 40 {
        None
    } else {
        let e = first_upper_from(t, 1);
        if e == 0 {
            fuzzy_scan(t, 12)
        } else if 2 <= blen(t.subrange(0, e as int)) <= 20 && blen(t.subrange(e as int, t.len() as int)) >= 3 {
            Some((t.subrange(0, e as int), t.subrange(e as int, t.len() as int)))
        } else {
            None
        }
    }
}

/// Whether the text holds one of the separator characters `:`, `>`, `-`, `]`.
pub open spec fn has_sep_char(t: Seq<char>) -> bool {
    has_char(t, ':') || has_char(t, '>') || has_char(t, '-') || has_char(t, ']')
}

/// Whether every character is an ASCII lower-case letter.
pub open spec fn ascii_lower_word(t: Seq<char>) -> bool {
    forall|i: int| 0 <= i < t.len() ==> 'a' <= #[trigger] t[i] <= 'z'
}

/// What a private-message line parses to. Rejected: empty lines, meaningless
/// OCR words (over 10 bytes, without whitespace or separator, made of ASCII
/// lower-case letters only, such as `steuijetarett`), lines under 5 bytes,
/// and short lines (under 15 bytes) made of lower-case letters only. Any
/// other long word without whitespace or separator goes to the fuzzy guess;
/// otherwise the bracket form, the separators, the keywords and finally the
/// fuzzy guess are tried in turn.
pub open spec fn extract_pm_spec(ocr: Seq<char>) -> PmParse {
    let t = trim_spec(ocr);
    if t.len() == 0 {
        None
    } else if !has_white(t) && !has_sep_char(t) && blen(t) > 10 {
        if ascii_lower_word(t) { None } else { fuzzy_spec(t) }
    } else if blen(t) < 5 {
        None
    } else if blen(t) < 15 && count_lower(t) == blen(t) {
        None
    } else if bracket_parse(t) is Some {
        bracket_parse(t)
    } else if separator_parse(t) is Some {
        separator_parse(t)
    } else if keyword_parse(t) is Some {
        keyword_parse(t)
    } else {
        fuzzy_spec(t)
    }
}

fn is_ascii_lower_word(t: &str) -> (r: bool)
    ensures
        r == ascii_lower_word(t@),
{
    let n = t.unicode_len();
    let mut i: usize = 0;
    while i < n
        invariant
            i <= n,
            n == t@.len(),
            forall|j: int| 0 <= j < i ==> 'a' <= #[trigger] t@[j] <= 'z',
        decreases n - i,
    {
        let c = t.get_char(i);
        if !('a' <= c && c <= 'z') {
            return false;
        }
        i = i + 1;
    }
    true
}

/// View of a parsed pair of strings.
pub open spec fn pair_view(r: Option<(String, String)>) -> PmParse {
    match r {
        Some((a, b)) => Some((a@, b@)),
        None => None,
    }
}

fn bracket_exec(t: &str) -> (r: Option<(String, String)>)
    ensures
        pair_view(r) == bracket_parse(t@),
{
    let n = t.unicode_len();
    if n == 0 || t.get_char(0) != '[' {
        return None;
    }
    proof {
        reveal_strlit("]");
    }
    match find_str(t, "]") {
        Some(k) => {
            assert(k >= 1) by {
                reveal_strlit("]");
                assert(t@.subrange(k as int, k + 1)[0] == t@[k as int]);
                assert(t@.subrange(k as int, k + 1)[0] == ']');
            }
            let sender = trim(t.substring_char(1, k));
            let rest = trim(trim_start_char(t.substring_char(k + 1, n), ':'));
            if 2 <= sender.len() && sender.len() <= 20 && rest.unicode_len() > 0 && rest.len() >= 2 {
                Some((sender.to_string(), rest.to_string()))
            } else {
                None
            }
        },
        None => None,
    }
}

fn sep_exec(t: &str, sep: &str) -> (r: Option<(String, String)>)
    ensures
        pair_view(r) == sep_parse(t@, sep@),
{
    match find_str(t, sep) {
        Some(k) => {
            let n = t.unicode_len();
            let m = sep.unicode_len();
            let sender = trim(t.substring_char(0, k));
            let after = trim(t.substring_char(k + m, n));
            if 2 <= sender.len() && sender.len() <= 20 && 2 <= after.len() && after.len() <= 200
                && alnum_count(sender) >= 2 {
                Some((sender.to_string(), after.to_string()))
            } else {
                None
            }
        },
        None => None,
    }
}

fn keyword_exec(t: &str, kw: &str) -> (r: Option<(String, String)>)
    ensures
        pair_view(r) == keyword_try(t@, kw@),
{
    match find_str(t, kw) {
        Some(k) => {
            let n = t.unicode_len();
            let m = kw.unicode_len();
            let after = trim(t.substring_char(k + m, n));
            if after.len() >= 3 {
                Some(("Bilinmeyen".to_string(), after.to_string()))
            } else {
                None
            }
        },
        None => None,
    }
}

/// Fuzzy parse of a line whose separator was lost in OCR.
pub fn try_fuzzy_pm_parse(text: &str) -> (r: Option<(String, String)>)
    ensures
        pair_view(r) == fuzzy_spec(text@),
{
    let blen_t = text.len();
    if blen_t < 8 || blen_t > 40 {
        return None;
    }
    let chars = chars_of(text);
    let n = chars.len();
    let mut i: usize = 1;
    while i < n && !char_is_uppercase(chars[i])
        invariant
            1 <= i,
            n == text@.len(),
            chars@ == text@,
            first_upper_from(text@, 1) == first_upper_from(text@, i as nat),
        decreases n - i,
    {
        i = i + 1;
    }
    let e: usize = if i < n { i } else { 0 };
    assert(e == first_upper_from(text@, 1));
    if e == 0 {
        assert(fuzzy_spec(text@) == fuzzy_scan(text@, 12));
        let mut len: usize = 12;
        while len >= 4
            invariant
                len <= 12,
                n == text@.len(),
                fuzzy_scan(text@, 12) == fuzzy_scan(text@, len as nat),
                fuzzy_spec(text@) == fuzzy_scan(text@, 12),
            decreases len,
        {
            if len < n {
                let msg = text.substring_char(len, n);
                if msg.len() >= 3 && contains_alpha(msg) {
                    let sender = text.substring_char(0, len);
                    assert(len >= 4);
                    assert(fuzzy_scan(text@, len as nat) == Some((sender@, msg@)));
                    return Some((sender.to_string(), msg.to_string()));
                }
            }
            len = len - 1;
        }
        None
    } else {
        let sender = text.substring_char(0, e);
        let msg = text.substring_char(e, n);
        if 2 <= sender.len() && sender.len() <= 20 && msg.len() >= 3 {
            Some((sender.to_string(), msg.to_string()))
        } else {
            None
        }
    }
}

/// Parses a private-message line read by OCR into `(sender, text)`, in the
/// forms `[Sender]: text`, `Sender: text` (and other separators), `PM: text`,
/// or a guess for lines whose separator was lost; meaningless OCR words
/// such as `steuijetarett` are rejected (see `extract_pm_spec`).
pub fn extract_pm_from_ocr(ocr_text: &str) -> (r: Option<(String, String)>)
    ensures
        pair_view(r) == extract_pm_spec(ocr_text@),
{
    let text = trim(ocr_text);
    if text.unicode_len() == 0 {
        return None;
    }
    let has_whitespace = contains_white(text);
    let has_separator = contains_char(text, ':') || contains_char(text, '>') || contains_char(text, '-')
        || contains_char(text, ']');
    if !has_whitespace && !has_separator && text.len() > 10 {
        if is_ascii_lower_word(text) {
            return None;
        }
        return try_fuzzy_pm_parse(text);
    }
    if text.len() < 5 {
        return None;
    }
    if text.len() < 15 && lower_count(text) == text.len() {
        return None;
    }
    let b = bracket_exec(text);
    if b.is_some() {
        return b;
    }
    let r1 = sep_exec(text, ":");
    if r1.is_some() {
        return r1;
    }
    let r2 = sep_exec(text, " :");
    if r2.is_some() {
        return r2;
    }
    let r3 = sep_exec(text, ">");
    if r3.is_some() {
        return r3;
    }
    let r4 = sep_exec(text, " -");
    if r4.is_some() {
        return r4;
    }
    let r5 = sep_exec(text, "- ");
    if r5.is_some() {
        return r5;
    }
    let r6 = sep_exec(text, "»");
    if r6.is_some() {
        return r6;
    }
    let r7 = sep_exec(text, "›");
    if r7.is_some() {
        return r7;
    }
    let k1 = keyword_exec(text, "PM:");
    if k1.is_some() {
        return k1;
    }
    let k2 = keyword_exec(text, "pm:");
    if k2.is_some() {
        return k2;
    }
    let k3 = keyword_exec(text, "Özel:");
    if k3.is_some() {
        return k3;
    }
    let k4 = keyword_exec(text, "özel:");
    if k4.is_some() {
        return k4;
    }
    let k5 = keyword_exec(text, "Private:");
    if k5.is_some() {
        return k5;
    }
    let k6 = keyword_exec(text, "private:");
    if k6.is_some() {
        return k6;
    }
    try_fuzzy_pm_parse(text)
}

} // verus!
