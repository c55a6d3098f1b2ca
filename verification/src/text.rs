//! Character and string primitives shared by the parsers of this crate.
use vstd::prelude::*;
use vstd::string::*;
use vstd::utf8::*;

verus! {

broadcast use vstd::string::group_string_axioms;

/// Whether a character has the Unicode `White_Space` property, which
/// `char::is_whitespace` tests: tab to carriage return (U+0009 to U+000D),
/// space, U+0085, U+00A0, U+1680, U+2000 to U+200A, U+2028, U+2029, U+202F,
/// U+205F and U+3000.
pub open spec fn is_white(c: char) -> bool {
    let n = c as int;
    ||| 0x09 <= n <= 0x0D
    ||| n == 0x20 || n == 0x85 || n == 0xA0 || n == 0x1680
    ||| 0x2000 <= n <= 0x200A
    ||| n == 0x2028 || n == 0x2029 || n == 0x202F || n == 0x205F || n == 0x3000
}

/// Whether a character is white space (see `is_white`), as
/// `char::is_whitespace` answers.
pub(crate) fn char_is_whitespace(c: char) -> (r: bool)
    ensures
        r == is_white(c),
{
    ('\u{09}' <= c && c <= '\u{0D}') || c == ' ' || c == '\u{85}' || c == '\u{A0}' || c == '\u{1680}'
        || ('\u{2000}' <= c && c <= '\u{200A}') || c == '\u{2028}' || c == '\u{2029}' || c == '\u{202F}'
        || c == '\u{205F}' || c == '\u{3000}'
}

/// The characters of a string slice, in order.
pub fn chars_of(s: &str) -> (v: Vec<char>)
    ensures
        v@ == s@,
{
    let mut v: Vec<char> = Vec::new();
    for c in it: s.chars()
        invariant
            v@ == it.seq().take(it.index() as int),
            it.seq() == s@,
    {
        v.push(c);
    }
    v
}

/// Drops leading whitespace.
pub open spec fn trim_start_spec(s: Seq<char>) -> Seq<char>
    decreases s.len(),
{
    if s.len() > 0 && is_white(s[0]) {
        trim_start_spec(s.drop_first())
    } else {
        s
    }
}

/// Drops trailing whitespace.
pub open spec fn trim_end_spec(s: Seq<char>) -> Seq<char>
    decreases s.len(),
{
    if s.len() > 0 && is_white(s.last()) {
        trim_end_spec(s.drop_last())
    } else {
        s
    }
}

/// Leading and trailing whitespace removed, as `str::trim` does.
pub open spec fn trim_spec(s: Seq<char>) -> Seq<char> {
    trim_end_spec(trim_start_spec(s))
}


/// What trimming keeps is a stretch of the string that neither starts nor
/// ends with whitespace.
pub proof fn lemma_trim_shape(s: Seq<char>)
    ensures
        exists|i: int, j: int| 0 <= i <= j <= s.len() && #[trigger] s.subrange(i, j) == trim_spec(s),
        trim_spec(s).len() > 0 ==> !is_white(trim_spec(s)[0]) && !is_white(trim_spec(s).last()),
{
    lemma_trim_start_shape(s);
    let a = trim_start_spec(s);
    let i = choose|i: int| 0 <= i <= s.len() && #[trigger] s.subrange(i, s.len() as int) == a;
    lemma_trim_end_shape(a);
    let j = choose|j: int| 0 <= j <= a.len() && #[trigger] a.subrange(0, j) == trim_end_spec(a);
    assert(s.subrange(i, i + j) =~= a.subrange(0, j));
    if trim_spec(s).len() > 0 {
        assert(trim_spec(s)[0] == a[0]);
    }
}

proof fn lemma_trim_start_shape(s: Seq<char>)
    ensures
        exists|i: int| 0 <= i <= s.len() && #[trigger] s.subrange(i, s.len() as int) == trim_start_spec(s),
        trim_start_spec(s).len() > 0 ==> !is_white(trim_start_spec(s)[0]),
    decreases s.len(),
{
    if s.len() > 0 && is_white(s[0]) {
        lemma_trim_start_shape(s.drop_first());
        let i = choose|i: int| 0 <= i <= s.len() - 1 && #[trigger] s.drop_first().subrange(i, s.len() - 1) == trim_start_spec(s.drop_first());
        assert(s.subrange(i + 1, s.len() as int) =~= s.drop_first().subrange(i, s.len() - 1));
    } else {
        assert(s.subrange(0, s.len() as int) =~= s);
    }
}

proof fn lemma_trim_end_shape(s: Seq<char>)
    ensures
        exists|j: int| 0 <= j <= s.len() && #[trigger] s.subrange(0, j) == trim_end_spec(s),
        trim_end_spec(s).len() > 0 ==> !is_white(trim_end_spec(s).last()),
        trim_end_spec(s).len() > 0 && s.len() > 0 ==> trim_end_spec(s)[0] == s[0],
    decreases s.len(),
{
    if s.len() > 0 && is_white(s.last()) {
        lemma_trim_end_shape(s.drop_last());
        let j = choose|j: int| 0 <= j <= s.len() - 1 && #[trigger] s.drop_last().subrange(0, j) == trim_end_spec(s.drop_last());
        assert(s.subrange(0, j) =~= s.drop_last().subrange(0, j));
    } else {
        assert(s.subrange(0, s.len() as int) =~= s);
    }
}

/// A string that neither starts nor ends with whitespace is its own trim.
pub proof fn lemma_trim_unchanged(s: Seq<char>)
    requires
        s.len() > 0 ==> !is_white(s[0]) && !is_white(s.last()),
    ensures
        trim_spec(s) == s,
{
}

/// `str::trim`: the slice without leading and trailing whitespace.
pub fn trim(s: &str) -> (r: &str)
    ensures
        r@ == trim_spec(s@),
{
    let v = chars_of(s);
    let n = v.len();
    let mut i: usize = 0;
    assert(s@.subrange(0, n as int) =~= s@);
    while i < n && char_is_whitespace(v[i])
        invariant
            i <= n,
            n == s@.len(),
            v@ == s@,
            trim_start_spec(s@) == trim_start_spec(s@.subrange(i as int, n as int)),
        decreases n - i,
    {
        assert(s@.subrange(i as int, n as int).drop_first() =~= s@.subrange(i + 1, n as int));
        i = i + 1;
    }
    assert(trim_start_spec(s@) == s@.subrange(i as int, n as int));
    let mut j: usize = n;
    while j > i && char_is_whitespace(v[j - 1])
        invariant
            i <= j <= n,
            n == s@.len(),
            v@ == s@,
            trim_start_spec(s@) == s@.subrange(i as int, n as int),
            trim_spec(s@) == trim_end_spec(s@.subrange(i as int, j as int)),
        decreases j - i,
    {
        assert(s@.subrange(i as int, j as int).drop_last() =~= s@.subrange(i as int, j - 1));
        j = j - 1;
    }
    s.substring_char(i, j)
}

/// Whether two strings hold the same characters; compares their UTF-8 bytes.
pub fn str_eq(a: &str, b: &str) -> (r: bool)
    ensures
        r == (a@ == b@),
{
    let x = a.as_bytes();
    let y = b.as_bytes();
    proof {
        broadcast use encode_utf8_decode_utf8;
    }
    if x.len() != y.len() {
        return false;
    }
    let mut i: usize = 0;
    while i < x.len()
        invariant
            i <= x@.len(),
            x@.len() == y@.len(),
            x@ == a.spec_bytes(),
            y@ == b.spec_bytes(),
            forall|k: int| 0 <= k < i ==> x@[k] == y@[k],
        decreases x@.len() - i,
    {
        if x[i] != y[i] {
            return false;
        }
        i = i + 1;
    }
    assert(x@ =~= y@);
    assert(decode_utf8(encode_utf8(a@)) == a@);
    assert(decode_utf8(encode_utf8(b@)) == b@);
    true
}


/// What `str::to_uppercase` makes of a string that is not all ASCII (full
/// Unicode case mapping).
pub uninterp spec fn unicode_upper(s: Seq<char>) -> Seq<char>;

/// What `str::to_lowercase` makes of a string that is not all ASCII (full
/// Unicode case mapping).
pub uninterp spec fn unicode_lower(s: Seq<char>) -> Seq<char>;

/// ASCII upper-case of a character: `a`-`z` to `A`-`Z`, others unchanged.
pub open spec fn ascii_upper_char(c: char) -> char {
    if 'a' <= c <= 'z' { ((c as int) - 32) as char } else { c }
}

/// ASCII lower-case of a character: `A`-`Z` to `a`-`z`, others unchanged.
pub open spec fn ascii_lower_char(c: char) -> char {
    if 'A' <= c <= 'Z' { ((c as int) + 32) as char } else { c }
}

/// Upper-case form of a string as `str::to_uppercase` gives it: an ASCII
/// string character by character, any other by the full Unicode mapping.
pub open spec fn upper_of(s: Seq<char>) -> Seq<char> {
    if is_ascii_chars(s) {
        s.map_values(|c: char| ascii_upper_char(c))
    } else {
        unicode_upper(s)
    }
}

/// Lower-case form of a string as `str::to_lowercase` gives it: an ASCII
/// string character by character, any other by the full Unicode mapping.
pub open spec fn lower_of(s: Seq<char>) -> Seq<char> {
    if is_ascii_chars(s) {
        s.map_values(|c: char| ascii_lower_char(c))
    } else {
        unicode_lower(s)
    }
}

/// `str::to_uppercase`. Claims that an ASCII string is mapped character by
/// character, `a`-`z` to `A`-`Z` (the Unicode mapping of ASCII, as the
/// method's documentation and examples show), and that any other string
/// gives the named Unicode upper-case form; the Unicode tables are left
/// unsaid.
#[verifier::external_body]
pub(crate) fn to_upper(s: &str) -> (r: String)
    ensures
        is_ascii_chars(s@) ==> r@ == s@.map_values(|c: char| ascii_upper_char(c)),
        !is_ascii_chars(s@) ==> r@ == unicode_upper(s@),
{
    s.to_uppercase()
}

/// `str::to_lowercase`. Claims that an ASCII string is mapped character by
/// character, `A`-`Z` to `a`-`z` (the Unicode mapping of ASCII, as the
/// method's documentation and examples show), and that any other string
/// gives the named Unicode lower-case form; the Unicode tables are left
/// unsaid.
#[verifier::external_body]
pub(crate) fn to_lower(s: &str) -> (r: String)
    ensures
        is_ascii_chars(s@) ==> r@ == s@.map_values(|c: char| ascii_lower_char(c)),
        !is_ascii_chars(s@) ==> r@ == unicode_lower(s@),
{
    s.to_lowercase()
}

/// The pieces of `s` between occurrences of `sep`, as `str::split` with a
/// character pattern yields them (an empty string yields one empty piece).
pub open spec fn split_spec(s: Seq<char>, sep: char) -> Seq<Seq<char>>
    decreases s.len(),
{
    if s.len() == 0 {
        seq![Seq::<char>::empty()]
    } else {
        let prev = split_spec(s.drop_last(), sep);
        if s.last() == sep {
            prev.push(Seq::<char>::empty())
        } else {
            prev.update(prev.len() - 1, prev.last().push(s.last()))
        }
    }
}

/// Views of a vector of string slices.
pub open spec fn strs_view(v: Seq<&str>) -> Seq<Seq<char>> {
    v.map_values(|p: &str| p@)
}

/// `split_spec` is never empty.
pub proof fn lemma_split_nonempty(s: Seq<char>, sep: char)
    ensures
        split_spec(s, sep).len() >= 1,
    decreases s.len(),
{
    if s.len() > 0 {
        lemma_split_nonempty(s.drop_last(), sep);
    }
}

/// `str::split` on a character: the pieces between separators.
pub fn split_char<'a>(s: &'a str, sep: char) -> (parts: Vec<&'a str>)
    ensures
        strs_view(parts@) == split_spec(s@, sep),
{
    let v = chars_of(s);
    let n = v.len();
    let mut parts: Vec<&'a str> = Vec::new();
    let mut start: usize = 0;
    let mut i: usize = 0;
    assert(s@.take(0) =~= Seq::<char>::empty());
    assert(strs_view(parts@).push(s@.subrange(0, 0)) =~= seq![Seq::<char>::empty()]);
    while i < n
        invariant
            start <= i <= n,
            n == s@.len(),
            v@ == s@,
            split_spec(s@.take(i as int), sep) == strs_view(parts@).push(s@.subrange(start as int, i as int)),
        decreases n - i,
    {
        let ghost prev_parts = parts@;
        assert(s@.take(i + 1).drop_last() =~= s@.take(i as int));
        assert(s@.take(i + 1).last() == s@[i as int]);
        if v[i] == sep {
            let piece = s.substring_char(start, i);
            parts.push(piece);
            assert(strs_view(parts@) =~= strs_view(prev_parts).push(s@.subrange(start as int, i as int)));
            start = i + 1;
            assert(s@.subrange(start as int, i + 1) =~= Seq::<char>::empty());
        } else {
            assert(s@.subrange(start as int, i as int).push(s@[i as int]) =~= s@.subrange(start as int, i + 1));
            assert(strs_view(parts@).push(s@.subrange(start as int, i as int)).update(
                strs_view(parts@).len() as int, s@.subrange(start as int, i + 1)) =~=
                strs_view(parts@).push(s@.subrange(start as int, i + 1)));
        }
        i = i + 1;
    }
    let last = s.substring_char(start, n);
    let ghost before = parts@;
    parts.push(last);
    assert(s@.take(n as int) =~= s@);
    assert(strs_view(parts@) =~= strs_view(before).push(s@.subrange(start as int, n as int)));
    parts
}


/// Byte length of the UTF-8 encoding of `s`, as `str::len` returns it.
pub open spec fn blen(s: Seq<char>) -> usize {
    encode_utf8(s).len() as usize
}

/// Whether `p` occurs in `s` at character position `k`.
pub open spec fn occurs_at(s: Seq<char>, p: Seq<char>, k: int) -> bool {
    0 <= k && k + p.len() <= s.len() && s.subrange(k, k + p.len()) == p
}

/// Character position of the first occurrence of `p` in `s`, as `str::find`
/// locates it (on characters rather than bytes).
pub open spec fn find_spec(s: Seq<char>, p: Seq<char>) -> Option<int> {
    if exists|k: int| occurs_at(s, p, k) {
        Some(choose|k: int| occurs_at(s, p, k) && forall|j: int| 0 <= j < k ==> !occurs_at(s, p, j))
    } else {
        None
    }
}

proof fn lemma_first_occurrence(s: Seq<char>, p: Seq<char>, j: int)
    requires
        occurs_at(s, p, j),
    ensures
        exists|k: int| occurs_at(s, p, k) && forall|i: int| 0 <= i < k ==> !occurs_at(s, p, i),
    decreases j,
{
    if exists|i: int| 0 <= i < j && occurs_at(s, p, i) {
        let i = choose|i: int| 0 <= i < j && occurs_at(s, p, i);
        lemma_first_occurrence(s, p, i);
    }
}

/// A position that `find_spec` gives is an occurrence.
pub proof fn lemma_find_spec_occurs(s: Seq<char>, p: Seq<char>)
    ensures
        find_spec(s, p) matches Some(k) ==> occurs_at(s, p, k),
{
    if exists|j: int| occurs_at(s, p, j) {
        let j = choose|j: int| occurs_at(s, p, j);
        lemma_first_occurrence(s, p, j);
    }
}

/// First occurrence of `p` in `s`, as a character position.
pub fn find_str(s: &str, p: &str) -> (r: Option<usize>)
    ensures
        match r {
            Some(k) => {
                &&& find_spec(s@, p@) == Some(k as int)
                &&& occurs_at(s@, p@, k as int)
                &&& forall|j: int| 0 <= j < k ==> !occurs_at(s@, p@, j)
            },
            None => find_spec(s@, p@) is None,
        },
{
    let n = s.unicode_len();
    let m = p.unicode_len();
    if m > n {
        assert(forall|k: int| !occurs_at(s@, p@, k));
        return None;
    }
    if m == 0 {
        assert(occurs_at(s@, p@, 0)) by {
            assert(s@.subrange(0, 0) =~= p@);
        }
        let ghost c = choose|c: int| occurs_at(s@, p@, c) && forall|j: int| 0 <= j < c ==> !occurs_at(s@, p@, j);
        assert(c == 0) by {
            if c > 0 {
                assert(!occurs_at(s@, p@, 0));
            }
        }
        return Some(0);
    }
    let mut k: usize = 0;
    while k <= n - m
        invariant
            n == s@.len(),
            m == p@.len(),
            1 <= m <= n,
            k <= n - m + 1,
            forall|j: int| 0 <= j < k ==> !occurs_at(s@, p@, j),
        decreases n - k,
    {
        let piece = s.substring_char(k, k + m);
        if str_eq(piece, p) {
            assert(occurs_at(s@, p@, k as int));
            let ghost c = choose|c: int| occurs_at(s@, p@, c) && forall|j: int| 0 <= j < c ==> !occurs_at(s@, p@, j);
            assert(c == k as int) by {
                if c < k as int {
                } else if c > k as int {
                }
            }
            return Some(k);
        }
        k = k + 1;
    }
    assert forall|j: int| !occurs_at(s@, p@, j) by {
        if 0 <= j < k as int {
        }
    }
    None
}

/// Whether some character of `s` satisfies the named whitespace property.
pub open spec fn has_white(s: Seq<char>) -> bool {
    exists|i: int| 0 <= i < s.len() && is_white(s[i])
}

/// Whether `c` occurs in `s`.
pub open spec fn has_char(s: Seq<char>, c: char) -> bool {
    exists|i: int| 0 <= i < s.len() && s[i] == c
}

/// `s` without its leading run of `c`, as `str::trim_start_matches` with a
/// character pattern leaves it.
pub open spec fn trim_start_char_spec(s: Seq<char>, c: char) -> Seq<char>
    decreases s.len(),
{
    if s.len() > 0 && s[0] == c {
        trim_start_char_spec(s.drop_first(), c)
    } else {
        s
    }
}

/// `str::trim_start_matches` with a character pattern.
pub fn trim_start_char(s: &str, c: char) -> (r: &str)
    ensures
        r@ == trim_start_char_spec(s@, c),
{
    let v = chars_of(s);
    let n = v.len();
    let mut i: usize = 0;
    assert(s@.subrange(0, n as int) =~= s@);
    while i < n && v[i] == c
        invariant
            i <= n,
            n == s@.len(),
            v@ == s@,
            trim_start_char_spec(s@, c) == trim_start_char_spec(s@.subrange(i as int, n as int), c),
        decreases n - i,
    {
        assert(s@.subrange(i as int, n as int).drop_first() =~= s@.subrange(i + 1, n as int));
        i = i + 1;
    }
    s.substring_char(i, n)
}

/// Whether `s` holds the character `c`.
pub fn contains_char(s: &str, c: char) -> (r: bool)
    ensures
        r == has_char(s@, c),
{
    let v = chars_of(s);
    let mut i: usize = 0;
    while i < v.len()
        invariant
            i <= v@.len(),
            v@ == s@,
            forall|j: int| 0 <= j < i ==> v@[j] != c,
        decreases v@.len() - i,
    {
        if v[i] == c {
            return true;
        }
        i = i + 1;
    }
    false
}

/// Whether `s` holds a whitespace character.
pub fn contains_white(s: &str) -> (r: bool)
    ensures
        r == has_white(s@),
{
    let v = chars_of(s);
    let mut i: usize = 0;
    while i < v.len()
        invariant
            i <= v@.len(),
            v@ == s@,
            forall|j: int| 0 <= j < i ==> !is_white(v@[j]),
        decreases v@.len() - i,
    {
        if char_is_whitespace(v[i]) {
            return true;
        }
        i = i + 1;
    }
    false
}


/// Whether a non-ASCII character has the Unicode `Lowercase` property, as
/// `char::is_lowercase` decides it.
pub uninterp spec fn unicode_is_lower(c: char) -> bool;

/// Whether a character has the Unicode `Lowercase` property: for an ASCII
/// character exactly `a` to `z`, for any other the named property.
pub open spec fn is_lower(c: char) -> bool {
    if (c as int) < 128 { 'a' <= c <= 'z' } else { unicode_is_lower(c) }
}

/// `char::is_lowercase`. The contract claims the ASCII part of the property
/// (see `is_lower`); the Unicode table beyond ASCII is left unsaid.
#[verifier::external_body]
pub(crate) fn char_is_lowercase(c: char) -> (r: bool)
    ensures
        r == is_lower(c),
        (c as int) >= 128 ==> r == unicode_is_lower(c),
{
    c.is_lowercase()
}

/// Whether a non-ASCII character has the Unicode `Uppercase` property, as
/// `char::is_uppercase` decides it.
pub uninterp spec fn unicode_is_upper(c: char) -> bool;

/// Whether a character has the Unicode `Uppercase` property: for an ASCII
/// character exactly `A` to `Z`, for any other the named property.
pub open spec fn is_upper(c: char) -> bool {
    if (c as int) < 128 { 'A' <= c <= 'Z' } else { unicode_is_upper(c) }
}

/// `char::is_uppercase`. The contract claims the ASCII part of the property
/// (see `is_upper`); the Unicode table beyond ASCII is left unsaid.
#[verifier::external_body]
pub(crate) fn char_is_uppercase(c: char) -> (r: bool)
    ensures
        r == is_upper(c),
        (c as int) >= 128 ==> r == unicode_is_upper(c),
{
    c.is_uppercase()
}

/// Whether a non-ASCII character has the Unicode `Alphabetic` property, as
/// `char::is_alphabetic` decides it.
pub uninterp spec fn unicode_is_alpha(c: char) -> bool;

/// Whether a character has the Unicode `Alphabetic` property: for an ASCII
/// character exactly the letters, for any other the named property.
pub open spec fn is_alpha(c: char) -> bool {
    if (c as int) < 128 { ('a' <= c <= 'z') || ('A' <= c <= 'Z') } else { unicode_is_alpha(c) }
}

/// `char::is_alphabetic`. The contract claims the ASCII part of the property
/// (see `is_alpha`); the Unicode table beyond ASCII is left unsaid.
#[verifier::external_body]
pub(crate) fn char_is_alphabetic(c: char) -> (r: bool)
    ensures
        r == is_alpha(c),
        (c as int) >= 128 ==> r == unicode_is_alpha(c),
{
    c.is_alphabetic()
}

/// Whether a non-ASCII character has the Unicode `Alphabetic or Numeric` property, as
/// `char::is_alphanumeric` decides it.
pub uninterp spec fn unicode_is_alnum(c: char) -> bool;

/// Whether a character has the Unicode `Alphabetic or Numeric` property: for an ASCII
/// character exactly the letters and the digits, for any other the named property.
pub open spec fn is_alnum(c: char) -> bool {
    if (c as int) < 128 { ('a' <= c <= 'z') || ('A' <= c <= 'Z') || ('0' <= c <= '9') } else { unicode_is_alnum(c) }
}

/// `char::is_alphanumeric`. The contract claims the ASCII part of the property
/// (see `is_alnum`); the Unicode table beyond ASCII is left unsaid.
#[verifier::external_body]
pub(crate) fn char_is_alphanumeric(c: char) -> (r: bool)
    ensures
        r == is_alnum(c),
        (c as int) >= 128 ==> r == unicode_is_alnum(c),
{
    c.is_alphanumeric()
}

/// Number of lower-case characters in `s`.
pub open spec fn count_lower(s: Seq<char>) -> nat
    decreases s.len(),
{
    if s.len() == 0 {
        0
    } else {
        count_lower(s.drop_last()) + if is_lower(s.last()) { 1nat } else { 0nat }
    }
}

/// Number of alphanumeric characters in `s`.
pub open spec fn count_alnum(s: Seq<char>) -> nat
    decreases s.len(),
{
    if s.len() == 0 {
        0
    } else {
        count_alnum(s.drop_last()) + if is_alnum(s.last()) { 1nat } else { 0nat }
    }
}

/// Whether some character of `s` is alphabetic.
pub open spec fn has_alpha(s: Seq<char>) -> bool {
    exists|i: int| 0 <= i < s.len() && is_alpha(s[i])
}

/// Counts the lower-case characters of `s`.
pub fn lower_count(s: &str) -> (r: usize)
    ensures
        r == count_lower(s@),
{
    let v = chars_of(s);
    let mut i: usize = 0;
    let mut n: usize = 0;
    assert(v@.take(0) =~= Seq::<char>::empty());
    while i < v.len()
        invariant
            i <= v@.len(),
            v@ == s@,
            n == count_lower(v@.take(i as int)),
            n <= i,
        decreases v@.len() - i,
    {
        assert(v@.take(i + 1).drop_last() =~= v@.take(i as int));
        if char_is_lowercase(v[i]) {
            n = n + 1;
        }
        i = i + 1;
    }
    assert(v@.take(v@.len() as int) =~= v@);
    n
}

/// Counts the alphanumeric characters of `s`.
pub fn alnum_count(s: &str) -> (r: usize)
    ensures
        r == count_alnum(s@),
{
    let v = chars_of(s);
    let mut i: usize = 0;
    let mut n: usize = 0;
    assert(v@.take(0) =~= Seq::<char>::empty());
    while i < v.len()
        invariant
            i <= v@.len(),
            v@ == s@,
            n == count_alnum(v@.take(i as int)),
            n <= i,
        decreases v@.len() - i,
    {
        assert(v@.take(i + 1).drop_last() =~= v@.take(i as int));
        if char_is_alphanumeric(v[i]) {
            n = n + 1;
        }
        i = i + 1;
    }
    assert(v@.take(v@.len() as int) =~= v@);
    n
}

/// Whether `s` holds an alphabetic character.
pub fn contains_alpha(s: &str) -> (r: bool)
    ensures
        r == has_alpha(s@),
{
    let v = chars_of(s);
    let mut i: usize = 0;
    while i < v.len()
        invariant
            i <= v@.len(),
            v@ == s@,
            forall|j: int| 0 <= j < i ==> !is_alpha(v@[j]),
        decreases v@.len() - i,
    {
        if char_is_alphabetic(v[i]) {
            return true;
        }
        i = i + 1;
    }
    false
}

} // verus!
