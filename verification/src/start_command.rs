//! The colon-separated start command that the client panel sends for one
//! client, and the proof that the manager's parser gives the parameters
//! back.
use vstd::prelude::*;
use vstd::string::*;
use crate::text::{split_spec, lemma_split_nonempty, find_spec, occurs_at, lower_of};
use crate::num::{all_digits, is_digit, dec_val, digit_val, parse_unsigned, parse_signed, unsigned_digits, remove_all};
use crate::hw::{nat_text, int_text, append_nat, append_int};
use crate::client_params::{ClientStartParams, strings_view, pm_defaults};
use crate::manager::{legacy_fields, legacy_params_ok, rect_field, i32_or, usize_or, u64_or, flag_field, skills_field, secs_field};

verus! {

broadcast use vstd::string::group_string_axioms;

/// `parts` with `sep` between each two consecutive parts.
pub open spec fn join(parts: Seq<Seq<char>>, sep: char) -> Seq<char>
    decreases parts.len(),
{
    if parts.len() == 0 {
        Seq::<char>::empty()
    } else if parts.len() == 1 {
        parts[0]
    } else {
        join(parts.drop_last(), sep) + seq![sep] + parts.last()
    }
}

/// A switch as the command writes it.
pub open spec fn flag_text(b: bool) -> Seq<char> {
    if b { "1"@ } else { "0"@ }
}

/// A rectangle as the command writes it: `x1,y1,x2,y2`.
pub open spec fn rect_text(r: (i32, i32, i32, i32)) -> Seq<char> {
    join(seq![int_text(r.0 as int), int_text(r.1 as int), int_text(r.2 as int), int_text(r.3 as int)], ',')
}

/// The skill keys as the command writes them: comma-separated, `EMPTY`
/// when there are none.
pub open spec fn skills_text(v: Seq<Seq<char>>) -> Seq<char> {
    if v.len() == 0 { "EMPTY"@ } else { join(v, ',') }
}

/// The fields of the start command of `p`.
pub open spec fn start_fields(p: ClientStartParams) -> Seq<Seq<char>> {
    seq![
        nat_text(p.id as nat),
        nat_text(p.hwnd as nat),
        p.model@,
        p.driver@,
        p.kilit_path@,
        rect_text(p.kilit_region),
        rect_text(p.ocr_region),
        flag_text(p.olum_skill_aktif),
        skills_text(strings_view(p.olum_skill_tuslari@)),
        nat_text(p.olum_skill_bekleme as nat),
        flag_text(p.olum_binek_aktif),
        p.olum_binek_tusu@,
        nat_text(p.olum_binek_bekleme as nat),
        rect_text((p.captcha_buton_x1, p.captcha_buton_y1, p.captcha_buton_x2, p.captcha_buton_y2)),
    ]
}

/// The start command of `p`: `START_CLIENT:` and the fields joined by `:`.
pub open spec fn start_command_text(p: ClientStartParams) -> Seq<char> {
    "START_CLIENT:"@ + join(start_fields(p), ':')
}

/// `parts` joined with the one-character separator `sep`.
fn join_parts(parts: &Vec<String>, sep: &str) -> (r: String)
    requires
        sep@.len() == 1,
    ensures
        r@ == join(strings_view(parts@), sep@[0]),
{
    let ghost sv = strings_view(parts@);
    let mut out = String::new();
    let mut i: usize = 0;
    assert(sv.take(0) =~= Seq::<Seq<char>>::empty());
    while i < parts.len()
        invariant
            i <= parts@.len(),
            sv == strings_view(parts@),
            sep@.len() == 1,
            out@ == join(sv.take(i as int), sep@[0]),
        decreases parts@.len() - i,
    {
        let ghost before = out@;
        assert(sv.take(i + 1).drop_last() =~= sv.take(i as int));
        assert(sv.take(i + 1).last() == parts@[i as int]@);
        if i > 0 {
            out.append(sep);
        }
        out.append(parts[i].as_str());
        if i == 0 {
            assert(out@ =~= join(sv.take(1), sep@[0]));
        } else {
            assert(out@ =~= before + seq![sep@[0]] + parts@[i as int]@);
        }
        i = i + 1;
    }
    assert(sv.take(parts@.len() as int) =~= sv);
    out
}

fn nat_string(n: u64) -> (r: String)
    ensures
        r@ == nat_text(n as nat),
{
    let mut s = String::new();
    append_nat(&mut s, n);
    assert(s@ =~= nat_text(n as nat));
    s
}

fn rect_string(r: (i32, i32, i32, i32)) -> (s: String)
    ensures
        s@ == rect_text(r),
{
    let mut s = String::new();
    append_int(&mut s, r.0);
    s.append(",");
    append_int(&mut s, r.1);
    s.append(",");
    append_int(&mut s, r.2);
    s.append(",");
    append_int(&mut s, r.3);
    proof {
        reveal_strlit(",");
        reveal_with_fuel(join, 4);
        let f = seq![int_text(r.0 as int), int_text(r.1 as int), int_text(r.2 as int), int_text(r.3 as int)];
        assert(f.drop_last().drop_last().drop_last() =~= seq![f[0]]);
        assert(f.drop_last().drop_last() =~= seq![f[0], f[1]]);
        assert(f.drop_last() =~= seq![f[0], f[1], f[2]]);
        assert(s@ =~= rect_text(r));
    }
    s
}

fn flag_string(b: bool) -> (r: String)
    ensures
        r@ == flag_text(b),
{
    if b { "1".to_string() } else { "0".to_string() }
}

fn skills_string(v: &Vec<String>) -> (r: String)
    ensures
        r@ == skills_text(strings_view(v@)),
{
    if v.len() == 0 {
        "EMPTY".to_string()
    } else {
        proof {
            reveal_strlit(",");
        }
        join_parts(v, ",")
    }
}

/// The start command that the client panel sends for `p` (see
/// `start_command_text`).
pub fn start_client_command(p: &ClientStartParams) -> (r: String)
    ensures
        r@ == start_command_text(*p),
{
    let mut fields: Vec<String> = Vec::new();
    fields.push(nat_string(p.id as u64));
    fields.push(nat_string(p.hwnd as u64));
    fields.push(p.model.clone());
    fields.push(p.driver.clone());
    fields.push(p.kilit_path.clone());
    fields.push(rect_string(p.kilit_region));
    fields.push(rect_string(p.ocr_region));
    fields.push(flag_string(p.olum_skill_aktif));
    fields.push(skills_string(&p.olum_skill_tuslari));
    fields.push(nat_string(p.olum_skill_bekleme));
    fields.push(flag_string(p.olum_binek_aktif));
    fields.push(p.olum_binek_tusu.clone());
    fields.push(nat_string(p.olum_binek_bekleme));
    fields.push(rect_string((p.captcha_buton_x1, p.captcha_buton_y1, p.captcha_buton_x2, p.captcha_buton_y2)));
    assert(strings_view(fields@) =~= start_fields(*p));
    proof {
        reveal_strlit(":");
    }
    let body = join_parts(&fields, ":");
    let mut out = "START_CLIENT:".to_string();
    out.append(body.as_str());
    out
}

proof fn lemma_split_plain(x: Seq<char>, sep: char)
    requires
        !x.contains(sep),
    ensures
        split_spec(x, sep) == seq![x],
    decreases x.len(),
{
    if x.len() == 0 {
        assert(x =~= Seq::<char>::empty());
    } else {
        let p = x.drop_last();
        assert(!p.contains(sep)) by {
            if p.contains(sep) {
                let k = choose|k: int| 0 <= k < p.len() && p[k] == sep;
                assert(x[k] == sep);
            }
        }
        lemma_split_plain(p, sep);
        assert(x.last() != sep) by {
            assert(x[x.len() - 1] == x.last());
        }
        assert(p.push(x.last()) =~= x);
        assert(split_spec(x, sep) =~= seq![x]);
    }
}

proof fn lemma_split_concat(x: Seq<char>, y: Seq<char>, sep: char)
    ensures
        split_spec(x + seq![sep] + y, sep) == split_spec(x, sep) + split_spec(y, sep),
    decreases y.len(),
{
    let z = x + seq![sep] + y;
    if y.len() == 0 {
        assert(z.drop_last() =~= x);
        assert(split_spec(y, sep) =~= seq![Seq::<char>::empty()]);
        assert(split_spec(z, sep) =~= split_spec(x, sep) + split_spec(y, sep));
    } else {
        let y2 = y.drop_last();
        lemma_split_concat(x, y2, sep);
        assert(z.drop_last() =~= x + seq![sep] + y2);
        assert(z.last() == y.last());
        lemma_split_nonempty(y2, sep);
        let a = split_spec(x, sep);
        let b = split_spec(y2, sep);
        if y.last() == sep {
            assert(split_spec(z, sep) =~= a + split_spec(y, sep));
        } else {
            let prev = a + b;
            assert(prev.last() == b.last());
            assert(prev.update(prev.len() - 1, prev.last().push(y.last()))
                =~= a + b.update(b.len() - 1, b.last().push(y.last())));
        }
    }
}

proof fn lemma_join_free(f: Seq<Seq<char>>, sep: char, c: char)
    requires
        c != sep,
        forall|i: int| 0 <= i < f.len() ==> !(#[trigger] f[i]).contains(c),
    ensures
        !join(f, sep).contains(c),
    decreases f.len(),
{
    if f.len() >= 2 {
        let g = f.drop_last();
        lemma_join_free(g, sep, c);
        let j = join(f, sep);
        if j.contains(c) {
            let k = choose|k: int| 0 <= k < j.len() && j[k] == c;
            let jg = join(g, sep);
            if k < jg.len() {
                assert(jg[k] == c);
            } else if k > jg.len() {
                assert(f.last()[k - jg.len() - 1] == c);
                assert(f[f.len() - 1] == f.last());
            }
        }
    } else if f.len() == 1 {
        assert(f[0] == join(f, sep));
    }
}

proof fn lemma_split_join(f: Seq<Seq<char>>, sep: char)
    requires
        f.len() >= 1,
        forall|i: int| 0 <= i < f.len() ==> !(#[trigger] f[i]).contains(sep),
    ensures
        split_spec(join(f, sep), sep) == f,
    decreases f.len(),
{
    if f.len() == 1 {
        lemma_split_plain(f[0], sep);
        assert(seq![f[0]] =~= f);
    } else {
        let g = f.drop_last();
        lemma_split_join(g, sep);
        assert(!f.last().contains(sep)) by {
            assert(f[f.len() - 1] == f.last());
        }
        lemma_split_plain(f.last(), sep);
        lemma_split_concat(join(g, sep), f.last(), sep);
        assert(g + seq![f.last()] =~= f);
    }
}

proof fn lemma_join_has_sep(f: Seq<Seq<char>>, sep: char)
    requires
        f.len() >= 2,
    ensures
        join(f, sep).contains(sep),
{
    let jg = join(f.drop_last(), sep);
    assert(join(f, sep)[jg.len() as int] == sep);
}

proof fn lemma_nat_text(n: nat)
    ensures
        nat_text(n).len() >= 1,
        all_digits(nat_text(n)),
        dec_val(nat_text(n)) == n,
    decreases n,
{
    let t = nat_text(n);
    let c = ('0' as int + n % 10) as char;
    assert(c as int == '0' as int + n % 10);
    assert(digit_val(c) == n % 10);
    if n < 10 {
        assert(t.drop_last() =~= Seq::<char>::empty());
        assert(dec_val(t.drop_last()) == 0);
        assert(t.last() == c);
        assert(dec_val(t) == n);
    } else {
        lemma_nat_text(n / 10);
        assert(t.drop_last() =~= nat_text(n / 10));
        assert(t.last() == c);
        assert(dec_val(t) == dec_val(nat_text(n / 10)) * 10 + digit_val(c));
        assert forall|i: int| 0 <= i < t.len() implies is_digit(t[i]) by {
            if i < t.len() - 1 {
                assert(t[i] == nat_text(n / 10)[i]);
            }
        }
    }
}

proof fn lemma_digits_free(s: Seq<char>, c: char)
    requires
        all_digits(s),
        !is_digit(c),
    ensures
        !s.contains(c),
{
    if s.contains(c) {
        let k = choose|k: int| 0 <= k < s.len() && s[k] == c;
        assert(is_digit(s[k]));
    }
}

proof fn lemma_parse_nat_text(n: nat, max: nat)
    requires
        n <= max,
    ensures
        parse_unsigned(nat_text(n), max) == Some(n),
{
    lemma_nat_text(n);
    assert(is_digit(nat_text(n)[0]));
    assert(unsigned_digits(nat_text(n)) == nat_text(n));
}

proof fn lemma_int_text(v: int)
    requires
        i32::MIN <= v <= i32::MAX,
    ensures
        parse_signed(int_text(v), i32::MIN as int, i32::MAX as int) == Some(v),
        !int_text(v).contains(','),
        !int_text(v).contains(':'),
{
    if v < 0 {
        let d = nat_text((-v) as nat);
        lemma_nat_text((-v) as nat);
        let s = int_text(v);
        assert(s.drop_first() =~= d);
        lemma_digits_free(d, ',');
        lemma_digits_free(d, ':');
        assert(!s.contains(',') && !s.contains(':')) by {
            if s.contains(',') || s.contains(':') {
                let k = choose|k: int| 0 <= k < s.len() && (s[k] == ',' || s[k] == ':');
                if k > 0 {
                    assert(d[k - 1] == s[k]);
                }
            }
        }
    } else {
        lemma_parse_nat_text(v as nat, i32::MAX as nat);
        lemma_nat_text(v as nat);
        assert(is_digit(nat_text(v as nat)[0]));
        lemma_digits_free(nat_text(v as nat), ',');
        lemma_digits_free(nat_text(v as nat), ':');
    }
}

proof fn lemma_rect_text(r: (i32, i32, i32, i32), d: (i32, i32, i32, i32))
    ensures
        rect_field(rect_text(r), d) == (r.0 as int, r.1 as int, r.2 as int, r.3 as int),
        !rect_text(r).contains(':'),
{
    let f = seq![int_text(r.0 as int), int_text(r.1 as int), int_text(r.2 as int), int_text(r.3 as int)];
    lemma_int_text(r.0 as int);
    lemma_int_text(r.1 as int);
    lemma_int_text(r.2 as int);
    lemma_int_text(r.3 as int);
    assert(forall|i: int| 0 <= i < f.len() ==> !(#[trigger] f[i]).contains(','));
    assert(forall|i: int| 0 <= i < f.len() ==> !(#[trigger] f[i]).contains(':'));
    lemma_split_join(f, ',');
    lemma_join_free(f, ',', ':');
}

proof fn lemma_flag_text(b: bool)
    ensures
        !flag_text(b).contains(':'),
        (flag_text(b) == "1"@ || lower_of(flag_text(b)) == "true"@) == b,
{
    reveal_strlit("1");
    reveal_strlit("0");
    reveal_strlit("true");
    let t = flag_text(b);
    assert(t.len() == 1);
    if t.contains(':') {
        let k = choose|k: int| 0 <= k < t.len() && t[k] == ':';
        assert(k == 0);
    }
    if !b {
        assert(t[0] == '0');
        assert(t != "1"@) by {
            assert("1"@[0] == '1');
        }
        assert(vstd::utf8::is_ascii_chars(t));
        assert(lower_of(t).len() == 1);
        assert(lower_of(t) != "true"@) by {
            assert("true"@.len() == 4);
        }
    }
}

proof fn lemma_strip_prefix(body: Seq<char>)
    requires
        find_spec(body, "START_CLIENT:"@) is None,
    ensures
        remove_all("START_CLIENT:"@ + body, "START_CLIENT:"@) == body,
{
    reveal_strlit("START_CLIENT:");
    let pre = "START_CLIENT:"@;
    let cmd = pre + body;
    assert(occurs_at(cmd, pre, 0)) by {
        assert(cmd.subrange(0, pre.len() as int) =~= pre);
    }
    let k = choose|k: int| occurs_at(cmd, pre, k) && forall|j: int| 0 <= j < k ==> !occurs_at(cmd, pre, j);
    assert(k == 0) by {
        if k > 0 {
            assert(!occurs_at(cmd, pre, 0));
        }
    }
    assert(find_spec(cmd, pre) == Some(0int));
    assert(cmd.subrange(pre.len() as int, cmd.len() as int) =~= body);
    assert(cmd.subrange(0, 0) =~= Seq::<char>::empty());
    assert(remove_all(body, pre) == body);
    assert(remove_all(cmd, pre) =~= body);
}

proof fn lemma_skills_text(sv: Seq<Seq<char>>)
    requires
        forall|i: int| 0 <= i < sv.len() ==> !(#[trigger] sv[i]).contains(':') && !sv[i].contains(','),
        sv != seq![Seq::<char>::empty()],
        sv != seq!["EMPTY"@],
    ensures
        !skills_text(sv).contains(':'),
        (skills_text(sv).len() == 0 || skills_text(sv) == "EMPTY"@) <==> sv.len() == 0,
        sv.len() > 0 ==> split_spec(skills_text(sv), ',') == sv,
{
    reveal_strlit("EMPTY");
    if sv.len() == 0 {
        let e = "EMPTY"@;
        if e.contains(':') {
            let k = choose|k: int| 0 <= k < e.len() && e[k] == ':';
        }
    } else {
        lemma_join_free(sv, ',', ':');
        if sv.len() == 1 {
            assert(join(sv, ',') == sv[0]);
            assert(sv[0] != Seq::<char>::empty()) by {
                if sv[0] == Seq::<char>::empty() {
                    assert(sv =~= seq![Seq::<char>::empty()]);
                }
            }
            assert(sv[0] != "EMPTY"@) by {
                if sv[0] == "EMPTY"@ {
                    assert(sv =~= seq!["EMPTY"@]);
                }
            }
        } else {
            lemma_join_has_sep(sv, ',');
            let j = join(sv, ',');
            let k = choose|k: int| 0 <= k < j.len() && j[k] == ',';
            assert(j != "EMPTY"@) by {
                if j == "EMPTY"@ {
                    assert("EMPTY"@[k] != ',');
                }
            }
        }
        lemma_split_join(sv, ',');
    }
}

/// The start command of `p` read back by the manager's parser gives `p`:
/// for every parameter set with the default reply settings whose text
/// fields hold no `:`, whose skill keys hold no `,` or `:` and are not the
/// single key `` or `EMPTY` (which read back as no keys), and whose fields
/// do not spell `START_CLIENT:` (which the parser strips).
#[verifier::rlimit(30)]
pub proof fn law_start_command_roundtrip(p: ClientStartParams)
    requires
        pm_defaults(p),
        !p.model@.contains(':'),
        !p.driver@.contains(':'),
        !p.kilit_path@.contains(':'),
        !p.olum_binek_tusu@.contains(':'),
        forall|i: int| 0 <= i < p.olum_skill_tuslari@.len()
            ==> !(#[trigger] p.olum_skill_tuslari@[i])@.contains(':') && !p.olum_skill_tuslari@[i]@.contains(','),
        strings_view(p.olum_skill_tuslari@) != seq![Seq::<char>::empty()],
        strings_view(p.olum_skill_tuslari@) != seq!["EMPTY"@],
        find_spec(join(start_fields(p), ':'), "START_CLIENT:"@) is None,
    ensures
        legacy_fields(start_command_text(p)) == start_fields(p),
        legacy_params_ok(legacy_fields(start_command_text(p)), p),
{
    let f = start_fields(p);
    let sv = strings_view(p.olum_skill_tuslari@);
    lemma_strip_prefix(join(f, ':'));
    lemma_nat_text(p.id as nat);
    lemma_nat_text(p.hwnd as nat);
    lemma_nat_text(p.olum_skill_bekleme as nat);
    lemma_nat_text(p.olum_binek_bekleme as nat);
    lemma_digits_free(nat_text(p.id as nat), ':');
    lemma_digits_free(nat_text(p.hwnd as nat), ':');
    lemma_digits_free(nat_text(p.olum_skill_bekleme as nat), ':');
    lemma_digits_free(nat_text(p.olum_binek_bekleme as nat), ':');
    lemma_rect_text(p.kilit_region, (200, 30, 600, 80));
    lemma_rect_text(p.ocr_region, (313, 153, 457, 168));
    lemma_rect_text((p.captcha_buton_x1, p.captcha_buton_y1, p.captcha_buton_x2, p.captcha_buton_y2), (0, 0, 0, 0));
    lemma_flag_text(p.olum_skill_aktif);
    lemma_flag_text(p.olum_binek_aktif);
    assert forall|i: int| 0 <= i < sv.len() implies !(#[trigger] sv[i]).contains(':') && !sv[i].contains(',') by {
        assert(sv[i] == p.olum_skill_tuslari@[i]@);
    }
    lemma_skills_text(sv);
    assert(forall|i: int| 0 <= i < f.len() ==> !(#[trigger] f[i]).contains(':'));
    lemma_split_join(f, ':');
    assert(legacy_fields(start_command_text(p)) == f);
    lemma_parse_nat_text(p.id as nat, usize::MAX as nat);
    lemma_parse_nat_text(p.hwnd as nat, usize::MAX as nat);
    lemma_parse_nat_text(p.olum_skill_bekleme as nat, u64::MAX as nat);
    lemma_parse_nat_text(p.olum_binek_bekleme as nat, u64::MAX as nat);
    assert(skills_field(f, 8) == sv);
}

} // verus!
