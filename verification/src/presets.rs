//! The names of the saved setting presets and the preset suggested for a
//! game window from the map named in its title. The preset files
//! themselves are read and written by the caller.
use vstd::prelude::*;
use vstd::string::*;
use crate::text::{str_eq, to_lower, lower_of, find_str, find_spec, ascii_upper_char, ascii_lower_char};

verus! {

broadcast use vstd::string::group_string_axioms;

/// Number of map keywords.
pub const MAP_KEYWORD_COUNT: usize = 5;

/// The map keywords looked for in a lower-cased window title, in order.
pub open spec fn map_keyword(i: int) -> Seq<char> {
    if i == 0 {
        "vadi"@
    } else if i == 1 {
        "doyum"@
    } else if i == 2 {
        "guatama"@
    } else if i == 3 {
        "kızıl"@
    } else {
        "buyulu"@
    }
}

/// The preset named after map keyword `i`.
pub open spec fn map_preset(i: int) -> Seq<char> {
    if i == 0 {
        "Vadi"@
    } else if i == 1 {
        "Doyum"@
    } else if i == 2 {
        "Guatama"@
    } else if i == 3 {
        "Kızıl"@
    } else {
        "Buyulu"@
    }
}

fn keyword_at(i: usize) -> (r: (&'static str, &'static str))
    requires
        i < MAP_KEYWORD_COUNT,
    ensures
        r.0@ == map_keyword(i as int),
        r.1@ == map_preset(i as int),
{
    if i == 0 {
        ("vadi", "Vadi")
    } else if i == 1 {
        ("doyum", "Doyum")
    } else if i == 2 {
        ("guatama", "Guatama")
    } else if i == 3 {
        ("kızıl", "Kızıl")
    } else {
        ("buyulu", "Buyulu")
    }
}

/// The first map, from keyword `i` on, whose keyword occurs in the
/// lower-cased title `lower` and whose preset is among `names`.
pub open spec fn suggestion_from(lower: Seq<char>, names: Seq<Seq<char>>, i: int) -> Option<Seq<char>>
    decreases MAP_KEYWORD_COUNT - i,
{
    if i < 0 || i >= MAP_KEYWORD_COUNT {
        None
    } else if find_spec(lower, map_keyword(i)) is Some && names.contains(map_preset(i)) {
        Some(map_preset(i))
    } else {
        suggestion_from(lower, names, i + 1)
    }
}

/// The preset suggested for a window titled `title`, given the saved
/// preset names.
pub open spec fn suggestion(title: Seq<char>, names: Seq<Seq<char>>) -> Option<Seq<char>> {
    suggestion_from(lower_of(title), names, 0)
}

/// A name with its first letter put in ASCII upper case.
pub open spec fn capitalized(k: Seq<char>) -> Seq<char> {
    if k.len() == 0 { k } else { seq![ascii_upper_char(k[0])] + k.drop_first() }
}

/// A name with its first letter put in ASCII lower case.
pub open spec fn uncapitalized(p: Seq<char>) -> Seq<char> {
    if p.len() == 0 { p } else { seq![ascii_lower_char(p[0])] + p.drop_first() }
}

/// The maps whose presets are suggested, in the order they are looked for.
pub open spec fn map_names() -> Seq<Seq<char>> {
    seq!["Vadi"@, "Doyum"@, "Guatama"@, "Kızıl"@, "Buyulu"@]
}

proof fn lemma_map_names(i: int)
    requires
        0 <= i < MAP_KEYWORD_COUNT,
    ensures
        map_names()[i] == map_preset(i),
{
    let m = map_names();
    assert(m[0] == "Vadi"@);
    assert(m[1] == "Doyum"@);
    assert(m[2] == "Guatama"@);
    assert(m[3] == "Kızıl"@);
    assert(m[4] == "Buyulu"@);
}

/// Whether map `j` is one that the title names and whose preset is saved.
pub open spec fn map_chosen(lower: Seq<char>, names: Seq<Seq<char>>, j: int) -> bool {
    find_spec(lower, map_keyword(j)) is Some && names.contains(capitalized(map_keyword(j)))
}

proof fn lemma_preset_names_keyword(i: int)
    requires
        0 <= i < MAP_KEYWORD_COUNT,
    ensures
        map_preset(i) == capitalized(map_keyword(i)),
        uncapitalized(map_preset(i)) == map_keyword(i),
{
    if i == 0 {
        reveal_strlit("vadi");
        reveal_strlit("Vadi");
    } else if i == 1 {
        reveal_strlit("doyum");
        reveal_strlit("Doyum");
    } else if i == 2 {
        reveal_strlit("guatama");
        reveal_strlit("Guatama");
    } else if i == 3 {
        reveal_strlit("kızıl");
        reveal_strlit("Kızıl");
    } else {
        reveal_strlit("buyulu");
        reveal_strlit("Buyulu");
    }
    assert(map_preset(i) =~= capitalized(map_keyword(i)));
    assert(uncapitalized(map_preset(i)) =~= map_keyword(i));
}

proof fn lemma_suggestion_skips(lower: Seq<char>, names: Seq<Seq<char>>, j: int, i: int)
    requires
        0 <= j <= i <= MAP_KEYWORD_COUNT,
        forall|k: int| j <= k < i ==> !map_chosen(lower, names, k),
    ensures
        suggestion_from(lower, names, j) == suggestion_from(lower, names, i),
    decreases i - j,
{
    if j < i {
        lemma_preset_names_keyword(j);
        assert(!map_chosen(lower, names, j));
        lemma_suggestion_skips(lower, names, j + 1, i);
    }
}

proof fn lemma_suggestion_from_named(lower: Seq<char>, names: Seq<Seq<char>>, j: int)
    ensures
        suggestion_from(lower, names, j) matches Some(p) ==> {
            &&& names.contains(p)
            &&& p == capitalized(uncapitalized(p))
            &&& find_spec(lower, uncapitalized(p)) is Some
        },
    decreases MAP_KEYWORD_COUNT - j,
{
    if 0 <= j < MAP_KEYWORD_COUNT {
        lemma_preset_names_keyword(j);
        lemma_suggestion_from_named(lower, names, j + 1);
    }
}

/// The preset suggested for a title is saved, it is named after a map
/// keyword (the keyword with its first letter in upper case), and that
/// keyword occurs in the lower-cased title.
pub proof fn law_suggestion_named_after_title(title: Seq<char>, names: Seq<Seq<char>>)
    ensures
        suggestion(title, names) matches Some(p) ==> {
            &&& names.contains(p)
            &&& p == capitalized(uncapitalized(p))
            &&& find_spec(lower_of(title), uncapitalized(p)) is Some
        },
{
    lemma_suggestion_from_named(lower_of(title), names, 0);
}

/// The first map, in the order Vadi, Doyum, Guatama, Kızıl, Buyulu, whose
/// keyword occurs in the lower-cased title and whose preset is saved gives
/// the suggestion: the keyword with its first letter in upper case. When no
/// map is so chosen there is no suggestion.
pub proof fn law_suggestion_first_chosen_map(title: Seq<char>, names: Seq<Seq<char>>, i: int)
    requires
        0 <= i <= MAP_KEYWORD_COUNT,
        forall|k: int| 0 <= k < i ==> !map_chosen(lower_of(title), names, k),
    ensures
        i < MAP_KEYWORD_COUNT && map_chosen(lower_of(title), names, i)
            ==> suggestion(title, names) == Some(capitalized(map_keyword(i))),
        i < MAP_KEYWORD_COUNT ==> capitalized(map_keyword(i)) == map_names()[i],
        i == MAP_KEYWORD_COUNT ==> suggestion(title, names) is None,
{
    lemma_suggestion_skips(lower_of(title), names, 0, i);
    if i < MAP_KEYWORD_COUNT {
        lemma_preset_names_keyword(i);
        lemma_map_names(i);
    }
}

/// Views of a list of names.
pub open spec fn names_view(v: Seq<String>) -> Seq<Seq<char>> {
    v.map_values(|s: String| s@)
}

/// The names of the saved presets, each once.
pub struct PresetManager {
    names: Vec<String>,
}

impl PresetManager {
    /// The saved preset names.
    pub closed spec fn names(self) -> Seq<Seq<char>> {
        names_view(self.names@)
    }

    /// Well-formedness: no name twice.
    pub closed spec fn wf(self) -> bool {
        self.names().no_duplicates()
    }

    /// No preset saved.
    pub fn new() -> (r: Self)
        ensures
            r.wf(),
            r.names() == Seq::<Seq<char>>::empty(),
    {
        let r = PresetManager { names: Vec::new() };
        assert(r.names() =~= Seq::<Seq<char>>::empty());
        r
    }

    fn index_of(&self, name: &str) -> (r: Option<usize>)
        ensures
            match r {
                Some(i) => i < self.names().len() && self.names()[i as int] == name@,
                None => !self.names().contains(name@),
            },
    {
        let mut i: usize = 0;
        while i < self.names.len()
            invariant
                i <= self.names@.len(),
                self.names().len() == self.names@.len(),
                forall|j: int| 0 <= j < i ==> self.names()[j] != name@,
            decreases self.names@.len() - i,
        {
            if str_eq(self.names[i].as_str(), name) {
                return Some(i);
            }
            i = i + 1;
        }
        None
    }

    /// Whether a preset of that name is saved.
    pub fn has_preset(&self, name: &str) -> (r: bool)
        ensures
            r == self.names().contains(name@),
    {
        self.index_of(name).is_some()
    }

    /// The saved preset names.
    pub fn list(&self) -> (r: Vec<String>)
        ensures
            names_view(r@) == self.names(),
    {
        let mut out: Vec<String> = Vec::new();
        let mut i: usize = 0;
        while i < self.names.len()
            invariant
                i <= self.names@.len(),
                out@.len() == i,
                forall|j: int| 0 <= j < i ==> (#[trigger] out@[j])@ == self.names@[j]@,
            decreases self.names@.len() - i,
        {
            out.push(self.names[i].clone());
            i = i + 1;
        }
        assert(names_view(out@) =~= names_view(self.names@));
        out
    }

    /// Notes a preset saved under `name`; a name already known stays once.
    pub fn insert(&mut self, name: &str)
        requires
            old(self).wf(),
        ensures
            final(self).wf(),
            final(self).names().to_set() == old(self).names().to_set().insert(name@),
            old(self).names().contains(name@) ==> final(self).names() == old(self).names(),
            !old(self).names().contains(name@) ==> final(self).names() == old(self).names().push(name@),
    {
        if self.index_of(name).is_none() {
            let ghost before = self.names();
            self.names.push(name.to_string());
            assert(self.names() =~= before.push(name@));
            proof {
                assert forall|i: int, j: int| 0 <= i < j < self.names().len() implies self.names()[i] != self.names()[j] by {
                    if j == before.len() {
                        assert(before[i] == self.names()[i]);
                    } else {
                        assert(before[i] == self.names()[i] && before[j] == self.names()[j]);
                    }
                }
                assert(self.names().to_set() =~= before.to_set().insert(name@)) by {
                    assert forall|x: Seq<char>| self.names().to_set().contains(x) <==> before.to_set().insert(name@).contains(x) by {
                        if self.names().contains(x) {
                            let k = choose|k: int| 0 <= k < self.names().len() && self.names()[k] == x;
                            if k < before.len() {
                                assert(before[k] == x);
                            }
                        }
                        if before.contains(x) {
                            let k = choose|k: int| 0 <= k < before.len() && before[k] == x;
                            assert(self.names()[k] == x);
                        }
                        if x == name@ {
                            assert(self.names()[before.len() as int] == x);
                        }
                    }
                }
            }
        } else {
            proof {
                assert(self.names().to_set() =~= self.names().to_set().insert(name@));
            }
        }
    }

    /// Forgets the preset `name`; whether it was known.
    pub fn remove(&mut self, name: &str) -> (r: bool)
        requires
            old(self).wf(),
        ensures
            final(self).wf(),
            r == old(self).names().contains(name@),
            !final(self).names().contains(name@),
            forall|x: Seq<char>| x != name@ ==> (final(self).names().contains(x) <==> old(self).names().contains(x)),
    {
        match self.index_of(name) {
            Some(i) => {
                let ghost before = self.names();
                self.names.remove(i);
                assert(self.names() =~= before.remove(i as int));
                proof {
                    assert forall|x: Seq<char>| x != name@ implies (self.names().contains(x) <==> before.contains(x)) by {
                        if self.names().contains(x) {
                            let k = choose|k: int| 0 <= k < self.names().len() && self.names()[k] == x;
                            if k < i {
                                assert(before[k] == x);
                            } else {
                                assert(before[k + 1] == x);
                            }
                        }
                        if before.contains(x) {
                            let k = choose|k: int| 0 <= k < before.len() && before[k] == x;
                            if k < i {
                                assert(self.names()[k] == x);
                            } else {
                                assert(k != i);
                                assert(self.names()[k - 1] == x);
                            }
                        }
                    }
                    if self.names().contains(name@) {
                        let k = choose|k: int| 0 <= k < self.names().len() && self.names()[k] == name@;
                        if k < i {
                            assert(before[k] == name@ && before[i as int] == name@);
                        } else {
                            assert(before[k + 1] == name@ && before[i as int] == name@);
                        }
                    }
                    assert forall|a: int, b: int| 0 <= a < b < self.names().len() implies self.names()[a] != self.names()[b] by {
                        let a2 = if a < i { a } else { a + 1 };
                        let b2 = if b < i { b } else { b + 1 };
                        assert(self.names()[a] == before[a2] && self.names()[b] == before[b2]);
                    }
                }
                true
            },
            None => false,
        }
    }

    /// The preset suggested for a window titled `window_title`: the first of
    /// the maps Vadi, Doyum, Guatama, Kızıl, Buyulu whose lower-case keyword
    /// occurs in the lower-cased title and whose preset is saved.
    pub fn suggest_for_window(&self, window_title: &str) -> (r: Option<String>)
        ensures
            match r {
                Some(s) => suggestion(window_title@, self.names()) == Some(s@),
                None => suggestion(window_title@, self.names()) is None,
            },
    {
        let lower = to_lower(window_title);
        let ghost lv = lower@;
        assert(lv == lower_of(window_title@));
        let mut i: usize = 0;
        while i < MAP_KEYWORD_COUNT
            invariant
                i <= MAP_KEYWORD_COUNT,
                lower@ == lv,
                lv == lower_of(window_title@),
                suggestion_from(lv, self.names(), 0) == suggestion_from(lv, self.names(), i as int),
            decreases MAP_KEYWORD_COUNT - i,
        {
            let (keyword, preset) = keyword_at(i);
            if find_str(lower.as_str(), keyword).is_some() && self.has_preset(preset) {
                assert(suggestion_from(lv, self.names(), i as int) == Some(map_preset(i as int)));
                return Some(preset.to_string());
            }
            i = i + 1;
        }
        None
    }
}

} // verus!
