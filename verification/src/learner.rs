//! Bookkeeping of the online learner: labelled samples with a score that
//! user feedback moves up or down. Samples are identified by the key of
//! their rounded features; the features themselves stay with the caller.
use vstd::prelude::*;
use vstd::string::*;
use crate::text::str_eq;

verus! {

broadcast use vstd::string::group_string_axioms;

/// Score change of one feedback.
pub const FEEDBACK_STEP: i32 = 500;
/// Bound of the score in both directions.
pub const SCORE_LIMIT: i32 = 5000;

/// A labelled sample.
#[derive(Debug)]
pub struct SampleRecord {
    pub id: u64,
    pub key: String,
    pub label: bool,
    pub score: i32,
    pub feedback_count: u32,
}

/// What a feedback did.
#[derive(Debug, Clone, Copy, PartialEq, Eq, Structural)]
pub enum Feedback {
    /// The sample with this id was updated.
    Updated(u64),
    /// A new sample with this id was created.
    Created(u64),
}

/// `v` clamped to `-SCORE_LIMIT..=SCORE_LIMIT`.
pub open spec fn clamp_score(v: int) -> int {
    if v < -5000 {
        -5000
    } else if v > 5000 {
        5000
    } else {
        v
    }
}

/// Index of the last sample with key `k`, if any.
pub open spec fn last_with_key(s: Seq<SampleRecord>, k: Seq<char>) -> Option<int>
    decreases s.len(),
{
    if s.len() == 0 {
        None
    } else if s.last().key@ == k {
        Some(s.len() - 1)
    } else {
        last_with_key(s.drop_last(), k)
    }
}

/// Number of positively labelled samples.
pub open spec fn positives(s: Seq<SampleRecord>) -> nat
    decreases s.len(),
{
    if s.len() == 0 {
        0
    } else {
        positives(s.drop_last()) + if s.last().label { 1nat } else { 0nat }
    }
}

proof fn lemma_last_with_key(s: Seq<SampleRecord>, k: Seq<char>)
    ensures
        last_with_key(s, k) matches Some(i) ==> 0 <= i < s.len() && s[i].key@ == k,
    decreases s.len(),
{
    if s.len() > 0 && s.last().key@ != k {
        lemma_last_with_key(s.drop_last(), k);
    }
}

proof fn lemma_positives_le(s: Seq<SampleRecord>)
    ensures
        positives(s) <= s.len(),
    decreases s.len(),
{
    if s.len() > 0 {
        lemma_positives_le(s.drop_last());
    }
}

/// The samples of a learner and the next free id.
#[derive(Debug)]
pub struct SampleStore {
    pub samples: Vec<SampleRecord>,
    pub next_id: u64,
}

/// Every sample is labelled by the sign of its score.
pub open spec fn labels_follow_scores(s: Seq<SampleRecord>) -> bool {
    forall|i: int| 0 <= i < s.len() ==> (#[trigger] s[i]).label == (s[i].score > 0)
}

/// Scores stay within the bound.
pub open spec fn scores_bounded(s: Seq<SampleRecord>) -> bool {
    forall|i: int| 0 <= i < s.len() ==> -5000 <= (#[trigger] s[i]).score <= 5000
}

/// Every id is below `next`.
pub open spec fn ids_below(s: Seq<SampleRecord>, next: u64) -> bool {
    forall|i: int| 0 <= i < s.len() ==> (#[trigger] s[i]).id < next
}

/// No id occurs twice.
pub open spec fn ids_unique(s: Seq<SampleRecord>) -> bool {
    forall|i: int, j: int| 0 <= i < j < s.len() ==> (#[trigger] s[i]).id != (#[trigger] s[j]).id
}

/// Whether a sample with the fields `(id, key, label, score, count)` stands
/// at index `i`.
pub open spec fn sample_is(r: SampleRecord, id: u64, key: Seq<char>, label: bool, score: int, count: int) -> bool {
    r.id == id && r.key@ == key && r.label == label && r.score == score && r.feedback_count == count
}

impl SampleStore {
    /// An empty store; ids start at 1.
    pub fn new() -> (r: Self)
        ensures
            r.samples@.len() == 0,
            r.next_id == 1,
    {
        SampleStore { samples: Vec::new(), next_id: 1 }
    }

    /// A store holding loaded samples; the next id follows the largest id.
    pub fn from_samples(samples: Vec<SampleRecord>) -> (r: Self)
        requires
            forall|i: int| 0 <= i < samples@.len() ==> (#[trigger] samples@[i]).id < u64::MAX,
        ensures
            r.samples@ == samples@,
            forall|i: int| 0 <= i < samples@.len() ==> (#[trigger] samples@[i]).id < r.next_id,
            r.next_id == 1 || exists|i: int| 0 <= i < samples@.len() && r.next_id == (#[trigger] samples@[i]).id + 1,
    {
        let mut next_id: u64 = 1;
        let mut i: usize = 0;
        while i < samples.len()
            invariant
                i <= samples@.len(),
                forall|j: int| 0 <= j < samples@.len() ==> (#[trigger] samples@[j]).id < u64::MAX,
                forall|j: int| 0 <= j < i ==> (#[trigger] samples@[j]).id < next_id,
                next_id == 1 || exists|j: int| 0 <= j < i && next_id == (#[trigger] samples@[j]).id + 1,
            decreases samples@.len() - i,
        {
            if samples[i].id >= next_id {
                next_id = samples[i].id + 1;
            }
            i = i + 1;
        }
        SampleStore { samples, next_id }
    }

    /// Samples, positives and negatives.
    pub fn get_stats(&self) -> (r: (usize, usize, usize))
        ensures
            r.0 == self.samples@.len(),
            r.1 == positives(self.samples@),
            r.2 == self.samples@.len() - positives(self.samples@),
    {
        let mut pos: usize = 0;
        let mut i: usize = 0;
        let ghost s = self.samples@;
        assert(s.take(0) =~= Seq::<SampleRecord>::empty());
        while i < self.samples.len()
            invariant
                i <= s.len(),
                s == self.samples@,
                pos == positives(s.take(i as int)),
                pos <= i,
            decreases s.len() - i,
        {
            assert(s.take(i + 1).drop_last() =~= s.take(i as int));
            if self.samples[i].label {
                pos = pos + 1;
            }
            i = i + 1;
        }
        assert(s.take(s.len() as int) =~= s);
        proof {
            lemma_positives_le(s);
        }
        (self.samples.len(), pos, self.samples.len() - pos)
    }

    fn find_last(&self, key: &str) -> (r: Option<usize>)
        ensures
            match r {
                Some(i) => last_with_key(self.samples@, key@) == Some(i as int),
                None => last_with_key(self.samples@, key@) is None,
            },
    {
        let mut i: usize = self.samples.len();
        let ghost s = self.samples@;
        assert(s.take(s.len() as int) =~= s);
        while i > 0
            invariant
                i <= s.len(),
                s == self.samples@,
                last_with_key(s, key@) == last_with_key(s.take(i as int), key@),
            decreases i,
        {
            assert(s.take(i as int).drop_last() =~= s.take(i - 1));
            if str_eq(self.samples[i - 1].key.as_str(), key) {
                return Some(i - 1);
            }
            i = i - 1;
        }
        None
    }

    /// A feedback on the sample with features key `key`: the last sample
    /// with that key has its score moved by 500 (up when positive) within
    /// ±5000, one more feedback, and the sign of its score as label; without
    /// such a sample a new one is created with score ±500 and the next id.
    pub fn process_feedback(&mut self, key: &str, is_positive: bool) -> (r: Feedback)
        requires
            old(self).next_id < u64::MAX,
            forall|i: int| 0 <= i < old(self).samples@.len() ==> (#[trigger] old(self).samples@[i]).feedback_count < u32::MAX,
        ensures
            match last_with_key(old(self).samples@, key@) {
                Some(i) => {
                    let o = old(self).samples@[i];
                    let score = clamp_score(o.score + if is_positive { 500int } else { -500int });
                    &&& r == Feedback::Updated(o.id)
                    &&& final(self).next_id == old(self).next_id
                    &&& final(self).samples@.len() == old(self).samples@.len()
                    &&& sample_is(final(self).samples@[i], o.id, o.key@, score > 0, score, o.feedback_count + 1)
                    &&& forall|j: int| 0 <= j < old(self).samples@.len() && j != i ==> final(self).samples@[j] == old(self).samples@[j]
                },
                None => {
                    &&& r == Feedback::Created(old(self).next_id)
                    &&& final(self).next_id == old(self).next_id + 1
                    &&& final(self).samples@.len() == old(self).samples@.len() + 1
                    &&& final(self).samples@.drop_last() == old(self).samples@
                    &&& sample_is(final(self).samples@.last(), old(self).next_id, key@, is_positive,
                        if is_positive { 500int } else { -500int }, 1)
                },
            },
            labels_follow_scores(old(self).samples@) ==> labels_follow_scores(final(self).samples@),
            scores_bounded(old(self).samples@) ==> scores_bounded(final(self).samples@),
            ids_below(old(self).samples@, old(self).next_id) ==> ids_below(final(self).samples@, final(self).next_id),
            ids_below(old(self).samples@, old(self).next_id) && ids_unique(old(self).samples@)
                ==> ids_unique(final(self).samples@),
    {
        let found = self.find_last(key);
        proof {
            lemma_last_with_key(self.samples@, key@);
        }
        match found {
            Some(i) => {
                let delta: i64 = if is_positive { 500 } else { -500 };
                let raw = self.samples[i].score as i64 + delta;
                let score: i32 = if raw < -5000 { -5000 } else if raw > 5000 { 5000 } else { raw as i32 };
                let id = self.samples[i].id;
                let k = self.samples[i].key.clone();
                let count = self.samples[i].feedback_count + 1;
                self.samples.set(i, SampleRecord { id, key: k, label: score > 0, score, feedback_count: count });
                Feedback::Updated(id)
            },
            None => {
                let id = self.next_id;
                self.samples.push(SampleRecord {
                    id,
                    key: key.to_string(),
                    label: is_positive,
                    score: if is_positive { 500 } else { -500 },
                    feedback_count: 1,
                });
                self.next_id = self.next_id + 1;
                Feedback::Created(id)
            },
        }
    }

    /// Forgets every sample; ids start again at 1.
    pub fn reset_model(&mut self)
        ensures
            final(self).samples@.len() == 0,
            final(self).next_id == 1,
    {
        self.samples = Vec::new();
        self.next_id = 1;
    }
}

} // verus!
