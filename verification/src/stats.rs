//! Counters of the statistics panel: the stones, misses and captchas that
//! each client reports, the running totals since the panel started, and
//! the summary over all clients. Times are nanoseconds on the caller's
//! clock; the rates and averages derived from them are computed by the
//! caller.
use vstd::prelude::*;
use crate::runner::since;

verus! {

/// A client counts as active when it reported within this time.
pub const ACTIVE_WINDOW: u64 = 30_000_000_000;

/// What one client last reported, and when.
#[derive(Debug, Clone, Copy, PartialEq, Eq, Structural)]
pub struct ClientCounters {
    pub client_id: usize,
    pub stones_mined: u32,
    pub stones_missed: u32,
    pub captcha_solved: u32,
    pub last_update: u64,
}

/// Integer part of the summary over all clients.
#[derive(Debug, Clone, Copy, PartialEq, Eq, Structural)]
pub struct GlobalCounts {
    pub total_clients: usize,
    pub active_clients: usize,
    pub total_stones: u64,
    pub total_missed: u64,
    pub total_captcha: u64,
}

/// Index of the client `id` in `s`, if it is there.
pub open spec fn index_of_client(s: Seq<ClientCounters>, id: usize) -> Option<int>
    decreases s.len(),
{
    if s.len() == 0 {
        None
    } else if s.last().client_id == id {
        Some(s.len() - 1)
    } else {
        index_of_client(s.drop_last(), id)
    }
}

/// The counters of client `id`, if it reported.
pub open spec fn counters_of(s: Seq<ClientCounters>, id: usize) -> Option<ClientCounters> {
    match index_of_client(s, id) {
        Some(i) => Some(s[i]),
        None => None,
    }
}

/// No client appears twice.
pub open spec fn ids_distinct(s: Seq<ClientCounters>) -> bool {
    forall|i: int, j: int| 0 <= i < j < s.len() ==> (#[trigger] s[i]).client_id != (#[trigger] s[j]).client_id
}

/// Sum of the stone counters.
pub open spec fn sum_stones(s: Seq<ClientCounters>) -> nat
    decreases s.len(),
{
    if s.len() == 0 { 0 } else { sum_stones(s.drop_last()) + s.last().stones_mined as nat }
}

/// Sum of the miss counters.
pub open spec fn sum_missed(s: Seq<ClientCounters>) -> nat
    decreases s.len(),
{
    if s.len() == 0 { 0 } else { sum_missed(s.drop_last()) + s.last().stones_missed as nat }
}

/// Sum of the captcha counters.
pub open spec fn sum_captcha(s: Seq<ClientCounters>) -> nat
    decreases s.len(),
{
    if s.len() == 0 { 0 } else { sum_captcha(s.drop_last()) + s.last().captcha_solved as nat }
}

/// Number of clients that reported within `ACTIVE_WINDOW` before `now`.
pub open spec fn active_count(s: Seq<ClientCounters>, now: u64) -> nat
    decreases s.len(),
{
    if s.len() == 0 {
        0
    } else {
        active_count(s.drop_last(), now) + if since(s.last().last_update, now) < ACTIVE_WINDOW { 1nat } else { 0nat }
    }
}

/// Whether a client reported less than `ACTIVE_WINDOW` before `now`.
pub open spec fn reported_recently(c: ClientCounters, now: u64) -> bool {
    since(c.last_update, now) < ACTIVE_WINDOW
}

/// The active clients are exactly those that reported less than
/// `ACTIVE_WINDOW` (30 s) before `now`: their number is the length of the
/// clients kept by that test. So when every client reported within the
/// window all are active, and when none did none is.
pub proof fn law_active_are_recent(s: Seq<ClientCounters>, now: u64)
    ensures
        active_count(s, now) == s.filter(|c: ClientCounters| reported_recently(c, now)).len(),
        (forall|i: int| 0 <= i < s.len() ==> reported_recently(#[trigger] s[i], now)) ==> active_count(s, now) == s.len(),
        (forall|i: int| 0 <= i < s.len() ==> !reported_recently(#[trigger] s[i], now)) ==> active_count(s, now) == 0,
    decreases s.len(),
{
    reveal(Seq::filter);
    if s.len() > 0 {
        let t = s.drop_last();
        let pred = |c: ClientCounters| reported_recently(c, now);
        law_active_are_recent(t, now);
        assert(forall|i: int| 0 <= i < t.len() ==> t[i] == s[i]);
        assert(s.last() == s[s.len() - 1]);
        assert(s.filter(pred).len() == t.filter(pred).len() + if pred(s.last()) { 1int } else { 0int });
    } else {
        assert(s.filter(|c: ClientCounters| reported_recently(c, now)).len() == 0);
    }
}

/// `a - b`, or 0 when `b` is larger.
pub open spec fn sat_sub(a: u32, b: u32) -> nat {
    if a >= b { (a - b) as nat } else { 0 }
}

/// The counter of the client `id` before a report: 0 for a new client.
pub open spec fn previous(s: Seq<ClientCounters>, id: usize, f: spec_fn(ClientCounters) -> u32) -> u32 {
    match counters_of(s, id) {
        Some(c) => f(c),
        None => 0,
    }
}

proof fn lemma_index_of_client(s: Seq<ClientCounters>, id: usize)
    requires
        ids_distinct(s),
    ensures
        index_of_client(s, id) matches Some(i) ==> 0 <= i < s.len() && s[i].client_id == id,
        index_of_client(s, id) is None ==> forall|j: int| 0 <= j < s.len() ==> s[j].client_id != id,
        forall|j: int| 0 <= j < s.len() && s[j].client_id == id ==> index_of_client(s, id) == Some(j),
    decreases s.len(),
{
    if s.len() > 0 {
        lemma_index_of_client(s.drop_last(), id);
        assert forall|j: int| 0 <= j < s.len() - 1 implies s.drop_last()[j] == s[j] by {}
    }
}

proof fn lemma_sums_update(s: Seq<ClientCounters>, i: int, c: ClientCounters)
    requires
        0 <= i < s.len(),
    ensures
        sum_stones(s.update(i, c)) + s[i].stones_mined == sum_stones(s) + c.stones_mined,
        sum_missed(s.update(i, c)) + s[i].stones_missed == sum_missed(s) + c.stones_missed,
        sum_captcha(s.update(i, c)) + s[i].captcha_solved == sum_captcha(s) + c.captcha_solved,
    decreases s.len(),
{
    let t = s.update(i, c);
    if i == s.len() - 1 {
        assert(t.drop_last() =~= s.drop_last());
    } else {
        assert(t.drop_last() =~= s.drop_last().update(i, c));
        lemma_sums_update(s.drop_last(), i, c);
    }
}

/// The reported counters of all clients and the totals since the start.
pub struct StatsDashboard {
    pub clients: Vec<ClientCounters>,
    pub total_stones_all_time: u32,
    pub total_captcha_all_time: u32,
}

impl StatsDashboard {
    /// The counters of the clients, in the order they first reported.
    pub open spec fn clients(self) -> Seq<ClientCounters> {
        self.clients@
    }

    /// Well-formedness: each client is held once.
    pub open spec fn wf(self) -> bool {
        ids_distinct(self.clients())
    }

    /// No client reported; totals zero.
    pub fn new() -> (r: Self)
        ensures
            r.wf(),
            r.clients() == Seq::<ClientCounters>::empty(),
            r.total_stones_all_time == 0,
            r.total_captcha_all_time == 0,
    {
        StatsDashboard { clients: Vec::new(), total_stones_all_time: 0, total_captcha_all_time: 0 }
    }

    fn find(&self, client_id: usize) -> (r: Option<usize>)
        requires
            self.wf(),
        ensures
            match r {
                Some(i) => i < self.clients().len() && index_of_client(self.clients(), client_id) == Some(i as int),
                None => index_of_client(self.clients(), client_id) is None,
            },
    {
        let mut i: usize = 0;
        while i < self.clients.len()
            invariant
                i <= self.clients@.len(),
                ids_distinct(self.clients@),
                forall|j: int| 0 <= j < i ==> self.clients@[j].client_id != client_id,
            decreases self.clients@.len() - i,
        {
            if self.clients[i].client_id == client_id {
                proof {
                    lemma_index_of_client(self.clients@, client_id);
                }
                return Some(i);
            }
            i = i + 1;
        }
        proof {
            lemma_index_of_client(self.clients@, client_id);
            if index_of_client(self.clients@, client_id) is Some {
                let k = index_of_client(self.clients@, client_id)->0;
                assert(self.clients@[k].client_id == client_id);
            }
        }
        None
    }

    /// The counters a client last reported.
    pub fn get_client_stats(&self, client_id: usize) -> (r: Option<ClientCounters>)
        requires
            self.wf(),
        ensures
            r == counters_of(self.clients(), client_id),
    {
        match self.find(client_id) {
            Some(i) => Some(self.clients[i]),
            None => None,
        }
    }

    /// A report of client `client_id` at `now`: its counters become the
    /// reported ones (a new client is added after the others), and the
    /// totals since the start grow by the increase of its stone and captcha
    /// counters (nothing when a counter went down).
    pub fn update_client(&mut self, client_id: usize, stones: u32, missed: u32, captcha: u32, now: u64)
        requires
            old(self).wf(),
            old(self).total_stones_all_time + sat_sub(stones, previous(old(self).clients(), client_id, |c: ClientCounters| c.stones_mined)) <= u32::MAX,
            old(self).total_captcha_all_time + sat_sub(captcha, previous(old(self).clients(), client_id, |c: ClientCounters| c.captcha_solved)) <= u32::MAX,
        ensures
            final(self).wf(),
            counters_of(final(self).clients(), client_id) == Some(ClientCounters {
                client_id,
                stones_mined: stones,
                stones_missed: missed,
                captcha_solved: captcha,
                last_update: now,
            }),
            forall|id: usize| id != client_id ==> counters_of(final(self).clients(), id) == counters_of(old(self).clients(), id),
            final(self).total_stones_all_time == old(self).total_stones_all_time
                + sat_sub(stones, previous(old(self).clients(), client_id, |c: ClientCounters| c.stones_mined)),
            final(self).total_captcha_all_time == old(self).total_captcha_all_time
                + sat_sub(captcha, previous(old(self).clients(), client_id, |c: ClientCounters| c.captcha_solved)),
            match index_of_client(old(self).clients(), client_id) {
                Some(i) => final(self).clients() == old(self).clients().update(i, ClientCounters {
                    client_id, stones_mined: stones, stones_missed: missed, captcha_solved: captcha, last_update: now,
                }),
                None => final(self).clients() == old(self).clients().push(ClientCounters {
                    client_id, stones_mined: stones, stones_missed: missed, captcha_solved: captcha, last_update: now,
                }),
            },
    {
        let entry = ClientCounters { client_id, stones_mined: stones, stones_missed: missed, captcha_solved: captcha, last_update: now };
        let ghost before = self.clients@;
        proof {
            lemma_index_of_client(before, client_id);
        }
        let (prev_stones, prev_captcha) = match self.find(client_id) {
            Some(i) => {
                let prev = (self.clients[i].stones_mined, self.clients[i].captcha_solved);
                self.clients.set(i, entry);
                proof {
                    let after = self.clients@;
                    assert(after == before.update(i as int, entry));
                    assert forall|a: int, b: int| 0 <= a < b < after.len() implies (#[trigger] after[a]).client_id != (#[trigger] after[b]).client_id by {
                        if a != i && b != i {
                            assert(after[a] == before[a] && after[b] == before[b]);
                        } else if a == i {
                            assert(after[b] == before[b]);
                        } else {
                            assert(after[a] == before[a]);
                        }
                    }
                    lemma_index_of_client(after, client_id);
                    assert(after[i as int] == entry);
                    assert(counters_of(after, client_id) == Some(entry));
                    assert forall|id: usize| id != client_id implies counters_of(after, id) == counters_of(before, id) by {
                        lemma_index_of_client(after, id);
                        lemma_index_of_client(before, id);
                        if index_of_client(before, id) is Some {
                            let k = index_of_client(before, id)->0;
                            assert(after[k] == before[k]);
                        }
                        if index_of_client(after, id) is Some {
                            let k = index_of_client(after, id)->0;
                            assert(after[k] == before[k]);
                        }
                    }
                }
                prev
            },
            None => {
                self.clients.push(entry);
                proof {
                    let after = self.clients@;
                    assert(after == before.push(entry));
                    assert forall|a: int, b: int| 0 <= a < b < after.len() implies (#[trigger] after[a]).client_id != (#[trigger] after[b]).client_id by {
                        assert(after[a] == before[a]);
                        if b < before.len() {
                            assert(after[b] == before[b]);
                        }
                    }
                    assert(after.drop_last() =~= before);
                    assert(counters_of(after, client_id) == Some(entry));
                    assert forall|id: usize| id != client_id implies counters_of(after, id) == counters_of(before, id) by {
                        lemma_index_of_client(before, id);
                    }
                }
                (0u32, 0u32)
            },
        };
        let stone_diff = stones.saturating_sub(prev_stones);
        let captcha_diff = captcha.saturating_sub(prev_captcha);
        self.total_stones_all_time = self.total_stones_all_time + stone_diff;
        self.total_captcha_all_time = self.total_captcha_all_time + captcha_diff;
    }

    /// Forgets a client; its counters leave the sums but not the totals
    /// since the start.
    pub fn remove_client(&mut self, client_id: usize)
        requires
            old(self).wf(),
        ensures
            final(self).wf(),
            counters_of(final(self).clients(), client_id) is None,
            forall|id: usize| id != client_id ==> counters_of(final(self).clients(), id) == counters_of(old(self).clients(), id),
            final(self).total_stones_all_time == old(self).total_stones_all_time,
            final(self).total_captcha_all_time == old(self).total_captcha_all_time,
            match index_of_client(old(self).clients(), client_id) {
                Some(i) => final(self).clients() == old(self).clients().remove(i),
                None => final(self).clients() == old(self).clients(),
            },
    {
        let ghost before = self.clients@;
        proof {
            lemma_index_of_client(before, client_id);
        }
        if let Some(i) = self.find(client_id) {
            self.clients.remove(i);
            proof {
                let after = self.clients@;
                assert(after == before.remove(i as int));
                assert forall|a: int, b: int| 0 <= a < b < after.len() implies (#[trigger] after[a]).client_id != (#[trigger] after[b]).client_id by {
                    let a2 = if a < i { a } else { a + 1 };
                    let b2 = if b < i { b } else { b + 1 };
                    assert(after[a] == before[a2] && after[b] == before[b2]);
                }
                lemma_index_of_client(after, client_id);
                if index_of_client(after, client_id) is Some {
                    let k = index_of_client(after, client_id)->0;
                    let k2 = if k < i { k } else { k + 1 };
                    assert(after[k] == before[k2]);
                }
                assert forall|id: usize| id != client_id implies counters_of(after, id) == counters_of(before, id) by {
                    lemma_index_of_client(after, id);
                    lemma_index_of_client(before, id);
                    if index_of_client(before, id) is Some {
                        let k = index_of_client(before, id)->0;
                        assert(k != i);
                        let k2 = if k < i { k } else { k - 1 };
                        assert(after[k2] == before[k]);
                    }
                    if index_of_client(after, id) is Some {
                        let k = index_of_client(after, id)->0;
                        let k2 = if k < i { k } else { k + 1 };
                        assert(after[k] == before[k2]);
                    }
                }
            }
        }
    }

    /// The summary at `now`: how many clients reported, how many within the
    /// last 30 seconds, and the sums of their counters (each fits in 64 bits
    /// for up to 2^32 clients).
    pub fn get_global_summary(&self, now: u64) -> (r: GlobalCounts)
        requires
            self.clients().len() <= u32::MAX,
        ensures
            r.total_clients == self.clients().len(),
            r.active_clients == active_count(self.clients(), now),
            r.total_stones == sum_stones(self.clients()),
            r.total_missed == sum_missed(self.clients()),
            r.total_captcha == sum_captcha(self.clients()),
    {
        let ghost s = self.clients@;
        let mut active: usize = 0;
        let mut stones: u64 = 0;
        let mut missed: u64 = 0;
        let mut captcha: u64 = 0;
        let mut i: usize = 0;
        assert(s.take(0) =~= Seq::<ClientCounters>::empty());
        while i < self.clients.len()
            invariant
                i <= s.len(),
                s == self.clients@,
                active == active_count(s.take(i as int), now),
                stones == sum_stones(s.take(i as int)),
                missed == sum_missed(s.take(i as int)),
                captcha == sum_captcha(s.take(i as int)),
                active <= i,
                s.len() <= u32::MAX,
                stones <= i * 0xFFFF_FFFF,
                missed <= i * 0xFFFF_FFFF,
                captcha <= i * 0xFFFF_FFFF,
            decreases s.len() - i,
        {
            assert(s.take(i + 1).drop_last() =~= s.take(i as int));
            let c = self.clients[i];
            let e = if now >= c.last_update { now - c.last_update } else { 0 };
            if e < ACTIVE_WINDOW {
                active = active + 1;
            }
            assert(i * 0xFFFF_FFFF + 0xFFFF_FFFF == (i + 1) * 0xFFFF_FFFF) by (nonlinear_arith);
            assert((i + 1) * 0xFFFF_FFFF <= u64::MAX) by (nonlinear_arith)
                requires i < s.len(), s.len() <= u32::MAX;
            stones = stones + c.stones_mined as u64;
            missed = missed + c.stones_missed as u64;
            captcha = captcha + c.captcha_solved as u64;
            i = i + 1;
        }
        assert(s.take(s.len() as int) =~= s);
        GlobalCounts { total_clients: self.clients.len(), active_clients: active, total_stones: stones, total_missed: missed, total_captcha: captcha }
    }
}

/// While reported counters only grow, the totals since the start rise by
/// exactly as much as the sums over the clients: the gap between the total
/// and the sum stays what it was.
pub proof fn law_totals_follow_sums(
    s: Seq<ClientCounters>,
    total_stones: nat,
    total_captcha: nat,
    c: ClientCounters,
)
    requires
        ids_distinct(s),
        c.stones_mined >= previous(s, c.client_id, |x: ClientCounters| x.stones_mined),
        c.captcha_solved >= previous(s, c.client_id, |x: ClientCounters| x.captcha_solved),
    ensures
        ({
            let t = match index_of_client(s, c.client_id) {
                Some(i) => s.update(i, c),
                None => s.push(c),
            };
            &&& total_stones + sat_sub(c.stones_mined, previous(s, c.client_id, |x: ClientCounters| x.stones_mined)) - sum_stones(t)
                == total_stones - sum_stones(s)
            &&& total_captcha + sat_sub(c.captcha_solved, previous(s, c.client_id, |x: ClientCounters| x.captcha_solved)) - sum_captcha(t)
                == total_captcha - sum_captcha(s)
        }),
{
    lemma_index_of_client(s, c.client_id);
    match index_of_client(s, c.client_id) {
        Some(i) => {
            lemma_sums_update(s, i, c);
        },
        None => {
            assert(s.push(c).drop_last() =~= s);
        },
    }
}

} // verus!
