//! Throttled automatic replies to private messages: which backend answers,
//! when a sender may be answered again, and what is remembered of a reply.
use vstd::prelude::*;
use vstd::string::*;
use std::time::Instant;
use crate::clock::{clock_now, nanos_since};
use crate::runner::{since, next_count, next_count_exec};
use crate::text::{str_eq, lemma_trim_unchanged, upper_of, ascii_upper_char};
use crate::vk_codes::{key_vk, key_form, modifier_vk, fkey_vk, char_key_vk};
use crate::pm_parse::{extract_pm_from_ocr, extract_pm_spec};
use crate::client_params::strings_view;

verus! {

broadcast use vstd::string::group_string_axioms;

/// One day, in nanoseconds: the period of the daily reply counter.
pub const DAY_NANOS: u64 = 86_400_000_000_000;

/// How many answered messages are remembered.
pub const RECENT_LIMIT: usize = 50;

/// The service that writes the replies.
#[derive(Debug)]
pub enum AiBackend {
    OpenAI { api_key: String },
    Gemini { api_key: String },
    Ollama { model: String },
}

/// Model of a backend: its kind (0 OpenAI, 1 Gemini, 2 Ollama) and its key
/// or model name.
pub open spec fn backend_view(b: AiBackend) -> (u8, Seq<char>) {
    match b {
        AiBackend::OpenAI { api_key } => (0u8, api_key@),
        AiBackend::Gemini { api_key } => (1u8, api_key@),
        AiBackend::Ollama { model } => (2u8, model@),
    }
}

impl Clone for AiBackend {
    fn clone(&self) -> (r: Self)
        ensures
            r == *self,
    {
        match self {
            AiBackend::OpenAI { api_key } => AiBackend::OpenAI { api_key: api_key.clone() },
            AiBackend::Gemini { api_key } => AiBackend::Gemini { api_key: api_key.clone() },
            AiBackend::Ollama { model } => AiBackend::Ollama { model: model.clone() },
        }
    }
}

/// The backend a configuration names: `openai`, `ollama` (with its local
/// model), and Gemini for anything else.
pub open spec fn backend_for(backend: Seq<char>, api_key: Seq<char>) -> (u8, Seq<char>) {
    if backend == "openai"@ {
        (0u8, api_key)
    } else if backend == "ollama"@ {
        (2u8, "llama3.2:3b"@)
    } else {
        (1u8, api_key)
    }
}

impl AiBackend {
    /// The backend a configuration names.
    pub fn from_config(backend: &str, api_key: &str) -> (r: Self)
        ensures
            backend_view(r) == backend_for(backend@, api_key@),
    {
        if str_eq(backend, "openai") {
            AiBackend::OpenAI { api_key: api_key.to_string() }
        } else if str_eq(backend, "ollama") {
            AiBackend::Ollama { model: "llama3.2:3b".to_string() }
        } else {
            AiBackend::Gemini { api_key: api_key.to_string() }
        }
    }

    /// Name shown to the user.
    pub fn display_name(&self) -> (r: &'static str)
        ensures
            r@ == (match *self {
                AiBackend::OpenAI { .. } => "OpenAI GPT-4o-mini"@,
                AiBackend::Gemini { .. } => "Google Gemini Flash"@,
                AiBackend::Ollama { .. } => "Yerel Ollama"@,
            }),
    {
        match self {
            AiBackend::OpenAI { .. } => "OpenAI GPT-4o-mini",
            AiBackend::Gemini { .. } => "Google Gemini Flash",
            AiBackend::Ollama { .. } => "Yerel Ollama",
        }
    }
}

/// A remembered reply. `timestamp` is in nanoseconds on the engine's clock.
#[derive(Debug)]
pub struct PmRecord {
    pub sender: String,
    pub message: String,
    pub reply: String,
    pub timestamp: u64,
    pub success: bool,
}

/// Model of a remembered reply: sender, message, reply, time, success.
pub open spec fn record_view(r: PmRecord) -> (Seq<char>, Seq<char>, Seq<char>, u64, bool) {
    (r.sender@, r.message@, r.reply@, r.timestamp, r.success)
}

/// Models of a list of remembered replies.
pub open spec fn records_view(v: Seq<PmRecord>) -> Seq<(Seq<char>, Seq<char>, Seq<char>, u64, bool)> {
    v.map_values(|r: PmRecord| record_view(r))
}

/// What the reply service is asked: who answers, with which instructions,
/// and the prompt.
#[derive(Debug)]
pub struct AiRequest {
    pub backend: AiBackend,
    pub system_prompt: String,
    pub prompt: String,
}

/// Whether the daily counter is due to be reset.
pub open spec fn day_rolled(last_reset: u64, now: u64) -> bool {
    since(last_reset, now) >= DAY_NANOS
}

/// Whether a sender answered at `last` is still within the cooldown.
pub open spec fn cooling(last: u64, now: u64, cooldown_secs: u64) -> bool {
    since(last, now) < cooldown_secs * 1_000_000_000
}

/// Why a reply is refused, if it is: the daily limit (when it is not 0) is
/// reached, or the sender was answered within the cooldown.
pub open spec fn reply_gate(count: u32, limit: u32, last: Option<u64>, now: u64, cooldown_secs: u64) -> Result<(), Seq<char>> {
    if limit > 0 && count >= limit {
        Err("Günlük PM limiti doldu"@)
    } else if last is Some && cooling(last->0, now, cooldown_secs) {
        Err("Cooldown: Aynı kişiye çok sık yanıt"@)
    } else {
        Ok(())
    }
}

/// Map from sender to the time of the last reply, built from a history list
/// in order (later entries win).
pub open spec fn hist_map(s: Seq<(String, u64)>) -> Map<Seq<char>, u64>
    decreases s.len(),
{
    if s.len() == 0 {
        Map::empty()
    } else {
        hist_map(s.drop_last()).insert(s.last().0@, s.last().1)
    }
}

/// No sender appears twice in a history list.
pub open spec fn hist_unique(s: Seq<(String, u64)>) -> bool {
    forall|i: int, j: int| 0 <= i < j < s.len() ==> s[i].0@ != s[j].0@
}

/// Value stored for a key, if any.
pub open spec fn lookup(m: Map<Seq<char>, u64>, k: Seq<char>) -> Option<u64> {
    if m.contains_key(k) {
        Some(m[k])
    } else {
        None
    }
}

proof fn lemma_hist_contains(s: Seq<(String, u64)>, k: Seq<char>)
    requires
        hist_unique(s),
    ensures
        hist_map(s).contains_key(k) <==> exists|i: int| 0 <= i < s.len() && s[i].0@ == k,
        forall|i: int| 0 <= i < s.len() && s[i].0@ == k ==> hist_map(s)[k] == s[i].1,
    decreases s.len(),
{
    if s.len() > 0 {
        let p = s.drop_last();
        lemma_hist_contains(p, k);
        assert forall|i: int| 0 <= i < s.len() && s[i].0@ == k implies hist_map(s)[k] == s[i].1 by {
            if i < s.len() - 1 {
                assert(p[i] == s[i]);
            }
        }
        if hist_map(s).contains_key(k) && s.last().0@ != k {
            let i = choose|i: int| 0 <= i < p.len() && p[i].0@ == k;
            assert(s[i] == p[i]);
        }
        if exists|i: int| 0 <= i < s.len() && s[i].0@ == k {
            let i = choose|i: int| 0 <= i < s.len() && s[i].0@ == k;
            if i < s.len() - 1 {
                assert(p[i] == s[i]);
            }
        }
    }
}

proof fn lemma_hist_update(s: Seq<(String, u64)>, i: int, e: (String, u64))
    requires
        hist_unique(s),
        0 <= i < s.len(),
        e.0@ == s[i].0@,
    ensures
        hist_map(s.update(i, e)) == hist_map(s).insert(e.0@, e.1),
        hist_unique(s.update(i, e)),
    decreases s.len(),
{
    let t = s.update(i, e);
    if i == s.len() - 1 {
        assert(t.drop_last() =~= s.drop_last());
        assert(hist_map(t) =~= hist_map(s).insert(e.0@, e.1));
    } else {
        let p = s.drop_last();
        assert(t.drop_last() =~= p.update(i, e));
        lemma_hist_update(p, i, e);
        assert(s.last().0@ != e.0@);
        assert(hist_map(t) =~= hist_map(s).insert(e.0@, e.1));
    }
}

proof fn lemma_hist_len(s: Seq<(String, u64)>)
    requires
        hist_unique(s),
    ensures
        hist_map(s).dom().finite(),
        hist_map(s).dom().len() == s.len(),
    decreases s.len(),
{
    if s.len() > 0 {
        let p = s.drop_last();
        lemma_hist_len(p);
        lemma_hist_contains(p, s.last().0@);
        if hist_map(p).contains_key(s.last().0@) {
            let i = choose|i: int| 0 <= i < p.len() && p[i].0@ == s.last().0@;
            assert(s[i] == p[i]);
        }
    }
}


/// The reply gate over a history that holds the sender's last reply at `t`
/// opens at `now` exactly when the daily limit is off or not reached and
/// the cooldown has run out since `t`; in particular a sender is refused
/// again within `cooldown_secs` of a reply.
pub proof fn law_cooldown_after_reply(
    history: Map<Seq<char>, u64>,
    sender: Seq<char>,
    t: u64,
    now: u64,
    count: u32,
    limit: u32,
    cooldown_secs: u64,
)
    ensures
        reply_gate(count, limit, lookup(history.insert(sender, t), sender), now, cooldown_secs) is Ok
            <==> ((limit == 0 || count < limit) && since(t, now) >= cooldown_secs * 1_000_000_000),
        t <= now && now - t < cooldown_secs * 1_000_000_000
            ==> reply_gate(count, limit, lookup(history.insert(sender, t), sender), now, cooldown_secs) is Err,
{
    assert(history.insert(sender, t).contains_key(sender));
}

/// When the reply gate allows a reply under a non-zero daily limit, the
/// counter after that reply is at most the limit.
pub proof fn law_daily_limit_kept(count: u32, limit: u32, last: Option<u64>, now: u64, cooldown_secs: u64)
    requires
        limit > 0,
        reply_gate(count, limit, last, now, cooldown_secs) is Ok,
    ensures
        count + 1 <= limit,
{
}

/// A sender never answered before is refused only when the daily limit is
/// reached.
pub proof fn law_new_sender_only_limited(count: u32, limit: u32, now: u64, cooldown_secs: u64)
    ensures
        reply_gate(count, limit, None, now, cooldown_secs) is Err <==> (limit > 0 && count >= limit),
{
}

/// The list of recent replies never holds more than `RECENT_LIMIT` entries,
/// and the newest entry is last.
pub proof fn law_recent_bounded(
    s: Seq<(Seq<char>, Seq<char>, Seq<char>, u64, bool)>,
    e: (Seq<char>, Seq<char>, Seq<char>, u64, bool),
)
    requires
        s.len() <= RECENT_LIMIT,
    ensures
        ({
            let n = (if s.len() >= RECENT_LIMIT { s.drop_first() } else { s }).push(e);
            &&& n.len() <= RECENT_LIMIT
            &&& n.last() == e
            &&& n.len() == (if s.len() >= RECENT_LIMIT { s.len() } else { s.len() + 1 })
        }),
{
}

/// Closing instructions of a prompt that carries the raw OCR text.
pub open spec fn raw_prompt_tail() -> Seq<char> {
    "'\n\nLütfen HAM metni analiz ederek gönderenin ne demek istediğini anla ve buna göre cevap ver. Eğer parse edilmiş mesaj anlamsızsa veya boşsa, HAM metinden anlam çıkarmaya çalış. Türkçe karakterler bozuk olabilir (örn: 'i' yerine 'ı', 'g' yerine 'ğ'). Kısa, samimi ve doğal bir cevap ver (max 2 cümle)."@
}

/// The prompt sent for a message: the instructions, the sender and the
/// message, and, when given, the raw OCR text for the service to interpret.
pub open spec fn pm_prompt(system: Seq<char>, sender: Seq<char>, message: Seq<char>, raw: Option<Seq<char>>) -> Seq<char> {
    match raw {
        Some(r) => system + "\n\nGelen özel mesaj (Gönderen: "@ + sender
            + ")\n\nOCR'dan okunan HAM metin (birleşik/bozuk olabilir): '"@ + r
            + "'\n\nParse edilmiş mesaj: '"@ + message + raw_prompt_tail(),
        None => system + "\n\nGelen özel mesaj (Gönderen: "@ + sender + "): "@ + message,
    }
}

/// The sender and text of a message line: as parsed, or `Oyuncu` and the
/// whole line when it does not parse.
pub open spec fn screen_message_parts(ocr: Seq<char>) -> (Seq<char>, Seq<char>) {
    match extract_pm_spec(ocr) {
        Some(p) => p,
        None => ("Oyuncu"@, ocr),
    }
}

/// View of an optional string slice.
pub open spec fn opt_str_view(o: Option<&str>) -> Option<Seq<char>> {
    match o {
        Some(s) => Some(s@),
        None => None,
    }
}

/// Builds the prompt for a message (see `pm_prompt`).
pub fn build_pm_prompt(system_prompt: &str, sender: &str, message: &str, raw_ocr_text: Option<&str>) -> (r: String)
    ensures
        r@ == pm_prompt(system_prompt@, sender@, message@, opt_str_view(raw_ocr_text)),
{
    let mut p = system_prompt.to_string();
    match raw_ocr_text {
        Some(raw) => {
            p.append("\n\nGelen özel mesaj (Gönderen: ");
            p.append(sender);
            p.append(")\n\nOCR'dan okunan HAM metin (birleşik/bozuk olabilir): '");
            p.append(raw);
            p.append("'\n\nParse edilmiş mesaj: '");
            p.append(message);
            p.append("'\n\nLütfen HAM metni analiz ederek gönderenin ne demek istediğini anla ve buna göre cevap ver. Eğer parse edilmiş mesaj anlamsızsa veya boşsa, HAM metinden anlam çıkarmaya çalış. Türkçe karakterler bozuk olabilir (örn: 'i' yerine 'ı', 'g' yerine 'ğ'). Kısa, samimi ve doğal bir cevap ver (max 2 cümle).");
        },
        None => {
            p.append("\n\nGelen özel mesaj (Gönderen: ");
            p.append(sender);
            p.append("): ");
            p.append(message);
        },
    }
    p
}

/// Whether a backend needs an API key and has none: OpenAI and Gemini with
/// an empty key (Ollama needs none).
pub open spec fn key_missing(b: AiBackend) -> bool {
    match b {
        AiBackend::OpenAI { api_key } => api_key@.len() == 0,
        AiBackend::Gemini { api_key } => api_key@.len() == 0,
        AiBackend::Ollama { .. } => false,
    }
}

fn backend_key_missing(b: &AiBackend) -> (r: bool)
    ensures
        r == key_missing(*b),
{
    match b {
        AiBackend::OpenAI { api_key } => api_key.unicode_len() == 0,
        AiBackend::Gemini { api_key } => api_key.unicode_len() == 0,
        AiBackend::Ollama { .. } => false,
    }
}

/// The reply of an answered screen message.
pub open spec fn reply_of(r: Option<(String, String)>) -> Option<String> {
    match r {
        Some((_, x)) => Some(x),
        None => None,
    }
}

/// A refusal reason by its text.
pub open spec fn gate_view(r: Result<(), &'static str>) -> Result<(), Seq<char>> {
    match r {
        Ok(()) => Ok(()),
        Err(m) => Err(m@),
    }
}

/// The reply engine of one client. Times are nanoseconds since `origin`;
/// `sender_history` holds each answered sender once with its last reply time.
pub struct PmAiEngine {
    pub backend: AiBackend,
    pub system_prompt: String,
    pub cooldown_secs: u64,
    pub daily_limit: u32,
    pub sender_history: Vec<(String, u64)>,
    pub daily_count: u32,
    pub daily_reset: u64,
    pub recent_pms: Vec<PmRecord>,
    pub origin: Instant,
}

impl PmAiEngine {
    /// Well-formedness: every sender is remembered once.
    pub open spec fn wf(self) -> bool {
        hist_unique(self.sender_history@)
    }

    /// Last reply time (nanoseconds on the engine's clock) of each sender.
    pub open spec fn history(self) -> Map<Seq<char>, u64> {
        hist_map(self.sender_history@)
    }

    /// When the daily counter was last reset.
    pub open spec fn last_reset(self) -> u64 {
        self.daily_reset
    }

    /// The engine's clock origin.
    pub open spec fn origin(self) -> Instant {
        self.origin
    }

    /// The daily counter at time `now`: 0 when a day has passed since the
    /// last reset.
    pub open spec fn count_at(self, now: u64) -> u32 {
        if day_rolled(self.last_reset(), now) { 0 } else { self.daily_count }
    }

    /// Why `sender` may not be answered at time `now`, if so (see
    /// `reply_gate`), once the daily counter was reset when due.
    pub open spec fn gate_at(self, sender: Seq<char>, now: u64) -> Result<(), Seq<char>> {
        reply_gate(self.count_at(now), self.daily_limit, lookup(self.history(), sender), now, self.cooldown_secs)
    }

    /// What a check of `sender` at time `now` does: the engine `e` becomes
    /// `f`, its daily counter reset when due, and the answer is `r`.
    pub open spec fn checked_at(e: PmAiEngine, f: PmAiEngine, sender: Seq<char>, now: u64, r: Result<(), Seq<char>>) -> bool {
        &&& f.daily_count == e.count_at(now)
        &&& f.last_reset() == (if day_rolled(e.last_reset(), now) { now } else { e.last_reset() })
        &&& r == e.gate_at(sender, now)
    }

    /// A new engine: nobody answered yet, counter zero, reset at time 0.
    pub fn new(backend: AiBackend, system_prompt: String, cooldown_secs: u64, daily_limit: u32) -> (r: Self)
        ensures
            r.wf(),
            r.backend == backend,
            r.system_prompt == system_prompt,
            r.cooldown_secs == cooldown_secs,
            r.daily_limit == daily_limit,
            r.daily_count == 0,
            r.last_reset() == 0,
            r.history() == Map::<Seq<char>, u64>::empty(),
            r.recent_pms@ == Seq::<PmRecord>::empty(),
    {
        PmAiEngine {
            backend,
            system_prompt,
            cooldown_secs,
            daily_limit,
            sender_history: Vec::new(),
            daily_count: 0,
            daily_reset: 0,
            recent_pms: Vec::new(),
            origin: clock_now(),
        }
    }

    /// Resets the daily counter when a day has passed since the last reset.
    pub fn maybe_reset_daily_at(&mut self, now: u64)
        ensures
            final(self).daily_count == (if day_rolled(old(self).last_reset(), now) { 0 } else { old(self).daily_count }),
            final(self).last_reset() == (if day_rolled(old(self).last_reset(), now) { now } else { old(self).last_reset() }),
            final(self).history() == old(self).history(),
            final(self).wf() == old(self).wf(),
            final(self).origin() == old(self).origin(),
            final(self).backend == old(self).backend,
            final(self).system_prompt == old(self).system_prompt,
            final(self).cooldown_secs == old(self).cooldown_secs,
            final(self).daily_limit == old(self).daily_limit,
            final(self).recent_pms == old(self).recent_pms,
    {
        let elapsed = if now >= self.daily_reset { now - self.daily_reset } else { 0 };
        if elapsed >= DAY_NANOS {
            self.daily_count = 0;
            self.daily_reset = now;
        }
    }

    /// Resets the daily counter when a day has passed since the last reset,
    /// reading the engine's clock.
    pub fn maybe_reset_daily(&mut self)
        ensures
            final(self).daily_count == 0 || final(self).daily_count == old(self).daily_count,
            final(self).history() == old(self).history(),
            final(self).wf() == old(self).wf(),
            final(self).origin() == old(self).origin(),
            final(self).backend == old(self).backend,
            final(self).system_prompt == old(self).system_prompt,
            final(self).cooldown_secs == old(self).cooldown_secs,
            final(self).daily_limit == old(self).daily_limit,
            final(self).recent_pms == old(self).recent_pms,
            exists|now: u64| {
                &&& final(self).daily_count == (if day_rolled(old(self).last_reset(), now) { 0 } else { old(self).daily_count })
                &&& final(self).last_reset() == (if day_rolled(old(self).last_reset(), now) { now } else { old(self).last_reset() })
            },
    {
        let now = nanos_since(&self.origin);
        self.maybe_reset_daily_at(now);
    }

    /// Last reply time of a sender.
    fn last_reply_of(&self, sender: &str) -> (r: Option<u64>)
        requires
            self.wf(),
        ensures
            r == lookup(self.history(), sender@),
    {
        let mut i: usize = 0;
        while i < self.sender_history.len()
            invariant
                i <= self.sender_history@.len(),
                hist_unique(self.sender_history@),
                forall|j: int| 0 <= j < i ==> self.sender_history@[j].0@ != sender@,
            decreases self.sender_history@.len() - i,
        {
            if str_eq(self.sender_history[i].0.as_str(), sender) {
                proof {
                    lemma_hist_contains(self.sender_history@, sender@);
                }
                return Some(self.sender_history[i].1);
            }
            i = i + 1;
        }
        proof {
            lemma_hist_contains(self.sender_history@, sender@);
        }
        None
    }

    /// Whether `sender` may be answered at time `now`: resets the daily
    /// counter when due, then refuses when the daily limit is reached or the
    /// sender is within the cooldown.
    pub fn can_reply_at(&mut self, sender: &str, now: u64) -> (r: Result<(), &'static str>)
        requires
            old(self).wf(),
        ensures
            final(self).wf(),
            final(self).daily_count == (if day_rolled(old(self).last_reset(), now) { 0 } else { old(self).daily_count }),
            final(self).last_reset() == (if day_rolled(old(self).last_reset(), now) { now } else { old(self).last_reset() }),
            final(self).history() == old(self).history(),
            final(self).origin() == old(self).origin(),
            final(self).backend == old(self).backend,
            final(self).system_prompt == old(self).system_prompt,
            final(self).cooldown_secs == old(self).cooldown_secs,
            final(self).daily_limit == old(self).daily_limit,
            final(self).recent_pms == old(self).recent_pms,
            match r {
                Ok(()) => reply_gate(final(self).daily_count, final(self).daily_limit,
                    lookup(old(self).history(), sender@), now, old(self).cooldown_secs) == Ok::<(), Seq<char>>(()),
                Err(m) => reply_gate(final(self).daily_count, final(self).daily_limit,
                    lookup(old(self).history(), sender@), now, old(self).cooldown_secs) == Err::<(), Seq<char>>(m@),
            },
            PmAiEngine::checked_at(*old(self), *final(self), sender@, now, gate_view(r)),
    {
        self.maybe_reset_daily_at(now);
        if self.daily_limit > 0 && self.daily_count >= self.daily_limit {
            return Err("Günlük PM limiti doldu");
        }
        if let Some(last) = self.last_reply_of(sender) {
            let elapsed = if now >= last { now - last } else { 0 };
            if elapsed / 1_000_000_000 < self.cooldown_secs {
                assert(elapsed < self.cooldown_secs * 1_000_000_000) by (nonlinear_arith)
                    requires elapsed / 1_000_000_000 < self.cooldown_secs;
                return Err("Cooldown: Aynı kişiye çok sık yanıt");
            }
            assert(elapsed >= self.cooldown_secs * 1_000_000_000) by (nonlinear_arith)
                requires elapsed / 1_000_000_000 >= self.cooldown_secs;
        }
        Ok(())
    }

    /// Whether `sender` may be answered now: what `can_reply_at` does at the
    /// time the engine's clock reads.
    pub fn can_reply(&mut self, sender: &str) -> (r: Result<(), &'static str>)
        requires
            old(self).wf(),
        ensures
            final(self).wf(),
            final(self).history() == old(self).history(),
            final(self).origin() == old(self).origin(),
            final(self).daily_limit == old(self).daily_limit,
            final(self).backend == old(self).backend,
            final(self).system_prompt == old(self).system_prompt,
            final(self).cooldown_secs == old(self).cooldown_secs,
            final(self).recent_pms == old(self).recent_pms,
            final(self).daily_count == 0 || final(self).daily_count == old(self).daily_count,
            old(self).daily_limit > 0 && final(self).daily_count >= old(self).daily_limit ==> r is Err,
            exists|now: u64| #[trigger] PmAiEngine::checked_at(*old(self), *final(self), sender@, now, gate_view(r)),
    {
        let now = nanos_since(&self.origin);
        self.can_reply_at(sender, now)
    }

    /// Remembers a reply given to `sender` at time `now`: the sender's last
    /// reply time, the daily counter, and the record among the last 50.
    pub fn record_reply_at(&mut self, sender: &str, message: &str, reply: &Option<String>, now: u64)
        requires
            old(self).wf(),
        ensures
            final(self).wf(),
            final(self).origin() == old(self).origin(),
            final(self).backend == old(self).backend,
            final(self).system_prompt == old(self).system_prompt,
            final(self).cooldown_secs == old(self).cooldown_secs,
            final(self).daily_limit == old(self).daily_limit,
            final(self).last_reset() == old(self).last_reset(),
            match reply {
                Some(x) => {
                    &&& final(self).history() == old(self).history().insert(sender@, now)
                    &&& final(self).daily_count == next_count(old(self).daily_count)
                    &&& records_view(final(self).recent_pms@) == (if old(self).recent_pms@.len() >= RECENT_LIMIT {
                        records_view(old(self).recent_pms@).drop_first()
                    } else {
                        records_view(old(self).recent_pms@)
                    }).push((sender@, message@, x@, now, true))
                },
                None => {
                    &&& final(self).history() == old(self).history()
                    &&& final(self).daily_count == old(self).daily_count
                    &&& final(self).recent_pms == old(self).recent_pms
                },
            },
    {
        if let Some(r) = reply {
            let n = self.sender_history.len();
            let mut i: usize = 0;
            while i < n && !str_eq(self.sender_history[i].0.as_str(), sender)
                invariant
                    i <= n,
                    n == self.sender_history@.len(),
                    self.sender_history@ == old(self).sender_history@,
                    hist_unique(self.sender_history@),
                    forall|j: int| 0 <= j < i ==> self.sender_history@[j].0@ != sender@,
                decreases n - i,
            {
                i = i + 1;
            }
            let entry = (sender.to_string(), now);
            if i < n {
                proof {
                    lemma_hist_update(self.sender_history@, i as int, entry);
                }
                self.sender_history.set(i, entry);
            } else {
                let ghost before = self.sender_history@;
                self.sender_history.push(entry);
                assert(self.sender_history@.drop_last() =~= before);
            }
            self.daily_count = next_count_exec(self.daily_count);
            let ghost old_recent = self.recent_pms@;
            if self.recent_pms.len() >= RECENT_LIMIT {
                self.recent_pms.remove(0);
                assert(records_view(self.recent_pms@) =~= records_view(old_recent).drop_first());
            }
            let ghost mid = self.recent_pms@;
            self.recent_pms.push(PmRecord {
                sender: sender.to_string(),
                message: message.to_string(),
                reply: r.clone(),
                timestamp: now,
                success: true,
            });
            assert(records_view(self.recent_pms@) =~= records_view(mid).push((sender@, message@, r@, now, true)));
        }
    }


    /// The request for a message to this engine's backend.
    pub fn request_for(&self, sender: &str, message: &str, raw_ocr_text: Option<&str>) -> (r: AiRequest)
        ensures
            r.backend == self.backend,
            r.system_prompt@ == self.system_prompt@,
            r.prompt@ == pm_prompt(self.system_prompt@, sender@, message@, opt_str_view(raw_ocr_text)),
    {
        AiRequest {
            backend: self.backend.clone(),
            system_prompt: self.system_prompt.clone(),
            prompt: build_pm_prompt(self.system_prompt.as_str(), sender, message, raw_ocr_text),
        }
    }

    /// What answering `message` of `sender`, checked at time `now` and
    /// answered at `reply_time`, does: the engine `e` becomes `f` and gives
    /// `r`. The daily counter is reset when due at `now`. A sender refused by
    /// `gate_at(sender, now)`, or a backend without its key (see
    /// `key_missing`), gets no answer: the service is not asked and nothing
    /// is remembered. Otherwise the service is asked with the prompt for the
    /// message and its answer is given; an answer is remembered at
    /// `reply_time`: the sender's last reply time, one more on the daily
    /// counter, and the record after the last 50.
    pub open spec fn replied_at<F: FnOnce(AiRequest) -> Option<String>>(
        e: PmAiEngine,
        f: PmAiEngine,
        sender: Seq<char>,
        message: Seq<char>,
        raw: Option<Seq<char>>,
        ask: F,
        now: u64,
        reply_time: u64,
        r: Option<String>,
    ) -> bool {
        &&& f.origin() == e.origin()
        &&& f.backend == e.backend
        &&& f.system_prompt == e.system_prompt
        &&& f.cooldown_secs == e.cooldown_secs
        &&& f.daily_limit == e.daily_limit
        &&& f.last_reset() == (if day_rolled(e.last_reset(), now) { now } else { e.last_reset() })
        &&& if e.gate_at(sender, now) is Err || key_missing(e.backend) {
            &&& r is None
            &&& f.history() == e.history()
            &&& f.recent_pms == e.recent_pms
            &&& f.daily_count == e.count_at(now)
        } else {
            &&& exists|q: AiRequest| {
                &&& q.backend == e.backend
                &&& q.system_prompt@ == e.system_prompt@
                &&& q.prompt@ == pm_prompt(e.system_prompt@, sender, message, raw)
                &&& #[trigger] call_ensures(ask, (q,), r)
            }
            &&& match r {
                Some(x) => {
                    &&& f.history() == e.history().insert(sender, reply_time)
                    &&& f.daily_count == next_count(e.count_at(now))
                    &&& records_view(f.recent_pms@) == (if e.recent_pms@.len() >= RECENT_LIMIT {
                        records_view(e.recent_pms@).drop_first()
                    } else {
                        records_view(e.recent_pms@)
                    }).push((sender, message, x@, reply_time, true))
                },
                None => {
                    &&& f.history() == e.history()
                    &&& f.recent_pms == e.recent_pms
                    &&& f.daily_count == e.count_at(now)
                },
            }
        }
    }

    /// Checks `sender` at time `now` (see `gate_at` and `key_missing`) and
    /// asks the service when that check lets it; nothing is remembered yet.
    fn ask_gated<F: FnOnce(AiRequest) -> Option<String>>(
        &mut self,
        sender: &str,
        message: &str,
        raw_ocr_text: Option<&str>,
        ask: F,
        now: u64,
    ) -> (r: Option<String>)
        requires
            old(self).wf(),
            forall|q: AiRequest| call_requires(ask, (q,)),
        ensures
            final(self).wf(),
            final(self).origin() == old(self).origin(),
            final(self).backend == old(self).backend,
            final(self).system_prompt == old(self).system_prompt,
            final(self).cooldown_secs == old(self).cooldown_secs,
            final(self).daily_limit == old(self).daily_limit,
            final(self).last_reset() == (if day_rolled(old(self).last_reset(), now) { now } else { old(self).last_reset() }),
            final(self).history() == old(self).history(),
            final(self).recent_pms == old(self).recent_pms,
            final(self).daily_count == old(self).count_at(now),
            old(self).gate_at(sender@, now) is Err || key_missing(old(self).backend) ==> r is None,
            !(old(self).gate_at(sender@, now) is Err || key_missing(old(self).backend)) ==> exists|q: AiRequest| {
                &&& q.backend == old(self).backend
                &&& q.system_prompt@ == old(self).system_prompt@
                &&& q.prompt@ == pm_prompt(old(self).system_prompt@, sender@, message@, opt_str_view(raw_ocr_text))
                &&& #[trigger] call_ensures(ask, (q,), r)
            },
    {
        let checked = self.can_reply_at(sender, now);
        if checked.is_err() {
            return None;
        }
        if backend_key_missing(&self.backend) {
            return None;
        }
        let q = self.request_for(sender, message, raw_ocr_text);
        let ghost gq = q;
        let reply = ask(q);
        assert(call_ensures(ask, (gq,), reply));
        reply
    }

    /// Answers a message checked at time `now` whose answer arrives at
    /// `reply_time` (see `replied_at`): refuses (`None`) when `can_reply_at`
    /// refuses or the backend has no API key; else asks the reply service
    /// with the prompt for the message (`ask` performs the call) and gives
    /// its answer, remembering it at `reply_time` (`record_reply_at`) when
    /// one came back.
    pub fn get_reply_at<F: FnOnce(AiRequest) -> Option<String>>(
        &mut self,
        sender: &str,
        message: &str,
        raw_ocr_text: Option<&str>,
        ask: F,
        now: u64,
        reply_time: u64,
    ) -> (r: Option<String>)
        requires
            old(self).wf(),
            now <= reply_time,
            forall|q: AiRequest| call_requires(ask, (q,)),
        ensures
            final(self).wf(),
            PmAiEngine::replied_at(*old(self), *final(self), sender@, message@, opt_str_view(raw_ocr_text), ask,
                now, reply_time, r),
            old(self).recent_pms@.len() <= RECENT_LIMIT ==> final(self).recent_pms@.len() <= RECENT_LIMIT,
    {
        let ghost e0 = *self;
        let reply = self.ask_gated(sender, message, raw_ocr_text, ask, now);
        self.record_reply_at(sender, message, &reply, reply_time);
        proof {
            if e0.recent_pms@.len() <= RECENT_LIMIT {
                assert(records_view(self.recent_pms@).len() == self.recent_pms@.len());
                assert(records_view(e0.recent_pms@).len() == e0.recent_pms@.len());
            }
        }
        reply
    }

    /// Answers a message now: the engine's clock is read for the check, and
    /// again when the answer has arrived, which is the time remembered (see
    /// `replied_at`).
    pub fn get_reply<F: FnOnce(AiRequest) -> Option<String>>(
        &mut self,
        sender: &str,
        message: &str,
        raw_ocr_text: Option<&str>,
        ask: F,
    ) -> (r: Option<String>)
        requires
            old(self).wf(),
            forall|q: AiRequest| call_requires(ask, (q,)),
        ensures
            final(self).wf(),
            exists|now: u64, reply_time: u64| now <= reply_time && #[trigger] PmAiEngine::replied_at(*old(self),
                *final(self), sender@, message@, opt_str_view(raw_ocr_text), ask, now, reply_time, r),
            old(self).recent_pms@.len() <= RECENT_LIMIT ==> final(self).recent_pms@.len() <= RECENT_LIMIT,
    {
        let ghost e0 = *self;
        let now = nanos_since(&self.origin);
        let reply = self.ask_gated(sender, message, raw_ocr_text, ask, now);
        let arrived = nanos_since(&self.origin);
        let reply_time = if arrived >= now { arrived } else { now };
        self.record_reply_at(sender, message, &reply, reply_time);
        proof {
            if e0.recent_pms@.len() <= RECENT_LIMIT {
                assert(records_view(self.recent_pms@).len() == self.recent_pms@.len());
                assert(records_view(e0.recent_pms@).len() == e0.recent_pms@.len());
            }
            assert(PmAiEngine::replied_at(e0, *self, sender@, message@, opt_str_view(raw_ocr_text), ask, now,
                reply_time, reply));
        }
        reply
    }

    /// Answers a message read from the screen: the sender and text parsed
    /// from the line, or, when it does not parse, the sender `Oyuncu` with the
    /// whole line, are answered as `get_reply` does, always with the raw line
    /// for the service to interpret. Gives the sender and the reply.
    #[verifier::rlimit(30)]
    pub fn answer_screen_message<F: FnOnce(AiRequest) -> Option<String>>(
        &mut self,
        ocr_text: &str,
        ask: F,
    ) -> (r: Option<(String, String)>)
        requires
            old(self).wf(),
            forall|q: AiRequest| call_requires(ask, (q,)),
        ensures
            final(self).wf(),
            ({
                let (sender, message) = screen_message_parts(ocr_text@);
                &&& r matches Some((who, _)) ==> who@ == sender
                &&& exists|now: u64, reply_time: u64| now <= reply_time && #[trigger] PmAiEngine::replied_at(
                    *old(self), *final(self), sender, message, Some(ocr_text@), ask, now, reply_time, reply_of(r))
            }),
            old(self).recent_pms@.len() <= RECENT_LIMIT ==> final(self).recent_pms@.len() <= RECENT_LIMIT,
    {
        let (sender, message) = match extract_pm_from_ocr(ocr_text) {
            Some(p) => p,
            None => ("Oyuncu".to_string(), ocr_text.to_string()),
        };
        let ghost parts = screen_message_parts(ocr_text@);
        assert(sender@ == parts.0 && message@ == parts.1);
        assert(opt_str_view(Some(ocr_text)) == Some(ocr_text@));
        let reply = self.get_reply(sender.as_str(), message.as_str(), Some(ocr_text), ask);
        let r = match reply {
            Some(x) => Some((sender, x)),
            None => None,
        };
        assert(reply_of(r) == reply);
        r
    }

    /// Number of distinct senders answered so far.
    pub fn unique_senders(&self) -> (r: usize)
        requires
            self.wf(),
        ensures
            self.history().dom().finite(),
            r == self.history().dom().len(),
    {
        proof {
            lemma_hist_len(self.sender_history@);
        }
        self.sender_history.len()
    }
}


/// Virtual-key code typed for a character of a reply: letters (either case)
/// and digits by their key, a few punctuation keys, Turkish letters as their
/// plain Latin key, and 0 for anything else.
pub open spec fn char_vk(c: char) -> u16 {
    if 'a' <= c <= 'z' {
        (c as int - 'a' as int + 0x41) as u16
    } else if 'A' <= c <= 'Z' {
        (c as int - 'A' as int + 0x41) as u16
    } else if '0' <= c <= '9' {
        (c as int - '0' as int + 0x30) as u16
    } else if c == ' ' {
        0x20
    } else if c == '.' {
        0xBE
    } else if c == ',' {
        0xBC
    } else if c == ';' {
        0xBA
    } else if c == '/' {
        0xBF
    } else if c == '`' {
        0xC0
    } else if c == '[' {
        0xDB
    } else if c == '\\' {
        0xDC
    } else if c == ']' {
        0xDD
    } else if c == '\'' {
        0xDE
    } else if c == '-' {
        0xBD
    } else if c == '=' {
        0xBB
    } else if c == 'ç' || c == 'Ç' {
        0x43
    } else if c == 'ğ' || c == 'Ğ' {
        0x47
    } else if c == 'ı' || c == 'İ' {
        0x49
    } else if c == 'ö' || c == 'Ö' {
        0x4F
    } else if c == 'ş' || c == 'Ş' {
        0x53
    } else if c == 'ü' || c == 'Ü' {
        0x55
    } else {
        0
    }
}

/// A letter or digit of a reply is typed with the key its name designates:
/// the key that `vk_from_name` gives for the one-character name.
pub proof fn law_typed_key_is_named_key(c: char)
    requires
        ('a' <= c <= 'z') || ('A' <= c <= 'Z') || ('0' <= c <= '9'),
    ensures
        key_vk(key_form(seq![c])) == Some(char_vk(c)),
{
    let s = seq![c];
    lemma_trim_unchanged(s);
    let u = seq![ascii_upper_char(c)];
    assert(upper_of(s) =~= u);
    assert(key_form(s) == u);
    reveal_strlit("CTRL");
    reveal_strlit("CONTROL");
    reveal_strlit("SHIFT");
    reveal_strlit("ALT");
    reveal_strlit("MENU");
    assert(modifier_vk(u) is None);
    assert(fkey_vk(u) is None);
    assert(char_key_vk(u) == Some(char_vk(c)));
}

/// The plain Latin letter of a Turkish letter (ç, ğ, ı, ö, ş, ü and their
/// capitals, the dotted capital İ giving I); any other character is itself.
pub open spec fn latin_base(c: char) -> char {
    if c == 'ç' {
        'c'
    } else if c == 'Ç' {
        'C'
    } else if c == 'ğ' {
        'g'
    } else if c == 'Ğ' {
        'G'
    } else if c == 'ı' {
        'i'
    } else if c == 'İ' {
        'I'
    } else if c == 'ö' {
        'o'
    } else if c == 'Ö' {
        'O'
    } else if c == 'ş' {
        's'
    } else if c == 'Ş' {
        'S'
    } else if c == 'ü' {
        'u'
    } else if c == 'Ü' {
        'U'
    } else {
        c
    }
}

/// Whether `c` is one of the Turkish letters ç, ğ, ı, ö, ş, ü or their
/// capitals.
pub open spec fn is_turkish_letter(c: char) -> bool {
    latin_base(c) != c
}

/// Whether `c` is a letter (ASCII or Turkish), a digit or a space.
pub open spec fn is_word_char(c: char) -> bool {
    ('a' <= c <= 'z') || ('A' <= c <= 'Z') || ('0' <= c <= '9') || c == ' ' || is_turkish_letter(c)
}

/// Letters are typed without regard to case and Turkish letters as their
/// plain Latin letter: a lower-case letter gets the key of its capital, a
/// Turkish letter the key of its Latin letter, and every letter, digit and
/// space gets a key (none is left out of a reply).
pub proof fn law_letters_typed_by_latin_key(c: char)
    ensures
        'a' <= c <= 'z' ==> char_vk(c) == char_vk(ascii_upper_char(c)),
        is_turkish_letter(c) ==> 'A' <= ascii_upper_char(latin_base(c)) <= 'Z',
        is_turkish_letter(c) ==> char_vk(c) == char_vk(latin_base(c)),
        ('A' <= c <= 'Z') ==> char_vk(c) == c as u16,
        is_word_char(c) ==> char_vk(c) > 0,
{
}

/// Characters share a key only when they are the same letter up to case
/// and Turkish marks: any two characters that get the same (nonzero) key
/// have the same ASCII capital of their plain Latin letter.
pub proof fn law_typed_keys_distinct(a: char, b: char)
    requires
        char_vk(a) > 0,
        char_vk(a) == char_vk(b),
    ensures
        ascii_upper_char(latin_base(a)) == ascii_upper_char(latin_base(b)),
{
}

/// A reply made of letters, digits and spaces is typed key for key: one
/// key per character, in order, each the character's key.
pub proof fn law_word_reply_typed_whole(s: Seq<char>)
    requires
        forall|i: int| 0 <= i < s.len() ==> is_word_char(#[trigger] s[i]),
    ensures
        typed_keys(s) == s.map_values(|c: char| char_vk(c)),
    decreases s.len(),
{
    if s.len() > 0 {
        let t = s.drop_last();
        assert forall|i: int| 0 <= i < t.len() implies is_word_char(#[trigger] t[i]) by {
            assert(t[i] == s[i]);
        }
        law_word_reply_typed_whole(t);
        law_letters_typed_by_latin_key(s.last());
        assert(s.map_values(|c: char| char_vk(c)) =~= t.map_values(|c: char| char_vk(c)).push(char_vk(s.last())));
    } else {
        assert(s.map_values(|c: char| char_vk(c)) =~= Seq::<u16>::empty());
    }
}

/// The number of distinct senders answered rises by one exactly when an
/// answer goes to a sender never answered before; a refusal or a missing
/// answer leaves it as it was.
pub proof fn law_distinct_senders_count<F: FnOnce(AiRequest) -> Option<String>>(
    e: PmAiEngine,
    f: PmAiEngine,
    sender: Seq<char>,
    message: Seq<char>,
    raw: Option<Seq<char>>,
    ask: F,
    now: u64,
    reply_time: u64,
    r: Option<String>,
)
    requires
        e.wf(),
        PmAiEngine::replied_at(e, f, sender, message, raw, ask, now, reply_time, r),
    ensures
        e.history().dom().finite(),
        f.history().dom().finite(),
        f.history().dom().len() == e.history().dom().len() + (if r is Some && !e.history().contains_key(sender) { 1int } else { 0int }),
{
    lemma_hist_len(e.sender_history@);
    if r is Some && !(e.gate_at(sender, now) is Err || key_missing(e.backend)) {
        assert(f.history().dom() =~= e.history().dom().insert(sender));
    }
}

/// Virtual-key code typed for a character of a reply (see `char_vk`).
pub fn char_to_vk(c: char) -> (r: u16)
    ensures
        r == char_vk(c),
{
    if 'a' <= c && c <= 'z' {
        (c as u32 - 'a' as u32 + 0x41) as u16
    } else if 'A' <= c && c <= 'Z' {
        (c as u32 - 'A' as u32 + 0x41) as u16
    } else if '0' <= c && c <= '9' {
        (c as u32 - '0' as u32 + 0x30) as u16
    } else if c == ' ' {
        0x20
    } else if c == '.' {
        0xBE
    } else if c == ',' {
        0xBC
    } else if c == ';' {
        0xBA
    } else if c == '/' {
        0xBF
    } else if c == '`' {
        0xC0
    } else if c == '[' {
        0xDB
    } else if c == '\\' {
        0xDC
    } else if c == ']' {
        0xDD
    } else if c == '\'' {
        0xDE
    } else if c == '-' {
        0xBD
    } else if c == '=' {
        0xBB
    } else if c == 'ç' || c == 'Ç' {
        0x43
    } else if c == 'ğ' || c == 'Ğ' {
        0x47
    } else if c == 'ı' || c == 'İ' {
        0x49
    } else if c == 'ö' || c == 'Ö' {
        0x4F
    } else if c == 'ş' || c == 'Ş' {
        0x53
    } else if c == 'ü' || c == 'Ü' {
        0x55
    } else {
        0
    }
}

/// Keys pressed to type a reply: the key of each character that has one,
/// in order.
pub open spec fn typed_keys(s: Seq<char>) -> Seq<u16>
    decreases s.len(),
{
    if s.len() == 0 {
        Seq::<u16>::empty()
    } else {
        let prev = typed_keys(s.drop_last());
        if char_vk(s.last()) > 0 {
            prev.push(char_vk(s.last()))
        } else {
            prev
        }
    }
}

/// The keys that send a reply: the typed keys, then Enter (0x0D).
pub fn pm_reply_keys(reply_text: &str) -> (r: Vec<u16>)
    ensures
        r@ == typed_keys(reply_text@).push(0x0Du16),
{
    let v = crate::text::chars_of(reply_text);
    let mut keys: Vec<u16> = Vec::new();
    let mut i: usize = 0;
    assert(v@.take(0) =~= Seq::<char>::empty());
    while i < v.len()
        invariant
            i <= v@.len(),
            v@ == reply_text@,
            keys@ == typed_keys(v@.take(i as int)),
        decreases v@.len() - i,
    {
        assert(v@.take(i + 1).drop_last() =~= v@.take(i as int));
        let vk = char_to_vk(v[i]);
        if vk > 0 {
            keys.push(vk);
        }
        i = i + 1;
    }
    assert(v@.take(v@.len() as int) =~= v@);
    keys.push(0x0D);
    keys
}

/// Where a reply box is clicked: the middle of the message region, or
/// nothing when the window is missing, the reply empty or the region empty.
pub open spec fn reply_click_point(window_ok: bool, reply: Seq<char>, region: (i32, i32, i32, i32)) -> Option<(int, int)> {
    if !window_ok || reply.len() == 0 {
        None
    } else if region.2 <= region.0 || region.3 <= region.1 {
        None
    } else {
        Some((region.0 + (region.2 - region.0) / 2, region.1 + (region.3 - region.1) / 2))
    }
}

/// Where to click before typing a reply (see `reply_click_point`).
pub fn pm_reply_target(window_ok: bool, reply_text: &str, pm_region: (i32, i32, i32, i32)) -> (r: Option<(i32, i32)>)
    ensures
        match r {
            Some((x, y)) => reply_click_point(window_ok, reply_text@, pm_region) == Some((x as int, y as int)),
            None => reply_click_point(window_ok, reply_text@, pm_region) is None,
        },
{
    if !window_ok || reply_text.unicode_len() == 0 {
        return None;
    }
    let (x1, y1, x2, y2) = pm_region;
    if x2 <= x1 || y2 <= y1 {
        return None;
    }
    let cx = x1 as i64 + (x2 as i64 - x1 as i64) / 2;
    let cy = y1 as i64 + (y2 as i64 - y1 as i64) / 2;
    Some((cx as i32, cy as i32))
}

/// The Gemini models asked in turn, each with its API version, until one
/// answers.
pub fn gemini_models() -> (r: Vec<(&'static str, &'static str)>)
    ensures
        r@.len() == 4,
        r@[0].0@ == "gemini-2.5-flash"@ && r@[0].1@ == "v1beta"@,
        r@[1].0@ == "gemini-2.0-flash-lite"@ && r@[1].1@ == "v1beta"@,
        r@[2].0@ == "gemini-flash-latest"@ && r@[2].1@ == "v1beta"@,
        r@[3].0@ == "gemini-2.0-flash"@ && r@[3].1@ == "v1beta"@,
{
    vec![
        ("gemini-2.5-flash", "v1beta"),
        ("gemini-2.0-flash-lite", "v1beta"),
        ("gemini-flash-latest", "v1beta"),
        ("gemini-2.0-flash", "v1beta"),
    ]
}

/// The parts joined with `sep` between each two.
pub open spec fn join_with(parts: Seq<Seq<char>>, sep: Seq<char>) -> Seq<char>
    decreases parts.len(),
{
    if parts.len() == 0 {
        Seq::<char>::empty()
    } else if parts.len() == 1 {
        parts[0]
    } else {
        join_with(parts.drop_last(), sep) + sep + parts.last()
    }
}

/// Why no Gemini model answered: the reasons of the models tried, joined
/// with ` | `, or `Bilinmeyen hata` when there is none.
pub open spec fn gemini_failure_spec(errors: Seq<Seq<char>>) -> Seq<char> {
    if errors.len() == 0 {
        "Bilinmeyen hata"@
    } else {
        join_with(errors, " | "@)
    }
}

/// Why no Gemini model answered (see `gemini_failure_spec`).
pub fn gemini_failure(errors: &Vec<String>) -> (r: String)
    ensures
        r@ == gemini_failure_spec(strings_view(errors@)),
{
    if errors.len() == 0 {
        return "Bilinmeyen hata".to_string();
    }
    let ghost sv = strings_view(errors@);
    let mut out = String::new();
    let mut i: usize = 0;
    assert(sv.take(0) =~= Seq::<Seq<char>>::empty());
    while i < errors.len()
        invariant
            i <= errors@.len(),
            sv == strings_view(errors@),
            out@ == join_with(sv.take(i as int), " | "@),
        decreases errors@.len() - i,
    {
        let ghost before = out@;
        assert(sv.take(i + 1).drop_last() =~= sv.take(i as int));
        assert(sv.take(i + 1).last() == errors@[i as int]@);
        if i > 0 {
            out.append(" | ");
        }
        out.append(errors[i].as_str());
        if i == 0 {
            assert(out@ =~= join_with(sv.take(1), " | "@));
        } else {
            assert(out@ =~= before + " | "@ + errors@[i as int]@);
        }
        i = i + 1;
    }
    assert(sv.take(errors@.len() as int) =~= sv);
    out
}

} // verus!
