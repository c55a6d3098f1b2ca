use kbot::pm_parse::{extract_pm_from_ocr, try_fuzzy_pm_parse};
use kbot::pm_ai::{build_pm_prompt, AiBackend, AiRequest, PmAiEngine, DAY_NANOS, RECENT_LIMIT};

fn pair(a: &str, b: &str) -> Option<(String, String)> {
    Some((a.to_string(), b.to_string()))
}

#[test]
fn bracket_format_is_read_first() {
    assert_eq!(extract_pm_from_ocr("[Ahmet]: selam nasılsın"), pair("Ahmet", "selam nasılsın"));
    assert_eq!(extract_pm_from_ocr("  [Veli] naber kanka  "), pair("Veli", "naber kanka"));
}

#[test]
fn separator_format() {
    assert_eq!(extract_pm_from_ocr("Mehmet: naber"), pair("Mehmet", "naber"));
    assert_eq!(extract_pm_from_ocr("Ayse > geliyor musun"), pair("Ayse", "geliyor musun"));
    assert_eq!(extract_pm_from_ocr("PM: merhaba dostum"), pair("PM", "merhaba dostum"));
}

#[test]
fn sender_needs_two_letters_or_digits() {
    assert_eq!(extract_pm_from_ocr("!!: merhaba dostum"), pair("!!: merhaba ", "dostum"));
}

#[test]
fn short_and_all_lowercase_texts_are_rejected() {
    assert_eq!(extract_pm_from_ocr(""), None);
    assert_eq!(extract_pm_from_ocr("   "), None);
    assert_eq!(extract_pm_from_ocr("abc"), None);
    assert_eq!(extract_pm_from_ocr("selam"), None);
    assert_eq!(extract_pm_from_ocr("AliVeli"), None);
}

#[test]
fn long_single_words_go_to_the_fuzzy_reader() {
    assert_eq!(extract_pm_from_ocr("Steuijetarett"), pair("Steuijetar", "ett"));
    assert_eq!(extract_pm_from_ocr("AhmetSelamNaber"), pair("Ahmet", "SelamNaber"));
}

#[test]
fn meaningless_ocr_words_are_rejected() {
    assert_eq!(extract_pm_from_ocr("steuijetarett"), None);
    assert_eq!(extract_pm_from_ocr("  abcdefghijkl  "), None);
    assert_eq!(extract_pm_from_ocr("steuijetarett1"), pair("steuijetare", "tt1"));
}

#[test]
fn fuzzy_reader_bounds() {
    assert_eq!(try_fuzzy_pm_parse("short"), None);
    assert_eq!(try_fuzzy_pm_parse("AhmetSelamNaber"), pair("Ahmet", "SelamNaber"));
    assert_eq!(try_fuzzy_pm_parse("abcdefghijklmnopqrstuvwxyzabcdefghijklmnop"), None);
    assert_eq!(try_fuzzy_pm_parse("Steuijetarett"), pair("Steuijetar", "ett"));
}

#[test]
fn backend_from_configuration() {
    let b = AiBackend::from_config("openai", "k1");
    assert_eq!(b.display_name(), "OpenAI GPT-4o-mini");
    assert!(matches!(b, AiBackend::OpenAI { ref api_key } if api_key == "k1"));
    let o = AiBackend::from_config("ollama", "ignored");
    assert!(matches!(o, AiBackend::Ollama { ref model } if model == "llama3.2:3b"));
    assert_eq!(o.display_name(), "Yerel Ollama");
    let g = AiBackend::from_config("whatever", "k2");
    assert!(matches!(g, AiBackend::Gemini { ref api_key } if api_key == "k2"));
    assert_eq!(g.display_name(), "Google Gemini Flash");
}

#[test]
fn prompt_without_and_with_raw_text() {
    assert_eq!(build_pm_prompt("SYS", "Ali", "selam", None), "SYS\n\nGelen özel mesaj (Gönderen: Ali): selam");
    let p = build_pm_prompt("SYS", "Ali", "selam", Some("Ali:selam"));
    assert!(p.starts_with("SYS\n\nGelen özel mesaj (Gönderen: Ali)\n\nOCR'dan okunan HAM metin (birleşik/bozuk olabilir): 'Ali:selam'"));
    assert!(p.contains("Parse edilmiş mesaj: 'selam'"));
    assert!(p.ends_with("(max 2 cümle)."));
}

fn engine(cooldown: u64, limit: u32) -> PmAiEngine {
    PmAiEngine::new(AiBackend::from_config("gemini", "key"), "SYS".to_string(), cooldown, limit)
}

#[test]
fn cooldown_refuses_the_same_sender() {
    let mut e = engine(30, 200);
    assert_eq!(e.can_reply_at("Ali", 1_000_000_000), Ok(()));
    e.record_reply_at("Ali", "selam", &Some("merhaba".to_string()), 1_000_000_000);
    assert_eq!(e.can_reply_at("Ali", 20_000_000_000), Err("Cooldown: Aynı kişiye çok sık yanıt"));
    assert_eq!(e.can_reply_at("Veli", 20_000_000_000), Ok(()));
    assert_eq!(e.can_reply_at("Ali", 31_000_000_000), Ok(()));
}

#[test]
fn daily_limit_refuses_until_a_day_passes() {
    let mut e = engine(0, 2);
    e.record_reply_at("A", "m", &Some("r".to_string()), 10);
    e.record_reply_at("B", "m", &Some("r".to_string()), 20);
    assert_eq!(e.daily_count, 2);
    assert_eq!(e.can_reply_at("C", 30), Err("Günlük PM limiti doldu"));
    assert_eq!(e.can_reply_at("C", DAY_NANOS), Ok(()));
    assert_eq!(e.daily_count, 0);
}

#[test]
fn failed_reply_changes_nothing() {
    let mut e = engine(30, 200);
    e.record_reply_at("Ali", "selam", &None, 5);
    assert_eq!(e.daily_count, 0);
    assert_eq!(e.unique_senders(), 0);
    assert!(e.recent_pms.is_empty());
}

#[test]
fn recent_replies_keep_the_last_fifty() {
    let mut e = engine(0, 0);
    for i in 0..60u64 {
        let who = format!("S{}", i);
        e.record_reply_at(&who, "m", &Some("r".to_string()), i);
    }
    assert_eq!(e.recent_pms.len(), RECENT_LIMIT);
    assert_eq!(e.recent_pms[0].sender, "S10");
    assert_eq!(e.recent_pms[49].sender, "S59");
    assert_eq!(e.unique_senders(), 60);
}

#[test]
fn unique_senders_counts_each_sender_once() {
    let mut e = engine(0, 0);
    e.record_reply_at("Ali", "a", &Some("x".to_string()), 1);
    e.record_reply_at("Ali", "b", &Some("y".to_string()), 2);
    e.record_reply_at("Veli", "c", &Some("z".to_string()), 3);
    assert_eq!(e.unique_senders(), 2);
    assert_eq!(e.daily_count, 3);
}

#[test]
fn get_reply_asks_with_the_prompt_and_records_the_answer() {
    let mut e = engine(30, 200);
    let mut seen = String::new();
    let r = e.get_reply("Ali", "selam", None, |q: AiRequest| {
        seen = q.prompt.clone();
        Some("merhaba".to_string())
    });
    assert_eq!(r, Some("merhaba".to_string()));
    assert_eq!(seen, "SYS\n\nGelen özel mesaj (Gönderen: Ali): selam");
    assert_eq!(e.unique_senders(), 1);
    assert_eq!(e.recent_pms.last().unwrap().reply, "merhaba");
    let again = e.get_reply("Ali", "tekrar", None, |_q: AiRequest| Some("x".to_string()));
    assert_eq!(again, None);
}

#[test]
fn get_reply_without_answer_records_nothing() {
    let mut e = engine(30, 200);
    let r = e.get_reply("Ali", "selam", Some("raw"), |_q: AiRequest| None);
    assert_eq!(r, None);
    assert_eq!(e.unique_senders(), 0);
    assert_eq!(e.can_reply("Ali"), Ok(()));
}

#[test]
fn request_carries_backend_and_instructions() {
    let e = engine(30, 200);
    let q = e.request_for("Ali", "selam", None);
    assert_eq!(q.system_prompt, "SYS");
    assert!(matches!(q.backend, AiBackend::Gemini { ref api_key } if api_key == "key"));
}

#[test]
fn screen_message_is_parsed_or_sent_whole() {
    let mut e = engine(30, 200);
    let mut asked = String::new();
    let r = e.answer_screen_message("Mehmet: naber", |q: AiRequest| {
        asked = q.prompt.clone();
        Some("iyi".to_string())
    });
    assert_eq!(r, pair("Mehmet", "iyi"));
    assert!(asked.contains("Gönderen: Mehmet"));
    assert!(asked.contains("'Mehmet: naber'"));
    let r2 = e.answer_screen_message("abc", |_q: AiRequest| Some("?".to_string()));
    assert_eq!(r2, pair("Oyuncu", "?"));
    let r3 = e.answer_screen_message("Mehmet: tekrar", |_q: AiRequest| Some("x".to_string()));
    assert_eq!(r3, None);
}

#[test]
fn daily_reset_on_the_engine_clock() {
    let mut e = engine(0, 1);
    e.record_reply_at("A", "m", &Some("r".to_string()), 0);
    e.maybe_reset_daily();
    assert_eq!(e.daily_count, 1);
    e.maybe_reset_daily_at(DAY_NANOS - 1);
    assert_eq!(e.daily_count, 1);
    e.maybe_reset_daily_at(DAY_NANOS);
    assert_eq!(e.daily_count, 0);
}

#[test]
fn reply_is_remembered_at_its_time() {
    let sec = 1_000_000_000u64;
    let mut e = engine(30, 200);
    let r = e.get_reply_at("Ali", "selam", None, |_q: AiRequest| Some("hey".to_string()), 100 * sec, 100 * sec);
    assert_eq!(r, Some("hey".to_string()));
    assert_eq!(e.sender_history, vec![("Ali".to_string(), 100 * sec)]);
    assert_eq!(e.recent_pms.last().unwrap().timestamp, 100 * sec);
    assert_eq!(e.daily_count, 1);
    let within = e.get_reply_at("Ali", "yine", None, |_q: AiRequest| Some("x".to_string()), 129 * sec, 129 * sec);
    assert_eq!(within, None);
    assert_eq!(e.daily_count, 1);
    let after = e.get_reply_at("Ali", "yine", None, |_q: AiRequest| Some("y".to_string()), 130 * sec, 130 * sec);
    assert_eq!(after, Some("y".to_string()));
    assert_eq!(e.sender_history, vec![("Ali".to_string(), 130 * sec)]);
    assert_eq!(e.unique_senders(), 1);
}

#[test]
fn cooldown_runs_from_the_arrival_of_the_answer() {
    let sec = 1_000_000_000u64;
    let mut e = engine(30, 200);
    // Asked at 100 s, the answer arrives at 110 s.
    let r = e.get_reply_at("Ali", "selam", None, |_q: AiRequest| Some("hey".to_string()), 100 * sec, 110 * sec);
    assert_eq!(r, Some("hey".to_string()));
    assert_eq!(e.sender_history, vec![("Ali".to_string(), 110 * sec)]);
    assert_eq!(e.recent_pms.last().unwrap().timestamp, 110 * sec);
    let early = e.get_reply_at("Ali", "yine", None, |_q: AiRequest| Some("x".to_string()), 135 * sec, 135 * sec);
    assert_eq!(early, None);
    let later = e.get_reply_at("Ali", "yine", None, |_q: AiRequest| Some("y".to_string()), 140 * sec, 141 * sec);
    assert_eq!(later, Some("y".to_string()));
}

#[test]
fn daily_counter_wraps_when_unlimited() {
    let mut e = engine(0, 0);
    e.daily_count = u32::MAX;
    e.record_reply_at("A", "m", &Some("r".to_string()), 1);
    assert_eq!(e.daily_count, 0);
}

#[test]
fn empty_api_key_asks_nothing() {
    let mut e = PmAiEngine::new(AiBackend::Gemini { api_key: String::new() }, "p".to_string(), 30, 200);
    let mut asked = false;
    let r = e.get_reply("Ali", "selam", None, |_q: AiRequest| {
        asked = true;
        Some("x".to_string())
    });
    assert_eq!(r, None);
    assert!(!asked);
    assert_eq!(e.daily_count, 0);
    assert_eq!(e.unique_senders(), 0);
    assert!(e.recent_pms.is_empty());
}

#[test]
fn gemini_models_and_failure_text() {
    let m = kbot::pm_ai::gemini_models();
    assert_eq!(m[0], ("gemini-2.5-flash", "v1beta"));
    assert_eq!(m.len(), 4);
    assert_eq!(kbot::pm_ai::gemini_failure(&vec![]), "Bilinmeyen hata");
    assert_eq!(kbot::pm_ai::gemini_failure(&vec!["a: x".to_string()]), "a: x");
    assert_eq!(kbot::pm_ai::gemini_failure(&vec!["a".to_string(), "b".to_string(), "c".to_string()]), "a | b | c");
}
