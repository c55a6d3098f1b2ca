use kbot::config::{
    webhook_check, WebhookCheck,
    default_attack_cooldown, default_dil, default_gecikme_max, default_gecikme_min, default_kisayol_baslat,
    default_mola_aralik, default_mola_sure, default_mqtt_port, default_ocr_x1, default_ocr_x2, default_ocr_y1,
    default_ocr_y2, default_pm_backend, default_pm_cooldown, default_pm_daily_limit, default_pot_esik,
    default_tikla_modu, default_toplama_tusu, ClientConfig,
};
use kbot::hw::{
    arduino_click_command, arduino_move_command, background_click_route, input_mode_for_driver, mode_after_open,
    mouse_button, pack_lparam, reconnect_allowed, reconnect_port_name, resolve_port_name, ClickMode, InputMode,
    MouseButton,
};
use kbot::lang::t;
use kbot::learner::{Feedback, SampleRecord, SampleStore};
use kbot::login::{check_login, login_message, remembered_credentials, LoginOutcome};
use kbot::num::{parse_i32, parse_u32, parse_u64, parse_usize, remove_all_str, starts_with};
use kbot::presets::PresetManager;
use kbot::random::{
    camera_key, camera_turn, click_delay_ms, escape_key, escape_step, human_pause_secs, micro_of, micro_offset,
    next_pause_secs, pick_index, pickup_presses, pickup_wait_ms, walk_of, walk_step,
};
use kbot::regions::{
    captcha_button_region, close_button_point, hp_region, icon_search_region, lock_region, message_crop,
    ocr_region_check, pm_scan_region, pm_window, reply_box_point, OcrRegionCheck,
};
use kbot::stats::StatsDashboard;

#[test]
fn interface_language() {
    assert_eq!(t("Ayarlar", 1), "Settings");
    assert_eq!(t("Ayarlar", 0), "Ayarlar");
    assert_eq!(t("Ayarlar", 7), "Ayarlar");
    assert_eq!(t("bilinmeyen metin", 1), "bilinmeyen metin");
}

#[test]
fn configuration_defaults() {
    assert_eq!((default_ocr_x1(), default_ocr_y1(), default_ocr_x2(), default_ocr_y2()), (313, 153, 457, 168));
    assert_eq!((default_gecikme_min(), default_gecikme_max()), (180, 380));
    assert_eq!((default_mola_aralik(), default_mola_sure()), (57, 6));
    assert_eq!(default_toplama_tusu(), "Z");
    assert_eq!(default_dil(), "tr");
    assert_eq!(default_kisayol_baslat(), "F9");
    assert_eq!(default_mqtt_port(), 1883);
    assert_eq!(default_pot_esik(), 50);
    assert_eq!(default_tikla_modu(), "Hibrit");
    assert_eq!(default_attack_cooldown(), 1500);
    assert_eq!(default_pm_backend(), "gemini");
    assert_eq!(default_pm_cooldown(), 30);
    assert_eq!(default_pm_daily_limit(), 200);
    let c = ClientConfig::default();
    assert_eq!(c.name, "Client 01");
    assert_eq!((c.ocr_x1, c.ocr_y1, c.ocr_x2, c.ocr_y2), (313, 153, 457, 168));
}

#[test]
fn click_modes_read_back_their_names() {
    for m in [ClickMode::PostMessageW, ClickMode::FocusSwap, ClickMode::Hibrit] {
        assert_eq!(ClickMode::from_str(m.as_str()), m);
    }
    assert_eq!(ClickMode::from_str("focusswap"), ClickMode::FocusSwap);
    assert_eq!(ClickMode::from_str("anything"), ClickMode::Hibrit);
    assert_eq!(ClickMode::from_str("POST"), ClickMode::PostMessageW);
    assert_eq!(background_click_route(true, ClickMode::PostMessageW), Some(true));
    assert_eq!(background_click_route(true, ClickMode::Hibrit), Some(false));
    assert_eq!(background_click_route(false, ClickMode::PostMessageW), None);
}

#[test]
fn input_driver_and_serial_commands() {
    assert!(matches!(input_mode_for_driver("Arduino_COM3"), InputMode::Arduino { ref port_name } if port_name == "Arduino_COM3"));
    assert!(matches!(input_mode_for_driver("WinAPI"), InputMode::WinAPI));
    assert_eq!(arduino_move_command(-5, 10), "M-5,10\n");
    assert_eq!(arduino_move_command(0, 1080), "M0,1080\n");
    assert_eq!(arduino_click_command("right"), "C2\n");
    assert_eq!(arduino_click_command("left"), "C1\n");
    assert_eq!(mouse_button("right"), MouseButton::Right);
    assert_eq!(mouse_button("middle"), MouseButton::Left);
    assert_eq!(pack_lparam(10, 20), 10 + 20 * 65536);
    assert_eq!(pack_lparam(-1, 0), 0xFFFF);
}

#[test]
fn serial_port_names() {
    let ports = vec!["/dev/ttyS0".to_string(), "com7".to_string(), "COM9".to_string()];
    assert_eq!(resolve_port_name("Arduino_AUTO", &ports), Some("com7".to_string()));
    assert_eq!(resolve_port_name("arduino_auto", &vec![]), None);
    assert_eq!(resolve_port_name("Arduino_COM3", &ports), Some("COM3".to_string()));
    assert_eq!(resolve_port_name("Arduino_com12x-1", &ports), Some("com12x".to_string()));
    assert_eq!(resolve_port_name("/dev/ttyUSB0", &ports), Some("/dev/ttyUSB0".to_string()));
    assert_eq!(resolve_port_name("Çom_com5", &ports), Some("com5".to_string()));
    assert_eq!(resolve_port_name("Arduino_ßCOM2", &ports), Some("COM2".to_string()));
}

#[test]
fn screen_regions() {
    assert_eq!(lock_region((300, 20, 500, 90)), (300, 20, 500, 90));
    assert_eq!(lock_region((0, 0, 0, 0)), (200, 30, 600, 80));
    assert_eq!(lock_region((-10, 5, 100, 50)), (0, 5, 100, 50));
    assert_eq!(captcha_button_region(354, 420, 445, 449), Some((354, 420, 445, 449)));
    assert_eq!(captcha_button_region(0, 420, 445, 449), None);
    assert_eq!(ocr_region_check((313, 153, 457, 168), 800, 600), OcrRegionCheck::Read(313, 153, 144, 15));
    assert_eq!(ocr_region_check((313, 153, 330, 168), 800, 600), OcrRegionCheck::TooSmall);
    assert_eq!(ocr_region_check((313, 153, 900, 168), 800, 600), OcrRegionCheck::Missing);
    assert_eq!(pm_window(500, 400), (360, 300, 640, 500));
    assert_eq!(reply_box_point((360, 300, 640, 500)), (500, 470));
    assert_eq!(close_button_point((360, 300, 640, 500)), (625, 315));
    assert_eq!(message_crop((360, 300, 640, 500), 1024, 768), Some((375, 350, 250, 130)));
    assert_eq!(message_crop((990, 700, 1100, 800), 1024, 768), None);
    assert_eq!(hp_region((0, 0, 0, 0), (1, 2, 3, 4)), (1, 2, 3, 4));
    assert_eq!(hp_region((10, 20, 30, 40), (1, 2, 3, 4)), (10, 20, 30, 40));
    assert_eq!(pm_scan_region((0, 0, 0, 0), 800, 600), None);
    assert_eq!(pm_scan_region((-10, 10, 900, 15), 800, 600), Some(((0, 10, 800, 15), false)));
    assert_eq!(icon_search_region((10, 10, 12, 100), 800, 600), None);
    assert_eq!(icon_search_region((10, 10, 100, 100), 800, 600), Some((10, 10, 100, 100)));
}

#[test]
fn number_parsing_follows_str_parse() {
    assert_eq!(parse_u64("+42"), Some(42));
    assert_eq!(parse_u64("18446744073709551616"), None);
    assert_eq!(parse_u64(""), None);
    assert_eq!(parse_u64("-1"), None);
    assert_eq!(parse_u32("4294967295"), Some(u32::MAX));
    assert_eq!(parse_u32("4294967296"), None);
    assert_eq!(parse_usize("007"), Some(7));
    assert_eq!(parse_i32("-2147483648"), Some(i32::MIN));
    assert_eq!(parse_i32("2147483648"), None);
    assert_eq!(parse_i32("-"), None);
    assert_eq!(parse_i32(" 1"), None);
    assert!(starts_with("START_ALL", "START"));
    assert!(!starts_with("STA", "START"));
    assert_eq!(remove_all_str("a:b::c", ":"), "abc");
}

#[test]
fn sign_in() {
    assert_eq!(check_login("admin", "admin"), LoginOutcome::Accepted);
    assert_eq!(check_login("admin", "x"), LoginOutcome::Rejected);
    assert_eq!(check_login("", "admin"), LoginOutcome::MissingFields);
    assert_eq!(login_message(LoginOutcome::Accepted, 0), None);
    assert_eq!(login_message(LoginOutcome::Rejected, 0), Some("Geçersiz kullanıcı adı veya şifre.".to_string()));
    assert_eq!(login_message(LoginOutcome::MissingFields, 0), Some("Lütfen tüm alanları doldurun.".to_string()));
    assert_eq!(remembered_credentials(true, "admin", "pw"), ("admin".to_string(), "pw".to_string()));
    assert_eq!(remembered_credentials(false, "admin", "pw"), (String::new(), String::new()));
}

#[test]
fn preset_suggestion_from_window_title() {
    let mut m = PresetManager::new();
    assert_eq!(m.suggest_for_window("Metin2 - Vadi"), None);
    m.insert("Vadi");
    m.insert("Doyum");
    m.insert("Vadi");
    assert_eq!(m.list(), vec!["Vadi".to_string(), "Doyum".to_string()]);
    assert!(m.has_preset("Doyum"));
    assert_eq!(m.suggest_for_window("Metin2 - VADI"), Some("Vadi".to_string()));
    assert_eq!(m.suggest_for_window("doyum ve vadi"), Some("Vadi".to_string()));
    assert_eq!(m.suggest_for_window("Doyum Sahası"), Some("Doyum".to_string()));
    assert_eq!(m.suggest_for_window("Guatama"), None);
    assert!(m.remove("Vadi"));
    assert!(!m.remove("Vadi"));
    assert_eq!(m.suggest_for_window("vadi doyum"), Some("Doyum".to_string()));
}

#[test]
fn statistics_totals() {
    let s: u64 = 1_000_000_000;
    let mut d = StatsDashboard::new();
    d.update_client(1, 5, 1, 0, 0);
    d.update_client(2, 3, 0, 1, 10 * s);
    d.update_client(1, 8, 2, 1, 20 * s);
    assert_eq!(d.total_stones_all_time, 11);
    assert_eq!(d.total_captcha_all_time, 2);
    let g = d.get_global_summary(45 * s);
    assert_eq!((g.total_clients, g.active_clients), (2, 1));
    assert_eq!((g.total_stones, g.total_missed, g.total_captcha), (11, 2, 2));
    d.update_client(1, 2, 2, 1, 36 * s);
    assert_eq!(d.total_stones_all_time, 11);
    d.remove_client(2);
    assert!(d.get_client_stats(2).is_none());
    assert_eq!(d.get_client_stats(1).unwrap().stones_mined, 2);
    assert_eq!(d.get_global_summary(36 * s).total_stones, 2);
}

#[test]
fn learner_feedback_moves_scores() {
    let mut st = SampleStore::new();
    assert_eq!(st.process_feedback("120_90_200_3.0_4.0", true), Feedback::Created(1));
    assert_eq!(st.process_feedback("10_10_10_0.0_0.0", false), Feedback::Created(2));
    assert_eq!(st.process_feedback("120_90_200_3.0_4.0", false), Feedback::Updated(1));
    assert_eq!(st.samples[0].score, 0);
    assert!(!st.samples[0].label);
    assert_eq!(st.samples[0].feedback_count, 2);
    assert_eq!(st.get_stats(), (2, 0, 2));
    for _ in 0..20 {
        st.process_feedback("10_10_10_0.0_0.0", false);
    }
    assert_eq!(st.samples[1].score, -5000);
    st.reset_model();
    assert_eq!(st.get_stats(), (0, 0, 0));
    assert_eq!(st.process_feedback("k", true), Feedback::Created(1));
}

#[test]
fn learner_ids_continue_after_loaded_samples() {
    let loaded = vec![
        SampleRecord { id: 4, key: "a".to_string(), label: true, score: 500, feedback_count: 1 },
        SampleRecord { id: 9, key: "b".to_string(), label: false, score: -500, feedback_count: 1 },
    ];
    let mut st = SampleStore::from_samples(loaded);
    assert_eq!(st.next_id, 10);
    assert_eq!(st.get_stats(), (2, 1, 1));
    assert_eq!(st.process_feedback("c", true), Feedback::Created(10));
}

#[test]
fn random_choices_stay_in_their_ranges() {
    for _ in 0..50 {
        assert!((10..=30).contains(&human_pause_secs()));
        assert!((300..600).contains(&next_pause_secs()));
        assert!((3..=5).contains(&pickup_presses()));
        assert!((150..=300).contains(&pickup_wait_ms()));
        assert!((180..=380).contains(&click_delay_ms(180, 380)));
        assert!(pick_index(3) < 3);
        let (vk, ms) = camera_turn(500);
        assert!(vk == 0x51 || vk == 0x45);
        assert_eq!(ms, 500);
        let (dx, dy) = micro_offset();
        assert!((-3..=3).contains(&dx) && (-3..=3).contains(&dy));
        let e = escape_step();
        assert!(e == ('W', 0x57) || e == ('A', 0x41) || e == ('S', 0x53) || e == ('D', 0x44));
        let w = walk_step();
        assert!(w == ('W', 0x57, 1000) || w == ('S', 0x53, 800));
    }
    assert_eq!(click_delay_ms(7, 7), 7);
}

#[test]
fn input_mode_after_opening_the_port() {
    let a = InputMode::Arduino { port_name: "Arduino_COM3".to_string() };
    assert!(matches!(mode_after_open(&a, true), InputMode::Arduino { ref port_name } if port_name == "Arduino_COM3"));
    assert!(matches!(mode_after_open(&a, false), InputMode::WinAPI));
    assert!(matches!(mode_after_open(&InputMode::Interception, false), InputMode::Interception));
    assert_eq!(reconnect_port_name(&a), "Arduino_COM3");
    assert_eq!(reconnect_port_name(&InputMode::WinAPI), "");
    let s: u64 = 1_000_000_000;
    let mut last = 10 * s;
    assert!(!reconnect_allowed(&mut last, 12 * s));
    assert_eq!(last, 10 * s);
    assert!(reconnect_allowed(&mut last, 13 * s));
    assert_eq!(last, 13 * s);
}

#[test]
fn webhook_is_checked_before_the_test() {
    assert_eq!(webhook_check(""), WebhookCheck::Empty);
    assert_eq!(webhook_check("https://example.com/bot"), WebhookCheck::NotTelegram);
    assert_eq!(webhook_check("https://api.telegram.org/bot123/sendMessage"), WebhookCheck::Usable);
}

#[test]
fn translating_twice_is_translating_once() {
    for key in ["Genel Bakış", "Farming", "Ayarlar", "Overview", "Logs", "Kayıtlar (Logs)", "bilinmeyen"] {
        assert_eq!(t(&t(key, 1), 1), t(key, 1));
    }
}

#[test]
fn each_draw_gives_its_own_result() {
    assert_eq!(escape_key(0), ('W', 0x57));
    assert_eq!(escape_key(1), ('A', 0x41));
    assert_eq!(escape_key(2), ('S', 0x53));
    assert_eq!(escape_key(3), ('D', 0x44));
    assert_eq!(camera_key(0), 0x51);
    assert_eq!(camera_key(1), 0x45);
    assert_eq!(walk_of(0), ('W', 0x57, 1000));
    assert_eq!(walk_of(1), ('S', 0x53, 800));
    assert_eq!(micro_of(0), -3);
    assert_eq!(micro_of(3), 0);
    assert_eq!(micro_of(6), 3);
}
