use kbot::client_params::ClientStartParams;
use kbot::manager::{
    parse_legacy_start, parse_manager_command, parse_rect_field, parse_runner_command, start_rejection, ClientHealth,
    ManagerCommand, RunnerCommand, StartRejection,
};
use kbot::remote::{process_command, process_text_command, MqttConfig, RemoteCommand};
use kbot::start_command::start_client_command;

fn sample_params() -> ClientStartParams {
    let mut p = ClientStartParams::default();
    p.id = 2;
    p.hwnd = 132456;
    p.model = "vadi.onnx".to_string();
    p.driver = "Arduino_AUTO".to_string();
    p.kilit_path = "hedef_kilit.png".to_string();
    p.kilit_region = (300, 20, 500, 90);
    p.ocr_region = (313, 153, 457, 168);
    p.olum_skill_aktif = true;
    p.olum_skill_tuslari = vec!["F1".to_string(), "Ctrl+G".to_string()];
    p.olum_skill_bekleme = 4;
    p.olum_binek_aktif = false;
    p.olum_binek_tusu = "H".to_string();
    p.olum_binek_bekleme = 6;
    p.captcha_buton_x1 = -5;
    p.captcha_buton_y1 = 420;
    p.captcha_buton_x2 = 445;
    p.captcha_buton_y2 = 449;
    p
}

#[test]
fn start_command_text() {
    let p = sample_params();
    assert_eq!(
        start_client_command(&p),
        "START_CLIENT:2:132456:vadi.onnx:Arduino_AUTO:hedef_kilit.png:300,20,500,90:313,153,457,168:1:F1,Ctrl+G:4:0:H:6:-5,420,445,449"
    );
    let mut q = ClientStartParams::default();
    q.olum_skill_tuslari = vec![];
    assert!(start_client_command(&q).contains(":EMPTY:"));
}

#[test]
fn start_command_reads_back() {
    let p = sample_params();
    let q = parse_legacy_start(&start_client_command(&p)).unwrap();
    assert_eq!(q.id, p.id);
    assert_eq!(q.hwnd, p.hwnd);
    assert_eq!(q.model, p.model);
    assert_eq!(q.driver, p.driver);
    assert_eq!(q.kilit_path, p.kilit_path);
    assert_eq!(q.kilit_region, p.kilit_region);
    assert_eq!(q.ocr_region, p.ocr_region);
    assert_eq!(q.olum_skill_aktif, p.olum_skill_aktif);
    assert_eq!(q.olum_skill_tuslari, p.olum_skill_tuslari);
    assert_eq!(q.olum_skill_bekleme, p.olum_skill_bekleme);
    assert_eq!(q.olum_binek_aktif, p.olum_binek_aktif);
    assert_eq!(q.olum_binek_tusu, p.olum_binek_tusu);
    assert_eq!(q.olum_binek_bekleme, p.olum_binek_bekleme);
    assert_eq!((q.captcha_buton_x1, q.captcha_buton_y1, q.captcha_buton_x2, q.captcha_buton_y2), (-5, 420, 445, 449));
}

#[test]
fn legacy_start_defaults() {
    let p = parse_legacy_start("START_CLIENT:1:555:m.onnx:WinAPI:k.png").unwrap();
    assert_eq!((p.id, p.hwnd), (1, 555));
    assert_eq!(p.kilit_region, (200, 30, 600, 80));
    assert_eq!(p.ocr_region, (313, 153, 457, 168));
    assert!(!p.olum_skill_aktif);
    assert!(p.olum_skill_tuslari.is_empty());
    assert_eq!(p.olum_skill_bekleme, 3);
    assert_eq!(p.olum_binek_bekleme, 5);
    assert_eq!(p.olum_binek_tusu, "");
    assert_eq!(p.pm_ai_backend, "gemini");
    assert_eq!(p.pm_cooldown_sn, 30);
    assert_eq!(p.pm_daily_limit, 200);
    assert!(parse_legacy_start("START_CLIENT:1:2:3").is_none());
}

#[test]
fn legacy_start_bad_numbers_fall_back() {
    let p = parse_legacy_start("START_CLIENT:x:y:m:d:k:1,2,3:a,b,c,d:TRUE:EMPTY:zz").unwrap();
    assert_eq!((p.id, p.hwnd), (0, 0));
    assert_eq!(p.kilit_region, (200, 30, 600, 80));
    assert_eq!(p.ocr_region, (313, 153, 457, 168));
    assert!(p.olum_skill_aktif);
    assert!(p.olum_skill_tuslari.is_empty());
    assert_eq!(p.olum_skill_bekleme, 3);
    assert_eq!(parse_rect_field("1,x,3,4", (9, 8, 7, 6)), (1, 8, 3, 4));
}

#[test]
fn start_is_refused_without_window_or_template() {
    let mut p = sample_params();
    assert_eq!(start_rejection(&p), None);
    p.kilit_path = "0".to_string();
    assert_eq!(start_rejection(&p), Some(StartRejection::NoLockTemplate));
    p.kilit_path = String::new();
    assert_eq!(start_rejection(&p), Some(StartRejection::NoLockTemplate));
    p.hwnd = 0;
    assert_eq!(start_rejection(&p), Some(StartRejection::NoWindow));
}

#[test]
fn manager_commands() {
    assert!(matches!(parse_manager_command("STOP_CLIENT:3"), ManagerCommand::StopClient(3)));
    assert!(matches!(parse_manager_command("STOP_CLIENT:x"), ManagerCommand::StopClient(999)));
    assert!(matches!(parse_manager_command("STOP"), ManagerCommand::StopAll));
    assert!(matches!(parse_manager_command("STOP_ALL"), ManagerCommand::StopAll));
    assert!(matches!(parse_manager_command("START_ALL"), ManagerCommand::StartAll));
    assert!(matches!(parse_manager_command("PREVIEW:77"), ManagerCommand::Preview(77)));
    assert!(matches!(parse_manager_command("PREVIEW:"), ManagerCommand::Preview(0)));
    assert!(matches!(parse_manager_command("MODEL:vadi.onnx"), ManagerCommand::Forward));
    assert!(matches!(parse_manager_command("UPDATE_KILIT_REGION:1,2,3,4"), ManagerCommand::Forward));
    assert!(matches!(parse_manager_command("hello"), ManagerCommand::Unknown));
    match parse_manager_command("START_CLIENT_JSON:{\"id\":1}") {
        ManagerCommand::StartJson(s) => assert_eq!(s, "{\"id\":1}"),
        _ => panic!("expected a JSON start"),
    }
    match parse_manager_command("START_CLIENT:1:2:a:b:c") {
        ManagerCommand::StartLegacy(Some(p)) => assert_eq!(p.hwnd, 2),
        _ => panic!("expected a legacy start"),
    }
    assert!(matches!(parse_manager_command("START_CLIENT:1"), ManagerCommand::StartLegacy(None)));
}

#[test]
fn runner_commands() {
    assert!(matches!(parse_runner_command("STOP"), RunnerCommand::Stop));
    match parse_runner_command("MODEL:doyum.onnx") {
        RunnerCommand::SwitchModel(m) => assert_eq!(m, "doyum.onnx"),
        _ => panic!("expected a model switch"),
    }
    assert!(matches!(parse_runner_command("MODEL:MODEL_BULUNAMADI"), RunnerCommand::Ignored));
    match parse_runner_command("LOAD_KILIT:C:/a.png") {
        RunnerCommand::LoadKilit(p) => assert_eq!(p, "C:/a.png"),
        _ => panic!("expected a template load"),
    }
    assert!(matches!(parse_runner_command("UPDATE_KILIT_REGION:10,20,30,40"), RunnerCommand::KilitRegion(10, 20, 30, 40)));
    assert!(matches!(parse_runner_command("UPDATE_KILIT_REGION:30,20,10,40"), RunnerCommand::Ignored));
    assert!(matches!(parse_runner_command("UPDATE_KILIT_REGION:1,2,3"), RunnerCommand::Ignored));
    assert!(matches!(parse_runner_command("stop"), RunnerCommand::Ignored));
}

#[test]
fn heartbeat_and_restarts() {
    let s: u64 = 1_000_000_000;
    let mut h = ClientHealth::new(0);
    assert!(h.is_alive(9 * s));
    assert!(!h.is_alive(10 * s));
    assert!(h.should_restart(10 * s));
    h.update_heartbeat(10 * s);
    assert!(h.is_alive(19 * s));
    h.increment_restart();
    h.increment_restart();
    h.increment_restart();
    assert!(!h.should_restart(100 * s));
}

#[test]
fn remote_commands() {
    let c = |a: &str| RemoteCommand { action: a.to_string(), hwnd: None, model: None, driver: None };
    assert_eq!(process_command(&c("start")), Some("START_ALL"));
    assert_eq!(process_command(&c("STOP")), Some("STOP"));
    assert_eq!(process_command(&c("ping")), None);
    assert_eq!(process_command(&c("status")), None);
    assert_eq!(process_text_command("  START \n"), Some("START_ALL".to_string()));
    assert_eq!(process_text_command("stop"), Some("STOP".to_string()));
    assert_eq!(process_text_command("Stop"), None);
    assert_eq!(process_text_command("START_ALL"), Some("START_ALL".to_string()));
    assert_eq!(process_text_command("STOP"), Some("STOP".to_string()));
    assert_eq!(process_text_command(" MODEL:vadi.onnx "), Some("MODEL:vadi.onnx".to_string()));
    assert_eq!(process_text_command("model:vadi.onnx"), None);
    let m = MqttConfig::default();
    assert_eq!(m.broker, "broker.hivemq.com");
    assert_eq!(m.port, 1883);
    assert_eq!(m.topic_cmd, "kbot/cmd");
}
