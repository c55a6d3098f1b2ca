//! Per-client configuration and the default values of the settings file.
use vstd::prelude::*;
use vstd::string::*;
use crate::text::{find_str, find_spec};

verus! {

broadcast use vstd::string::group_string_axioms;

/// Configuration of one game client.
#[derive(Debug)]
pub struct ClientConfig {
    pub name: String,
    pub hwnd: usize,
    pub active: bool,
    pub model: String,
    pub driver: String,
    pub kilit_path: String,
    pub search_x1: i32,
    pub search_y1: i32,
    pub search_x2: i32,
    pub search_y2: i32,
    pub template_x1: i32,
    pub template_y1: i32,
    pub template_x2: i32,
    pub template_y2: i32,
    pub ocr_x1: i32,
    pub ocr_y1: i32,
    pub ocr_x2: i32,
    pub ocr_y2: i32,
    pub radar_aktif: bool,
    pub captcha_buton_x1: i32,
    pub captcha_buton_y1: i32,
    pub captcha_buton_x2: i32,
    pub captcha_buton_y2: i32,
}

impl Default for ClientConfig {
    fn default() -> (r: Self)
        ensures
            r.name@ == "Client 01"@,
            r.hwnd == 0,
            r.active,
            r.model@ == Seq::<char>::empty(),
            r.driver@ == "Arduino_AUTO"@,
            r.kilit_path@ == "hedef_kilit.png"@,
            (r.search_x1, r.search_y1, r.search_x2, r.search_y2) == (300i32, 20i32, 500i32, 90i32),
            (r.template_x1, r.template_y1, r.template_x2, r.template_y2) == (354i32, 54i32, 398i32, 71i32),
            (r.ocr_x1, r.ocr_y1, r.ocr_x2, r.ocr_y2) == (313i32, 153i32, 457i32, 168i32),
            !r.radar_aktif,
            (r.captcha_buton_x1, r.captcha_buton_y1, r.captcha_buton_x2, r.captcha_buton_y2) == (0i32, 0i32, 0i32, 0i32),
    {
        ClientConfig {
            name: "Client 01".to_string(),
            hwnd: 0,
            active: true,
            model: String::new(),
            driver: "Arduino_AUTO".to_string(),
            kilit_path: "hedef_kilit.png".to_string(),
            search_x1: 300,
            search_y1: 20,
            search_x2: 500,
            search_y2: 90,
            template_x1: 354,
            template_y1: 54,
            template_x2: 398,
            template_y2: 71,
            ocr_x1: 313,
            ocr_y1: 153,
            ocr_x2: 457,
            ocr_y2: 168,
            radar_aktif: false,
            captcha_buton_x1: 0,
            captcha_buton_y1: 0,
            captcha_buton_x2: 0,
            captcha_buton_y2: 0,
        }
    }
}

/// Default left edge of the captcha question region.
pub fn default_ocr_x1() -> (r: i32)
    ensures
        r == 313,
{
    313
}

/// Default top edge of the captcha question region.
pub fn default_ocr_y1() -> (r: i32)
    ensures
        r == 153,
{
    153
}

/// Default right edge of the captcha question region.
pub fn default_ocr_x2() -> (r: i32)
    ensures
        r == 457,
{
    457
}

/// Default bottom edge of the captcha question region.
pub fn default_ocr_y2() -> (r: i32)
    ensures
        r == 168,
{
    168
}

/// Default of the region coordinates that start unset.
pub fn default_zero() -> (r: i32)
    ensures
        r == 0,
{
    0
}

/// Default of the switches that start off.
pub fn default_false() -> (r: bool)
    ensures
        !r,
{
    false
}

/// Default of the switches that start on.
pub fn default_true() -> (r: bool)
    ensures
        r,
{
    true
}

/// Default item pickup key.
pub fn default_toplama_tusu() -> (r: String)
    ensures
        r@ == "Z"@,
{
    "Z".to_string()
}

/// Default interface language.
pub fn default_dil() -> (r: String)
    ensures
        r@ == "tr"@,
{
    "tr".to_string()
}

/// Default start/stop hotkey.
pub fn default_kisayol_baslat() -> (r: String)
    ensures
        r@ == "F9"@,
{
    "F9".to_string()
}

/// Default clear-log hotkey.
pub fn default_kisayol_log() -> (r: String)
    ensures
        r@ == "Ctrl+L"@,
{
    "Ctrl+L".to_string()
}

/// Default screenshot hotkey.
pub fn default_kisayol_ekran() -> (r: String)
    ensures
        r@ == "Ctrl+P"@,
{
    "Ctrl+P".to_string()
}

/// Default lower bound of the random delay (ms).
pub fn default_gecikme_min() -> (r: u32)
    ensures
        r == 180,
{
    180
}

/// Default upper bound of the random delay (ms).
pub fn default_gecikme_max() -> (r: u32)
    ensures
        r == 380,
{
    380
}

/// Default work interval between breaks (minutes).
pub fn default_mola_aralik() -> (r: u32)
    ensures
        r == 57,
{
    57
}

/// Default break length (minutes).
pub fn default_mola_sure() -> (r: u32)
    ensures
        r == 6,
{
    6
}

/// Remote control starts on.
pub fn default_mqtt_aktif() -> (r: bool)
    ensures
        r,
{
    true
}

/// Default message broker.
pub fn default_mqtt_broker() -> (r: String)
    ensures
        r@ == "broker.hivemq.com"@,
{
    "broker.hivemq.com".to_string()
}

/// Default broker port.
pub fn default_mqtt_port() -> (r: u16)
    ensures
        r == 1883,
{
    1883
}

/// Default command topic.
pub fn default_mqtt_topic() -> (r: String)
    ensures
        r@ == "kbot/cmd"@,
{
    "kbot/cmd".to_string()
}

/// Default potion key.
pub fn default_pot_tusu() -> (r: String)
    ensures
        r@ == "1"@,
{
    "1".to_string()
}

/// Default health percentage below which a potion is taken.
pub fn default_pot_esik() -> (r: u32)
    ensures
        r == 50,
{
    50
}

/// Default click mode name.
pub fn default_tikla_modu() -> (r: String)
    ensures
        r@ == "Hibrit"@,
{
    "Hibrit".to_string()
}

/// Default time between two clicks on stones (ms).
pub fn default_attack_cooldown() -> (r: u64)
    ensures
        r == 1500,
{
    1500
}

/// Default reply backend.
pub fn default_pm_backend() -> (r: String)
    ensures
        r@ == "gemini"@,
{
    "gemini".to_string()
}

/// Instructions given to the reply service by default.
pub open spec fn default_prompt_text() -> Seq<char> {
    "Sen Metin2 oynayan bir oyuncusun. Gelen özel mesajlara kısa, samimi ve Türkçe yanıt ver. Maksimum 2 cümle."@
}

/// Default instructions of the reply service.
pub fn default_pm_prompt() -> (r: String)
    ensures
        r@ == default_prompt_text(),
{
    "Sen Metin2 oynayan bir oyuncusun. Gelen özel mesajlara kısa, samimi ve Türkçe yanıt ver. Maksimum 2 cümle.".to_string()
}

/// Default time before the same sender is answered again (seconds).
pub fn default_pm_cooldown() -> (r: u64)
    ensures
        r == 30,
{
    30
}

/// Default number of replies per day.
pub fn default_pm_daily_limit() -> (r: u32)
    ensures
        r == 200,
{
    200
}

/// What the connection test makes of a Telegram webhook URL.
#[derive(Debug, Clone, Copy, PartialEq, Eq, Structural)]
pub enum WebhookCheck {
    /// No URL given.
    Empty,
    /// The URL does not name `api.telegram.org`.
    NotTelegram,
    /// The URL may be tested.
    Usable,
}

/// A webhook URL is tested only when it is not empty and names
/// `api.telegram.org`.
pub open spec fn webhook_check_spec(url: Seq<char>) -> WebhookCheck {
    if url.len() == 0 {
        WebhookCheck::Empty
    } else if find_spec(url, "api.telegram.org"@) is None {
        WebhookCheck::NotTelegram
    } else {
        WebhookCheck::Usable
    }
}

/// Checks a webhook URL before the connection test (see
/// `webhook_check_spec`).
pub fn webhook_check(url: &str) -> (r: WebhookCheck)
    ensures
        r == webhook_check_spec(url@),
{
    if url.unicode_len() == 0 {
        WebhookCheck::Empty
    } else if find_str(url, "api.telegram.org").is_none() {
        WebhookCheck::NotTelegram
    } else {
        WebhookCheck::Usable
    }
}

} // verus!
