//! Start parameters of a client runner.
use vstd::prelude::*;
use vstd::string::*;
use crate::config::default_prompt_text;

verus! {

broadcast use vstd::string::group_string_axioms;

/// Everything a client runner is started with.
#[derive(Debug)]
pub struct ClientStartParams {
    pub id: usize,
    pub hwnd: usize,
    pub model: String,
    pub driver: String,
    pub kilit_path: String,
    pub kilit_region: (i32, i32, i32, i32),
    pub ocr_region: (i32, i32, i32, i32),
    pub olum_skill_aktif: bool,
    pub olum_skill_tuslari: Vec<String>,
    pub olum_skill_bekleme: u64,
    pub olum_binek_aktif: bool,
    pub olum_binek_tusu: String,
    pub olum_binek_bekleme: u64,
    pub captcha_buton_x1: i32,
    pub captcha_buton_y1: i32,
    pub captcha_buton_x2: i32,
    pub captcha_buton_y2: i32,
    pub pm_ai_aktif: bool,
    pub pm_ai_backend: String,
    pub pm_ai_api_key: String,
    pub pm_system_prompt: String,
    pub pm_region: (i32, i32, i32, i32),
    pub pm_cooldown_sn: u64,
    pub pm_daily_limit: u32,
}

/// Views of a list of strings.
pub open spec fn strings_view(v: Seq<String>) -> Seq<Seq<char>> {
    v.map_values(|s: String| s@)
}

/// The reply settings every runner starts with unless told otherwise:
/// replies off, Gemini without key, the default instructions, no region,
/// 30 s cooldown, 200 replies a day.
pub open spec fn pm_defaults(p: ClientStartParams) -> bool {
    &&& !p.pm_ai_aktif
    &&& p.pm_ai_backend@ == "gemini"@
    &&& p.pm_ai_api_key@ == Seq::<char>::empty()
    &&& p.pm_system_prompt@ == default_prompt_text()
    &&& p.pm_region == (0i32, 0i32, 0i32, 0i32)
    &&& p.pm_cooldown_sn == 30
    &&& p.pm_daily_limit == 200
}

/// Builds the reply settings part of a parameter set with its defaults.
pub fn pm_default_fields() -> (r: (bool, String, String, String, (i32, i32, i32, i32), u64, u32))
    ensures
        !r.0,
        r.1@ == "gemini"@,
        r.2@ == Seq::<char>::empty(),
        r.3@ == default_prompt_text(),
        r.4 == (0i32, 0i32, 0i32, 0i32),
        r.5 == 30,
        r.6 == 200,
{
    (false, "gemini".to_string(), String::new(), crate::config::default_pm_prompt(), (0, 0, 0, 0), 30, 200)
}

impl Default for ClientStartParams {
    fn default() -> (r: Self)
        ensures
            r.id == 0,
            r.hwnd == 0,
            r.model@ == Seq::<char>::empty(),
            r.driver@ == "Arduino_AUTO"@,
            r.kilit_path@ == "hedef_kilit.png"@,
            r.kilit_region == (200i32, 30i32, 600i32, 80i32),
            r.ocr_region == (313i32, 153i32, 457i32, 168i32),
            !r.olum_skill_aktif,
            r.olum_skill_tuslari@.len() == 0,
            r.olum_skill_bekleme == 3,
            !r.olum_binek_aktif,
            r.olum_binek_tusu@ == Seq::<char>::empty(),
            r.olum_binek_bekleme == 5,
            (r.captcha_buton_x1, r.captcha_buton_y1, r.captcha_buton_x2, r.captcha_buton_y2) == (0i32, 0i32, 0i32, 0i32),
            pm_defaults(r),
    {
        let (pm_ai_aktif, pm_ai_backend, pm_ai_api_key, pm_system_prompt, pm_region, pm_cooldown_sn, pm_daily_limit) =
            pm_default_fields();
        ClientStartParams {
            id: 0,
            hwnd: 0,
            model: String::new(),
            driver: "Arduino_AUTO".to_string(),
            kilit_path: "hedef_kilit.png".to_string(),
            kilit_region: (200, 30, 600, 80),
            ocr_region: (313, 153, 457, 168),
            olum_skill_aktif: false,
            olum_skill_tuslari: Vec::new(),
            olum_skill_bekleme: 3,
            olum_binek_aktif: false,
            olum_binek_tusu: String::new(),
            olum_binek_bekleme: 5,
            captcha_buton_x1: 0,
            captcha_buton_y1: 0,
            captcha_buton_x2: 0,
            captcha_buton_y2: 0,
            pm_ai_aktif,
            pm_ai_backend,
            pm_ai_api_key,
            pm_system_prompt,
            pm_region,
            pm_cooldown_sn,
            pm_daily_limit,
        }
    }
}

} // verus!
