//! The sign-in check of the panel and what it remembers of a sign-in.
use vstd::prelude::*;
use vstd::string::*;
use crate::text::str_eq;
use crate::lang::{t, english_of};

verus! {

broadcast use vstd::string::group_string_axioms;

/// What a sign-in attempt gives.
#[derive(Debug, Clone, Copy, PartialEq, Eq, Structural)]
pub enum LoginOutcome {
    /// A field was left empty.
    MissingFields,
    /// The built-in account (`admin` / `admin`) was given.
    Accepted,
    /// Anything else.
    Rejected,
}

/// The outcome of signing in with `email` and `pass`.
pub open spec fn login_outcome(email: Seq<char>, pass: Seq<char>) -> LoginOutcome {
    if email.len() == 0 || pass.len() == 0 {
        LoginOutcome::MissingFields
    } else if email == "admin"@ && pass == "admin"@ {
        LoginOutcome::Accepted
    } else {
        LoginOutcome::Rejected
    }
}

/// Checks a sign-in (see `login_outcome`).
pub fn check_login(email: &str, pass: &str) -> (r: LoginOutcome)
    ensures
        r == login_outcome(email@, pass@),
{
    if email.unicode_len() == 0 || pass.unicode_len() == 0 {
        LoginOutcome::MissingFields
    } else if str_eq(email, "admin") && str_eq(pass, "admin") {
        LoginOutcome::Accepted
    } else {
        LoginOutcome::Rejected
    }
}

/// The source text of the message shown for an outcome; none on success.
pub open spec fn login_message_key(o: LoginOutcome) -> Option<Seq<char>> {
    match o {
        LoginOutcome::MissingFields => Some("Lütfen tüm alanları doldurun."@),
        LoginOutcome::Rejected => Some("Geçersiz kullanıcı adı veya şifre."@),
        LoginOutcome::Accepted => None,
    }
}

/// The message shown for an outcome in the language `dil_idx`.
pub fn login_message(o: LoginOutcome, dil_idx: usize) -> (r: Option<String>)
    ensures
        match login_message_key(o) {
            Some(k) => r is Some && r->0@ == (if dil_idx == 1 { english_of(k) } else { k }),
            None => r is None,
        },
{
    match o {
        LoginOutcome::MissingFields => Some(t("Lütfen tüm alanları doldurun.", dil_idx)),
        LoginOutcome::Rejected => Some(t("Geçersiz kullanıcı adı veya şifre.", dil_idx)),
        LoginOutcome::Accepted => None,
    }
}

/// The user name and password stored after a sign-in: the given ones when
/// the user asked to be remembered, empty ones otherwise.
pub fn remembered_credentials(remember: bool, email: &str, pass: &str) -> (r: (String, String))
    ensures
        remember ==> r.0@ == email@ && r.1@ == pass@,
        !remember ==> r.0@.len() == 0 && r.1@.len() == 0,
{
    if remember {
        (email.to_string(), pass.to_string())
    } else {
        (String::new(), String::new())
    }
}

} // verus!
