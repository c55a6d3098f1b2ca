//! Remote control: the commands that arrive over the message broker and
//! what they are turned into for the client manager.
use vstd::prelude::*;
use vstd::string::*;
use crate::text::{str_eq, to_lower, lower_of, trim, trim_spec};
use crate::num::{starts_with, starts_with_spec};

verus! {

broadcast use vstd::string::group_string_axioms;

/// A structured remote command: `start`, `stop`, `status`, `ping`, with
/// optional window, model and driver.
#[derive(Debug)]
pub struct RemoteCommand {
    pub action: String,
    pub hwnd: Option<usize>,
    pub model: Option<String>,
    pub driver: Option<String>,
}

/// A client as reported to the remote.
#[derive(Debug)]
pub struct ActiveClient {
    pub hwnd: usize,
    pub is_running: bool,
    pub stones_mined: u32,
    pub state_name: String,
}

/// Broker settings.
#[derive(Debug)]
pub struct MqttConfig {
    pub broker: String,
    pub port: u16,
    pub client_id: String,
    pub topic_cmd: String,
    pub topic_status: String,
}

impl Default for MqttConfig {
    fn default() -> (r: Self)
        ensures
            r.broker@ == "broker.hivemq.com"@,
            r.port == 1883,
            r.client_id@ == "kbot_server"@,
            r.topic_cmd@ == "kbot/cmd"@,
            r.topic_status@ == "kbot/status"@,
    {
        MqttConfig {
            broker: "broker.hivemq.com".to_string(),
            port: 1883,
            client_id: "kbot_server".to_string(),
            topic_cmd: "kbot/cmd".to_string(),
            topic_status: "kbot/status".to_string(),
        }
    }
}

/// The manager command a structured remote action stands for: `start`
/// starts all clients, `stop` stops them (case-insensitively); anything else
/// (`ping`, `status`, unknown actions) sends nothing.
pub open spec fn remote_action_command(lower_action: Seq<char>) -> Option<Seq<char>> {
    if lower_action == "start"@ {
        Some("START_ALL"@)
    } else if lower_action == "stop"@ {
        Some("STOP"@)
    } else {
        None
    }
}

/// The manager command of a structured remote command (see
/// `remote_action_command`).
pub fn process_command(cmd: &RemoteCommand) -> (r: Option<&'static str>)
    ensures
        match r {
            Some(s) => remote_action_command(lower_of(cmd.action@)) == Some(s@),
            None => remote_action_command(lower_of(cmd.action@)) is None,
        },
{
    let lower = to_lower(cmd.action.as_str());
    if str_eq(lower.as_str(), "start") {
        Some("START_ALL")
    } else if str_eq(lower.as_str(), "stop") {
        Some("STOP")
    } else {
        None
    }
}

/// The manager command of a plain-text remote message, surrounding
/// whitespace ignored: `START`, `start` and `START_ALL` start all clients,
/// `STOP` and `stop` stop them, and a model switch `MODEL:<file>` is passed
/// on as it is.
pub open spec fn text_command(trimmed: Seq<char>) -> Option<Seq<char>> {
    if trimmed == "START"@ || trimmed == "start"@ || trimmed == "START_ALL"@ {
        Some("START_ALL"@)
    } else if trimmed == "STOP"@ || trimmed == "stop"@ {
        Some("STOP"@)
    } else if starts_with_spec(trimmed, "MODEL:"@) {
        Some(trimmed)
    } else {
        None
    }
}

/// The manager command of a plain-text remote message (see `text_command`).
pub fn process_text_command(text: &str) -> (r: Option<String>)
    ensures
        match r {
            Some(s) => text_command(trim_spec(text@)) == Some(s@),
            None => text_command(trim_spec(text@)) is None,
        },
{
    let t = trim(text);
    if str_eq(t, "START") || str_eq(t, "start") || str_eq(t, "START_ALL") {
        Some("START_ALL".to_string())
    } else if str_eq(t, "STOP") || str_eq(t, "stop") {
        Some("STOP".to_string())
    } else if starts_with(t, "MODEL:") {
        Some(t.to_string())
    } else {
        None
    }
}

} // verus!
