//! Configuration rules: the default connection and display options, how
//! raw string-valued fields resolve to usable values, and the skin
//! redemption check.  Reading and writing the settings file is the
//! caller's business; this module only decides what the fields mean.

use vstd::prelude::*;
use vstd::string::StrSliceExecFns;
use vstd::string::StringExecFns;
use crate::json::{
    json_as_str, json_get, json_view, parse_json, spec_field, spec_parse_json, spec_str_field,
};
use crate::text::{parse_u64, parse_u16, spec_all_digits, spec_dec_value, str_eq};

verus! {

/// The resolved configuration.
#[derive(Clone, PartialEq, Eq, Debug)]
pub struct Settings {
    pub window_length: u64,
    pub window_height: u64,
    pub fps: u64,
    pub ip: String,
    pub port: u16,
    pub name: String,
    pub preferred_latency: u64,
    pub skin: u64,
}

/// The string-valued fields as they stand in the settings file; a field
/// the file does not carry is `None`.
pub struct RawSettings {
    pub window_length: Option<String>,
    pub window_height: Option<String>,
    pub fps: Option<String>,
    pub ip: Option<String>,
    pub port: Option<String>,
    pub name: Option<String>,
    pub preferred_latency: Option<String>,
    pub skin: Option<String>,
}

/// The mathematical value of the raw fields.
pub struct RawSettingsView {
    pub window_length: Option<Seq<char>>,
    pub window_height: Option<Seq<char>>,
    pub fps: Option<Seq<char>>,
    pub ip: Option<Seq<char>>,
    pub port: Option<Seq<char>>,
    pub name: Option<Seq<char>>,
    pub preferred_latency: Option<Seq<char>>,
    pub skin: Option<Seq<char>>,
}

/// The text a present field holds.
pub open spec fn spec_opt_text(o: Option<String>) -> Option<Seq<char>> {
    match o {
        None => None,
        Some(t) => Some(t@),
    }
}

impl View for RawSettings {
    type V = RawSettingsView;

    open spec fn view(&self) -> RawSettingsView {
        RawSettingsView {
            window_length: spec_opt_text(self.window_length),
            window_height: spec_opt_text(self.window_height),
            fps: spec_opt_text(self.fps),
            ip: spec_opt_text(self.ip),
            port: spec_opt_text(self.port),
            name: spec_opt_text(self.name),
            preferred_latency: spec_opt_text(self.preferred_latency),
            skin: spec_opt_text(self.skin),
        }
    }
}

/// A configuration failure that is fatal at startup.
#[derive(Clone, Copy, PartialEq, Eq, Structural, Debug)]
pub enum ConfigError {
    /// The PORT field is present but not a port number.
    InvalidPort,
}

/// The value of a numeric field: the denoted number when the field is
/// present, all digits and fits, else the default.
pub open spec fn spec_u64_field(o: Option<Seq<char>>, d: int) -> int {
    match o {
        None => d,
        Some(t) => if t.len() > 0 && spec_all_digits(t) && spec_dec_value(t) <= u64::MAX {
            spec_dec_value(t)
        } else {
            d
        },
    }
}

/// The value of a textual field: the text when present, else the default.
pub open spec fn spec_text_field(o: Option<Seq<char>>, d: Seq<char>) -> Seq<char> {
    match o {
        None => d,
        Some(t) => t,
    }
}

/// Window dimensions below 1000 are raised to 1000.
pub open spec fn spec_clamp_dim(v: int) -> int {
    if v < 1000 {
        1000
    } else {
        v
    }
}

/// Whether the PORT field can be resolved: absent, or a port number.
pub open spec fn spec_port_ok(o: Option<Seq<char>>) -> bool {
    match o {
        None => true,
        Some(t) => t.len() > 0 && spec_all_digits(t) && spec_dec_value(t) <= u16::MAX,
    }
}

/// The resolved port: the denoted number, or 5766 when absent.
pub open spec fn spec_port_value(o: Option<Seq<char>>) -> int {
    match o {
        None => 5766,
        Some(t) => spec_dec_value(t),
    }
}

/// The raw fields the settings file's text denotes: all absent when the
/// text is not JSON or carries no `settings` object; each field is its
/// string member of that object, absent when missing or not a string.
pub open spec fn spec_raw_settings(s: Seq<char>) -> RawSettingsView {
    let absent = RawSettingsView {
        window_length: None,
        window_height: None,
        fps: None,
        ip: None,
        port: None,
        name: None,
        preferred_latency: None,
        skin: None,
    };
    match spec_parse_json(s) {
        None => absent,
        Some(j) => match spec_field(j, "settings"@) {
            None => absent,
            Some(sj) => RawSettingsView {
                window_length: spec_str_field(sj, "RSWINDOW_LENGTH"@),
                window_height: spec_str_field(sj, "RSWINDOW_HEIGHT"@),
                fps: spec_str_field(sj, "FPS"@),
                ip: spec_str_field(sj, "IP"@),
                port: spec_str_field(sj, "PORT"@),
                name: spec_str_field(sj, "NAME"@),
                preferred_latency: spec_str_field(sj, "PREFERRED_LATENCY"@),
                skin: spec_str_field(sj, "SKIN"@),
            },
        },
    }
}

/// The configuration an absent settings file resolves to.
pub fn default_settings() -> (s: Settings)
    ensures
        s.window_length == 1000,
        s.window_height == 1000,
        s.fps == 60,
        s.ip@ == "127.0.0.1"@,
        s.port == 5766,
        s.name@ == "Player"@,
        s.preferred_latency == 4,
        s.skin == 0,
{
    Settings {
        window_length: 1000,
        window_height: 1000,
        fps: 60,
        ip: String::from_str("127.0.0.1"),
        port: 5766,
        name: String::from_str("Player"),
        preferred_latency: 4,
        skin: 0,
    }
}

/// Raise a window dimension to the 1000 floor.
pub fn clamp_dim(v: u64) -> (r: u64)
    ensures
        r as int == spec_clamp_dim(v as int),
{
    if v < 1000 {
        1000
    } else {
        v
    }
}

/// Resolve one numeric field against its default.
fn u64_field(o: &Option<String>, d: u64) -> (r: u64)
    ensures
        r as int == spec_u64_field(spec_opt_text(*o), d as int),
{
    match o {
        None => d,
        Some(t) => match parse_u64(t.as_str()) {
            Some(n) => n,
            None => d,
        },
    }
}

/// Resolve one textual field against its default.
fn text_field(o: &Option<String>, d: &str) -> (r: String)
    ensures
        r@ == spec_text_field(spec_opt_text(*o), d@),
{
    match o {
        None => String::from_str(d),
        Some(t) => t.clone(),
    }
}

/// Resolve the raw fields: every missing or malformed field falls back
/// to its default, except a present but malformed PORT, which is fatal;
/// window dimensions below 1000 are raised to 1000.
pub fn resolve_settings(raw: &RawSettings) -> (r: Result<Settings, ConfigError>)
    ensures
        r is Ok <==> spec_port_ok(raw@.port),
        r matches Ok(s) ==> {
            &&& s.window_length as int == spec_clamp_dim(spec_u64_field(raw@.window_length, 1000))
            &&& s.window_height as int == spec_clamp_dim(spec_u64_field(raw@.window_height, 1000))
            &&& s.fps as int == spec_u64_field(raw@.fps, 60)
            &&& s.ip@ == spec_text_field(raw@.ip, "127.0.0.1"@)
            &&& s.port as int == spec_port_value(raw@.port)
            &&& s.name@ == spec_text_field(raw@.name, "Player"@)
            &&& s.preferred_latency as int == spec_u64_field(raw@.preferred_latency, 4)
            &&& s.skin as int == spec_u64_field(raw@.skin, 0)
        },
        r matches Err(e) ==> e == ConfigError::InvalidPort,
{
    let port: u16 = match &raw.port {
        None => 5766,
        Some(t) => match parse_u16(t.as_str()) {
            Some(p) => p,
            None => { return Err(ConfigError::InvalidPort); },
        },
    };
    Ok(Settings {
        window_length: clamp_dim(u64_field(&raw.window_length, 1000)),
        window_height: clamp_dim(u64_field(&raw.window_height, 1000)),
        fps: u64_field(&raw.fps, 60),
        ip: text_field(&raw.ip, "127.0.0.1"),
        port,
        name: text_field(&raw.name, "Player"),
        preferred_latency: u64_field(&raw.preferred_latency, 4),
        skin: u64_field(&raw.skin, 0),
    })
}

/// One string member of the settings object, if present as a string.
fn text_member(v: &serde_json::Value, key: &str) -> (r: Option<String>)
    ensures
        spec_opt_text(r) == spec_str_field(json_view(*v), key@),
{
    match json_get(v, key) {
        Some(f) => match json_as_str(f) {
            Some(t) => Some(String::from_str(t)),
            None => None,
        },
        None => None,
    }
}

/// The raw string fields of the `settings` object inside the given file
/// text; a file that does not parse, or any field it does not carry,
/// yields `None` fields, which resolve to the defaults.
pub fn raw_settings_from_json(content: &str) -> (r: RawSettings)
    ensures
        r@ == spec_raw_settings(content@),
{
    let empty = RawSettings {
        window_length: None,
        window_height: None,
        fps: None,
        ip: None,
        port: None,
        name: None,
        preferred_latency: None,
        skin: None,
    };
    let v = match parse_json(content) {
        Some(v) => v,
        None => { return empty; },
    };
    let settings = match json_get(&v, "settings") {
        Some(s) => s,
        None => { return empty; },
    };
    RawSettings {
        window_length: text_member(settings, "RSWINDOW_LENGTH"),
        window_height: text_member(settings, "RSWINDOW_HEIGHT"),
        fps: text_member(settings, "FPS"),
        ip: text_member(settings, "IP"),
        port: text_member(settings, "PORT"),
        name: text_member(settings, "NAME"),
        preferred_latency: text_member(settings, "PREFERRED_LATENCY"),
        skin: text_member(settings, "SKIN"),
    }
}

/// Resolve the settings file's text: parse failure and missing fields
/// fall back to the defaults; only a present but malformed PORT is
/// fatal.  Each field of the result is pinned to the named field of the
/// parsed text, and both window dimensions come out at 1000 or above.
pub fn load_settings(content: &str) -> (r: Result<Settings, ConfigError>)
    ensures
        r is Ok <==> spec_port_ok(spec_raw_settings(content@).port),
        r matches Ok(s) ==> {
            let raw = spec_raw_settings(content@);
            &&& s.window_length as int == spec_clamp_dim(spec_u64_field(raw.window_length, 1000))
            &&& s.window_height as int == spec_clamp_dim(spec_u64_field(raw.window_height, 1000))
            &&& s.fps as int == spec_u64_field(raw.fps, 60)
            &&& s.ip@ == spec_text_field(raw.ip, "127.0.0.1"@)
            &&& s.port as int == spec_port_value(raw.port)
            &&& s.name@ == spec_text_field(raw.name, "Player"@)
            &&& s.preferred_latency as int == spec_u64_field(raw.preferred_latency, 4)
            &&& s.skin as int == spec_u64_field(raw.skin, 0)
            &&& s.window_length >= 1000
            &&& s.window_height >= 1000
        },
        r matches Err(e) ==> e == ConfigError::InvalidPort,
{
    resolve_settings(&raw_settings_from_json(content))
}

/// Whether a skin token is the accepted one.
pub fn token_good(token: &str) -> (r: bool)
    ensures
        r == (token@ == "232445"@),
{
    str_eq(token, "232445")
}

/// Redeem a skin token: only the six-character accepted token passes.
pub fn redeem_skin(token: &str) -> (r: Result<(), String>)
    ensures
        r is Ok <==> token@.len() == 6 && token@ == "232445"@,
        r matches Err(e) ==> e@ == "Invalid token"@,
{
    if token.unicode_len() == 6 && token_good(token) {
        proof {
            reveal_strlit("232445");
        }
        Ok(())
    } else {
        proof {
            reveal_strlit("232445");
        }
        Err(String::from_str("Invalid token"))
    }
}

} // verus!
