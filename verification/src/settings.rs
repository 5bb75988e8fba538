//! The settings of the daemon, chosen from a parsed configuration file with
//! a default for every value that the file does not give.

use vstd::prelude::*;
use ini::Ini;

verus! {

/// The share of its parent, in hundredths, that a new window gets where the
/// configuration names none.
pub const DEFAULT_RATIO: u32 = 33;

/// Where the configuration file lies, before any expansion.
pub const CONFIG_PATH: &'static str = "~/.config/i3/ratiosplit.ini";

/// Where the log file lies where the configuration names no other place,
/// before any expansion.
pub const DEFAULT_LOG_PATH: &'static str = "~/.config/i3/ratiosplit.log";

/// The level of the log file where the configuration names none.
pub const DEFAULT_LOG_FILE_LEVEL: LogLevel = LogLevel::Info;

/// The level of the console where the configuration names none.
pub const DEFAULT_LOG_CONSOLE_LEVEL: LogLevel = LogLevel::Off;

/// A parsed configuration file; its contents are read through `ini_values`.
#[verifier::external_type_specification]
#[verifier::external_body]
pub struct ExIni(ini::Ini);

/// The most verbose level of messages that a log destination takes.
#[derive(Clone, Copy, Debug, PartialEq, Eq, Structural)]
pub enum LogLevel {
    Off,
    Error,
    Warn,
    Info,
    Debug,
    Trace,
}

/// The settings of the daemon.
#[derive(Debug, PartialEq, Eq)]
pub struct Settings {
    /// The share of its parent that a new window gets, in hundredths.
    pub ratio: u32,
    pub log_file_level: LogLevel,
    pub log_file: String,
    pub log_console_level: LogLevel,
}

/// What a parsed configuration file holds in its named sections: the first
/// value of each key of the first section of each name, by section and key.
pub uninterp spec fn ini_values(conf: Ini) -> Map<(Seq<char>, Seq<char>), Seq<char>>;

/// The upper-case form of an ASCII letter; any other character unchanged.
pub open spec fn ascii_upper(c: char) -> char {
    if 97 <= (c as u32) && (c as u32) <= 122 {
        ((c as u32) - 32) as char
    } else {
        c
    }
}

/// Two texts are equal but for the case of their ASCII letters.
pub open spec fn same_ignoring_case(a: Seq<char>, b: Seq<char>) -> bool {
    a.len() == b.len() && forall|i: int|
        0 <= i < a.len() ==> ascii_upper(#[trigger] a[i]) == ascii_upper(b[i])
}

/// The level that a text names, in any case of its letters.
pub open spec fn level_named(name: Seq<char>) -> Option<LogLevel> {
    if same_ignoring_case(name, "OFF"@) {
        Some(LogLevel::Off)
    } else if same_ignoring_case(name, "ERROR"@) {
        Some(LogLevel::Error)
    } else if same_ignoring_case(name, "WARN"@) {
        Some(LogLevel::Warn)
    } else if same_ignoring_case(name, "INFO"@) {
        Some(LogLevel::Info)
    } else if same_ignoring_case(name, "DEBUG"@) {
        Some(LogLevel::Debug)
    } else if same_ignoring_case(name, "TRACE"@) {
        Some(LogLevel::Trace)
    } else {
        None
    }
}

/// The value of `key` in the section `main` of a configuration, if any.
pub open spec fn main_entry(conf: Option<&Ini>, key: Seq<char>) -> Option<Seq<char>> {
    match conf {
        Some(c) => if ini_values(*c).contains_key(("main"@, key)) {
            Some(ini_values(*c)[("main"@, key)])
        } else {
            None
        },
        None => None,
    }
}

/// The level that the entry `key` names, or `default` where there is no such
/// entry or it names no level.
pub open spec fn level_chosen(conf: Option<&Ini>, key: Seq<char>, default: LogLevel) -> LogLevel {
    match main_entry(conf, key) {
        Some(name) => match level_named(name) {
            Some(level) => level,
            None => default,
        },
        None => default,
    }
}

/// The path of the log file as written, before any expansion.
pub open spec fn log_path_chosen(conf: Option<&Ini>) -> Seq<char> {
    match main_entry(conf, "log_file"@) {
        Some(path) => path,
        None => DEFAULT_LOG_PATH@,
    }
}

/// The share chosen: the one read from the configuration, or the default
/// where there is no configuration or it gives none.
pub open spec fn ratio_chosen(conf: Option<&Ini>, ratio: Option<u32>) -> u32 {
    match (conf, ratio) {
        (Some(_), Some(r)) => r,
        _ => DEFAULT_RATIO,
    }
}

/// Calls `Ini::get_from` with a section name. Trusted: it returns the first
/// value of the key in the first section of that name, which is what
/// `ini_values` holds for the pair, and nothing where there is no such
/// section or key.
#[verifier::external_body]
fn value_in(conf: &Ini, section: &str, key: &str) -> (value: Option<String>)
    ensures
        value is Some <==> ini_values(*conf).contains_key((section@, key@)),
        value matches Some(v) ==> v@ == ini_values(*conf)[(section@, key@)],
{
    conf.get_from(Some(section), key).map(String::from)
}

/// Calls `LevelFilter::from_str` of the crate `log`. Trusted: it accepts the
/// six level names in any case of their letters, and nothing else.
#[verifier::external_body]
fn level_from_name(name: &str) -> (level: Option<LogLevel>)
    ensures
        level == level_named(name@),
{
    match name.parse::<log::LevelFilter>() {
        Ok(log::LevelFilter::Off) => Some(LogLevel::Off),
        Ok(log::LevelFilter::Error) => Some(LogLevel::Error),
        Ok(log::LevelFilter::Warn) => Some(LogLevel::Warn),
        Ok(log::LevelFilter::Info) => Some(LogLevel::Info),
        Ok(log::LevelFilter::Debug) => Some(LogLevel::Debug),
        Ok(log::LevelFilter::Trace) => Some(LogLevel::Trace),
        Err(_) => None,
    }
}

/// A path names a variable of the environment: it holds a dollar sign.
pub open spec fn names_variable(path: Seq<char>) -> bool {
    path.contains('$')
}

/// `text` ends with `tail`.
pub open spec fn ends_with(text: Seq<char>, tail: Seq<char>) -> bool {
    text.len() >= tail.len() && text.subrange(text.len() - tail.len(), text.len() as int) == tail
}

/// What a path that names no variable may expand to. One that does not begin
/// with a tilde stays as it is. Of one that does, all after the tilde stays,
/// and what stands before it depends on the environment: the home directory,
/// or the tilde itself where there is none to put in its place.
pub open spec fn expands_to(path: Seq<char>, expanded: Seq<char>) -> bool {
    if path.len() > 0 && path[0] == '~' {
        ends_with(expanded, path.skip(1))
    } else {
        expanded == path
    }
}

/// Calls `shellexpand::full`, which replaces a leading tilde and the
/// variables of the environment in a path. Trusted: it fails only on a
/// variable that is not set, so never on a path without a dollar sign, and
/// such a path it changes at most at a leading tilde. Of a path that names a
/// variable nothing is claimed: the environment decides.
#[verifier::external_body]
fn expand(path: &str) -> (expanded: Option<String>)
    ensures
        !names_variable(path@) ==> expanded is Some,
        expanded matches Some(e) ==> (!names_variable(path@) ==> expands_to(path@, e@)),
{
    match shellexpand::full(path) {
        Ok(text) => Some(text.into_owned()),
        Err(_) => None,
    }
}

/// The expanded path of the configuration file: it lies under the home
/// directory of the process, and under a tilde where there is none.
pub fn config_path() -> (path: Option<String>)
    ensures
        path matches Some(p) && ends_with(p@, "/.config/i3/ratiosplit.ini"@),
{
    proof {
        reveal_strlit("~/.config/i3/ratiosplit.ini");
        reveal_strlit("/.config/i3/ratiosplit.ini");
        assert(CONFIG_PATH@.skip(1) =~= "/.config/i3/ratiosplit.ini"@);
    }
    expand(CONFIG_PATH)
}

/// Reads an entry of the section `main`.
pub fn main_value(conf: Option<&Ini>, key: &str) -> (value: Option<String>)
    ensures
        value is Some <==> main_entry(conf, key@) is Some,
        value matches Some(v) ==> Some(v@) == main_entry(conf, key@),
{
    match conf {
        Some(c) => value_in(c, "main", key),
        None => None,
    }
}

/// Reads a level from the section `main`, with a default for a missing or
/// unreadable entry.
pub fn get_level(conf: Option<&Ini>, key: &str, default: LogLevel) -> (level: LogLevel)
    ensures
        level == level_chosen(conf, key@, default),
{
    match main_value(conf, key) {
        None => default,
        Some(name) => match level_from_name(name.as_str()) {
            Some(level) => level,
            None => default,
        },
    }
}

/// The path of the log file as the configuration writes it, or the default.
pub fn log_path(conf: Option<&Ini>) -> (path: String)
    ensures
        path@ == log_path_chosen(conf),
{
    match main_value(conf, "log_file") {
        Some(path) => path,
        None => String::from_str(DEFAULT_LOG_PATH),
    }
}

/// The settings for a configuration, the share read from it and the expanded
/// path of the log file: none where the path could not be expanded.
pub fn settings_with(conf: Option<&Ini>, ratio: Option<u32>, log_file: Option<String>) -> (r:
    Option<Settings>)
    ensures
        r is Some <==> log_file is Some,
        r matches Some(s) ==> s.log_file@ == log_file->0@ && s.ratio == ratio_chosen(conf, ratio)
            && s.log_file_level == level_chosen(conf, "log_file_level"@, DEFAULT_LOG_FILE_LEVEL)
            && s.log_console_level == level_chosen(conf, "log_console_level"@, DEFAULT_LOG_CONSOLE_LEVEL),
{
    match log_file {
        None => None,
        Some(path) => {
            let share = match (conf, ratio) {
                (Some(_), Some(r)) => r,
                _ => DEFAULT_RATIO,
            };
            Some(
                Settings {
                    ratio: share,
                    log_file_level: get_level(conf, "log_file_level", DEFAULT_LOG_FILE_LEVEL),
                    log_file: path,
                    log_console_level: get_level(conf, "log_console_level", DEFAULT_LOG_CONSOLE_LEVEL),
                },
            )
        },
    }
}

/// Chooses the settings. `conf` is the parsed configuration file, none where
/// it is missing or unreadable; `ratio` is the share that its entry `ratio`
/// gives, in hundredths, none where it has no such entry or the entry is no
/// number. The log file's path is expanded in the environment of the process.
/// There are settings for every path that names no variable; for one that
/// does, there are none where the variable is not set.
pub fn load_settings(conf: Option<&Ini>, ratio: Option<u32>) -> (r: Option<Settings>)
    ensures
        !names_variable(log_path_chosen(conf)) ==> r is Some,
        r matches Some(s) ==> s.ratio == ratio_chosen(conf, ratio) && s.log_file_level
            == level_chosen(conf, "log_file_level"@, DEFAULT_LOG_FILE_LEVEL) && s.log_console_level
            == level_chosen(conf, "log_console_level"@, DEFAULT_LOG_CONSOLE_LEVEL),
        r matches Some(s) ==> (!names_variable(log_path_chosen(conf)) ==> expands_to(
            log_path_chosen(conf),
            s.log_file@,
        )),
{
    let written = log_path(conf);
    let expanded = expand(written.as_str());
    settings_with(conf, ratio, expanded)
}

/// The settings where there is no configuration: every default, with the
/// log file under the home directory of the process.
pub fn default_settings() -> (r: Option<Settings>)
    ensures
        r matches Some(s) && s.ratio == DEFAULT_RATIO && s.log_file_level
            == DEFAULT_LOG_FILE_LEVEL && s.log_console_level == DEFAULT_LOG_CONSOLE_LEVEL
            && ends_with(s.log_file@, "/.config/i3/ratiosplit.log"@),
{
    proof {
        reveal_strlit("~/.config/i3/ratiosplit.log");
        reveal_strlit("/.config/i3/ratiosplit.log");
        assert(DEFAULT_LOG_PATH@.skip(1) =~= "/.config/i3/ratiosplit.log"@);
    }
    load_settings(None, None)
}

} // verus!
