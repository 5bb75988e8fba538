use ini::Ini;
use ratiosplit::settings::{
    config_path, default_settings, get_level, load_settings, log_path, main_value, settings_with,
    LogLevel, Settings, CONFIG_PATH, DEFAULT_LOG_CONSOLE_LEVEL, DEFAULT_LOG_FILE_LEVEL,
    DEFAULT_LOG_PATH, DEFAULT_RATIO,
};

fn parsed(text: &str) -> Ini {
    Ini::load_from_str(text).expect("a configuration")
}

#[test]
fn default_share_is_a_third() {
    assert_eq!(DEFAULT_RATIO, 33);
}

#[test]
fn default_levels_and_paths() {
    assert_eq!(DEFAULT_LOG_FILE_LEVEL, LogLevel::Info);
    assert_eq!(DEFAULT_LOG_CONSOLE_LEVEL, LogLevel::Off);
    assert_eq!(DEFAULT_LOG_PATH, "~/.config/i3/ratiosplit.log");
    assert_eq!(CONFIG_PATH, "~/.config/i3/ratiosplit.ini");
}

#[test]
fn configuration_lies_under_the_home_directory() {
    let path = config_path().expect("a path");
    assert!(path.ends_with(".config/i3/ratiosplit.ini"));
}

#[test]
fn missing_file_gives_the_defaults() {
    let settings = load_settings(None, None).expect("settings");
    assert_eq!(settings.ratio, 33);
    assert_eq!(settings.log_file_level, LogLevel::Info);
    assert_eq!(settings.log_console_level, LogLevel::Off);
    assert!(settings.log_file.ends_with(".config/i3/ratiosplit.log"));
    assert_eq!(Some(settings), default_settings());
}

#[test]
fn share_without_a_file_is_ignored() {
    let settings = load_settings(None, Some(50)).expect("settings");
    assert_eq!(settings.ratio, 33);
}

#[test]
fn missing_section_gives_the_defaults() {
    let conf = parsed("[other]\nlog_file_level = trace\nlog_file = /tmp/elsewhere.log\n");
    let settings = load_settings(Some(&conf), None).expect("settings");
    assert_eq!(settings.ratio, 33);
    assert_eq!(settings.log_file_level, LogLevel::Info);
    assert_eq!(settings.log_console_level, LogLevel::Off);
    assert!(settings.log_file.ends_with(".config/i3/ratiosplit.log"));
}

#[test]
fn every_value_is_read_from_the_main_section() {
    let conf = parsed(
        "[main]\nratio = 0.5\nlog_file = /var/log/ratiosplit.log\nlog_file_level = debug\nlog_console_level = warn\n",
    );
    let settings = load_settings(Some(&conf), Some(50)).expect("settings");
    assert_eq!(
        settings,
        Settings {
            ratio: 50,
            log_file_level: LogLevel::Debug,
            log_file: String::from("/var/log/ratiosplit.log"),
            log_console_level: LogLevel::Warn,
        }
    );
}

#[test]
fn unreadable_level_falls_back() {
    let conf = parsed("[main]\nlog_file_level = loud\nlog_console_level = \n");
    assert_eq!(get_level(Some(&conf), "log_file_level", LogLevel::Info), LogLevel::Info);
    assert_eq!(get_level(Some(&conf), "log_console_level", LogLevel::Off), LogLevel::Off);
    assert_eq!(get_level(Some(&conf), "absent", LogLevel::Trace), LogLevel::Trace);
    assert_eq!(get_level(None, "log_file_level", LogLevel::Warn), LogLevel::Warn);
}

#[test]
fn level_names_in_any_case() {
    let names = [
        ("off", LogLevel::Off),
        ("OFF", LogLevel::Off),
        ("Error", LogLevel::Error),
        ("wArN", LogLevel::Warn),
        ("info", LogLevel::Info),
        ("DEBUG", LogLevel::Debug),
        ("Trace", LogLevel::Trace),
    ];
    for (name, level) in names.iter() {
        let conf = parsed(&format!("[main]\nlevel = {}\n", name));
        let default = if *level == LogLevel::Off { LogLevel::Trace } else { LogLevel::Off };
        assert_eq!(get_level(Some(&conf), "level", default), *level, "{}", name);
    }
}

#[test]
fn near_misses_name_no_level() {
    for name in ["inf", "infos", "warning", "0", "tr\u{e4}ce"] {
        let conf = parsed(&format!("[main]\nlevel = {}\n", name));
        assert_eq!(get_level(Some(&conf), "level", LogLevel::Error), LogLevel::Error, "{}", name);
    }
}

#[test]
fn entries_of_the_main_section() {
    let conf = parsed("top = 1\n[main]\nratio = 0.25\nratio = 0.75\n[side]\nratio = 0.9\nonly = here\n");
    assert_eq!(main_value(Some(&conf), "ratio"), Some(String::from("0.25")));
    assert_eq!(main_value(Some(&conf), "only"), None);
    assert_eq!(main_value(Some(&conf), "top"), None);
    assert_eq!(main_value(Some(&conf), "main"), None);
    assert_eq!(main_value(None, "ratio"), None);
}

#[test]
fn log_path_as_written() {
    let conf = parsed("[main]\nlog_file = ~/logs/split.log\n");
    assert_eq!(log_path(Some(&conf)), "~/logs/split.log");
    assert_eq!(log_path(None), "~/.config/i3/ratiosplit.log");
    let other = parsed("[main]\nratio = 0.4\n");
    assert_eq!(log_path(Some(&other)), "~/.config/i3/ratiosplit.log");
}

#[test]
fn settings_need_an_expanded_path() {
    let conf = parsed("[main]\nlog_console_level = error\n");
    assert_eq!(settings_with(Some(&conf), Some(40), None), None);
    assert_eq!(
        settings_with(Some(&conf), Some(40), Some(String::from("/home/u/x.log"))),
        Some(Settings {
            ratio: 40,
            log_file_level: LogLevel::Info,
            log_file: String::from("/home/u/x.log"),
            log_console_level: LogLevel::Error,
        })
    );
    assert_eq!(
        settings_with(Some(&conf), None, Some(String::from("x"))).map(|s| s.ratio),
        Some(33)
    );
}

#[test]
fn plain_path_is_kept_by_expansion() {
    let conf = parsed("[main]\nlog_file = /var/log/split.log\n");
    let settings = load_settings(Some(&conf), None).expect("settings");
    assert_eq!(settings.log_file, "/var/log/split.log");
}

#[test]
fn default_settings_are_always_there() {
    let settings = default_settings().expect("settings");
    assert_eq!(settings.ratio, 33);
    assert_eq!(settings.log_file_level, LogLevel::Info);
    assert_eq!(settings.log_console_level, LogLevel::Off);
    assert!(settings.log_file.ends_with("/.config/i3/ratiosplit.log"));
}

#[test]
fn tilde_path_keeps_all_after_the_tilde() {
    let conf = parsed("[main]\nlog_file = ~/logs/split.log\n");
    let settings = load_settings(Some(&conf), None).expect("settings");
    assert!(settings.log_file.ends_with("/logs/split.log"));
    let other = parsed("[main]\nlog_file = ~someone/split.log\n");
    let kept = load_settings(Some(&other), None).expect("settings");
    assert_eq!(kept.log_file, "~someone/split.log");
}

#[test]
fn relative_and_empty_paths_are_kept() {
    let conf = parsed("[main]\nlog_file = logs/a~b.log\n");
    assert_eq!(load_settings(Some(&conf), None).expect("settings").log_file, "logs/a~b.log");
    let empty = parsed("[main]\nlog_file =\n");
    assert_eq!(load_settings(Some(&empty), None).expect("settings").log_file, "");
}

#[test]
fn unset_variable_in_the_path_gives_no_settings() {
    let conf = parsed("[main]\nlog_file = /tmp/${RATIOSPLIT_UNSET_VARIABLE_7F3A}/split.log\n");
    assert_eq!(log_path(Some(&conf)), "/tmp/${RATIOSPLIT_UNSET_VARIABLE_7F3A}/split.log");
    assert_eq!(load_settings(Some(&conf), Some(50)), None);
}
