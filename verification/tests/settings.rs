use dungeon_rs::config::{Configuration, LogConfiguration, LogLevel};
use dungeon_rs::i18n::{I18nPlugin, Locale};

#[test]
fn log_configuration_default() {
    let c = LogConfiguration::default();
    assert_eq!(c.filter, "io=trace");
    assert_eq!(c.level, "info");
    assert_eq!(c.output, None);
    assert_eq!(c.log_level(), LogLevel::Info);
}

fn level_of(text: &str) -> LogLevel {
    LogConfiguration { filter: String::new(), level: text.to_string(), output: None }.log_level()
}

#[test]
fn log_levels_are_case_insensitive() {
    assert_eq!(level_of("trace"), LogLevel::Trace);
    assert_eq!(level_of("DEBUG"), LogLevel::Debug);
    assert_eq!(level_of("Warn"), LogLevel::Warn);
    assert_eq!(level_of("eRRor"), LogLevel::Error);
}

#[test]
fn log_levels_by_number() {
    assert_eq!(level_of("1"), LogLevel::Error);
    assert_eq!(level_of("5"), LogLevel::Trace);
    assert_eq!(level_of("+2"), LogLevel::Warn);
    assert_eq!(level_of("004"), LogLevel::Debug);
}

#[test]
fn invalid_log_level_falls_back_to_info() {
    assert_eq!(level_of("verbose"), LogLevel::Info);
    assert_eq!(level_of(""), LogLevel::Info);
    assert_eq!(level_of("6"), LogLevel::Info);
    assert_eq!(level_of("warning"), LogLevel::Info);
}

#[test]
fn configuration_default_is_empty() {
    let c = Configuration::default();
    assert!(c.recents.is_empty());
    assert_eq!(c.libraries.len(), 0);
    assert_eq!(c.logging.level, "info");
}

#[test]
fn locale_starts_in_english() {
    assert_eq!(Locale::new().language(), "en-GB");
}

#[test]
fn initialise_language_keeps_the_given_language() {
    let mut locale = Locale::new();
    let r = locale.initialise_language(&Some("fr-FR".to_string()), Some("nl-NL".to_string()));
    assert_eq!(r, Ok("fr-FR".to_string()));
    assert_eq!(locale.language(), "fr-FR");
}

#[test]
fn initialise_language_falls_back_to_the_system_locale() {
    let mut locale = Locale::new();
    let r = locale.initialise_language(&None, Some("nl-NL".to_string()));
    assert_eq!(r, Ok("nl-NL".to_string()));
    assert_eq!(locale.language(), "nl-NL");
}

#[test]
fn initialise_language_without_any_language_fails() {
    let mut locale = Locale::new();
    let r = locale.initialise_language(&None, None);
    assert_eq!(r, Err("Failed to get system locale".to_string()));
    assert_eq!(locale.language(), "en-GB");
}

#[test]
fn initialise_language_canonicalises() {
    let mut locale = Locale::new();
    let r = locale.initialise_language(&None, Some("EN-us".to_string()));
    assert_eq!(r, Ok("en-US".to_string()));
}

#[test]
fn initialise_language_without_system_locale_keeps_the_given_one() {
    let mut locale = Locale::new();
    let r = locale.initialise_language(&Some("de-DE".to_string()), None);
    assert_eq!(r, Ok("de-DE".to_string()));
    assert_eq!(locale.language(), "de-DE");
}

#[test]
fn initialise_language_rejects_unreadable_languages() {
    let mut locale = Locale::new();
    let r = locale.initialise_language(&Some("not a language!".to_string()), Some("nl-NL".to_string()));
    assert_eq!(r, Err("Failed to parse locale".to_string()));
    assert_eq!(locale.language(), "en-GB");
}

#[test]
fn i18n_plugin_keeps_the_language() {
    assert_eq!(I18nPlugin::new(&Some("en-GB".to_string())).language, Some("en-GB".to_string()));
    assert_eq!(I18nPlugin::new(&None).language, None);
}

#[test]
fn log_filter_text_follows_the_default_filter() {
    let c = LogConfiguration::default();
    assert_eq!(c.filter_text("wgpu=error"), "wgpu=error,io=trace");
}

#[test]
fn log_files_go_to_the_working_directory_by_default() {
    let mut c = LogConfiguration::default();
    assert_eq!(c.output_folder(), ".");
    c.output = Some("/var/log/drs".to_string());
    assert_eq!(c.output_folder(), "/var/log/drs");
}

#[test]
fn missing_configuration_file_gives_the_default() {
    let c = Configuration::load(None).unwrap();
    assert_eq!(c.version, dungeon_rs::config::VERSION);
    assert!(c.recents.is_empty());
    let failed = Configuration::load(Some(Err(dungeon_rs::config::ConfigurationError::Deserialize("bad".to_string()))));
    let error = failed.unwrap_err();
    assert_eq!(error.message(), "Failed to deserialize config file");
}
