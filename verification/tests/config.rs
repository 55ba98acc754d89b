use confirm_overlay::config::{Config, ConfigError, EMPTY_COMMAND_MESSAGE};

#[test]
fn config_keeps_its_three_options() {
    let config = Config::new(
        Some(String::from("delete all files?")),
        String::from("rm -rf /tmp/x"),
        Some(String::from("/etc/overlay/style.css")),
    )
    .unwrap();
    assert_eq!(config.message(), Some("delete all files?"));
    assert_eq!(config.command(), "rm -rf /tmp/x");
    assert_eq!(config.stylesheet(), Some("/etc/overlay/style.css"));
}

#[test]
fn config_with_a_command_alone() {
    let config = Config::new(None, String::from("notify-send hi"), None).unwrap();
    assert_eq!(config.message(), None);
    assert_eq!(config.command(), "notify-send hi");
    assert_eq!(config.stylesheet(), None);
}

#[test]
fn config_keeps_an_empty_message() {
    let config = Config::new(Some(String::new()), String::from("true"), None).unwrap();
    assert_eq!(config.message(), Some(""));
}

#[test]
fn config_accepts_a_command_of_one_character() {
    let config = Config::new(None, String::from(":"), None).unwrap();
    assert_eq!(config.command(), ":");
}

#[test]
fn config_accepts_a_command_of_blanks() {
    let config = Config::new(None, String::from("  "), None).unwrap();
    assert_eq!(config.command(), "  ");
}

#[test]
fn empty_command_is_refused() {
    let refused = Config::new(None, String::new(), None);
    assert_eq!(refused.err(), Some(ConfigError::EmptyCommand));
}

#[test]
fn empty_command_is_refused_whatever_the_other_options() {
    let refused = Config::new(
        Some(String::from("sure?")),
        String::new(),
        Some(String::from("style.css")),
    );
    assert_eq!(refused.err(), Some(ConfigError::EmptyCommand));
}

#[test]
fn config_error_reports_itself() {
    assert_eq!(ConfigError::EmptyCommand.message(), EMPTY_COMMAND_MESSAGE);
    assert_eq!(
        ConfigError::EmptyCommand.message(),
        "the command to run on confirmation is empty."
    );
}
