//! The startup configuration of one confirmation run.

use vstd::prelude::*;
use vstd::string::StringExecFns;

verus! {

/// Why a configuration was refused.
#[derive(Clone, Copy, Debug, PartialEq, Eq, Structural)]
pub enum ConfigError {
    /// The command line to run on confirmation was empty.
    EmptyCommand,
}

/// What the user is told when the command is empty.
pub const EMPTY_COMMAND_MESSAGE: &'static str = "the command to run on confirmation is empty.";

impl ConfigError {
    /// The text that reports this error to the user.
    pub fn message(&self) -> (r: String)
        ensures
            r@ == EMPTY_COMMAND_MESSAGE@,
    {
        match self {
            ConfigError::EmptyCommand => String::from_str(EMPTY_COMMAND_MESSAGE),
        }
    }
}

/// What a `Config` holds, as mathematical values.
pub struct ConfigView {
    /// The text to display, if one was given.
    pub message: Option<Seq<char>>,
    /// The shell command line to run on confirmation.
    pub command: Seq<char>,
    /// The path of a custom stylesheet, if one was given.
    pub stylesheet: Option<Seq<char>>,
}

/// The characters of an optional text.
pub open spec fn text_view(text: Option<String>) -> Option<Seq<char>> {
    match text {
        Some(s) => Some(s@),
        None => None,
    }
}

/// The configuration of one run: built once, never changed afterwards.
/// Its command is never empty.
#[derive(Debug)]
pub struct Config {
    message: Option<String>,
    command: String,
    stylesheet: Option<String>,
}

impl View for Config {
    type V = ConfigView;

    closed spec fn view(&self) -> ConfigView {
        ConfigView {
            message: text_view(self.message),
            command: self.command@,
            stylesheet: text_view(self.stylesheet),
        }
    }
}

impl Config {
    #[verifier::type_invariant]
    spec fn command_is_present(&self) -> bool {
        self.command@.len() > 0
    }

    /// Builds a configuration from its three options. The only input
    /// refused is an empty command.
    pub fn new(message: Option<String>, command: String, stylesheet: Option<String>) -> (r: Result<
        Config,
        ConfigError,
    >)
        ensures
            command@.len() == 0 ==> r == Err::<Config, ConfigError>(ConfigError::EmptyCommand),
            command@.len() > 0 ==> r is Ok && r->Ok_0@ == (ConfigView {
                message: text_view(message),
                command: command@,
                stylesheet: text_view(stylesheet),
            }),
    {
        if command.as_str().is_empty() {
            Err(ConfigError::EmptyCommand)
        } else {
            Ok(Config { message, command, stylesheet })
        }
    }

    /// The text to display, if one was given.
    pub fn message(&self) -> (r: Option<&str>)
        ensures
            r is Some == self@.message is Some,
            r matches Some(s) ==> s@ == self@.message->Some_0,
    {
        match &self.message {
            Some(s) => Some(s.as_str()),
            None => None,
        }
    }

    /// The shell command line to run on confirmation.
    pub fn command(&self) -> (r: &str)
        ensures
            r@ == self@.command,
            r@.len() > 0,
    {
        proof {
            use_type_invariant(self);
        }
        self.command.as_str()
    }

    /// The path of the custom stylesheet; `None` selects the built-in theme.
    pub fn stylesheet(&self) -> (r: Option<&str>)
        ensures
            r is Some == self@.stylesheet is Some,
            r matches Some(s) ==> s@ == self@.stylesheet->Some_0,
    {
        match &self.stylesheet {
            Some(s) => Some(s.as_str()),
            None => None,
        }
    }
}

} // verus!
