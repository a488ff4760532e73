//! The command error taxonomy: input-validation failures are hard command
//! errors; transport failures are recovered as document content elsewhere,
//! while a JSON parse failure or a missing repository URL is a hard error.

use vstd::prelude::*;
use vstd::string::*;

verus! {

/// A hard command failure, surfaced to the host as an error rather than
/// as document content.
#[derive(Debug)]
pub enum CommandError {
    /// The command name is not registered; carries the offending name.
    UnknownCommand(String),
    /// The argument list was empty; carries the command's own message.
    MissingArgument(String),
    /// The fixed-choice command was invoked with no argument.
    NoSelection,
    /// The fixed-choice command's argument is outside the closed set;
    /// carries the offending value.
    InvalidOption(String),
    /// The registry metadata document could not be parsed; carries the
    /// full message.
    JsonParse(String),
    /// None of the repository keys of the registry metadata held a string.
    RepositoryUrlNotFound,
}

/// Validation errors reject the invocation itself; the others arise while
/// a command is running.
pub open spec fn is_validation_error(e: CommandError) -> bool {
    match e {
        CommandError::UnknownCommand(_) => true,
        CommandError::MissingArgument(_) => true,
        CommandError::NoSelection => true,
        CommandError::InvalidOption(_) => true,
        CommandError::JsonParse(_) => false,
        CommandError::RepositoryUrlNotFound => false,
    }
}

/// The message shown to the host for each error.
pub open spec fn error_message_view(e: CommandError) -> Seq<char> {
    match e {
        CommandError::UnknownCommand(name) => "unknown slash command: \""@ + name@ + "\""@,
        CommandError::MissingArgument(msg) => msg@,
        CommandError::NoSelection => "no option selected"@,
        CommandError::InvalidOption(value) => "invalid option: \""@ + value@ + "\""@,
        CommandError::JsonParse(msg) => msg@,
        CommandError::RepositoryUrlNotFound => "GitHub URL not found"@,
    }
}

impl CommandError {
    /// Renders the error as the message string the host displays.
    pub fn message(&self) -> (r: String)
        ensures
            r@ == error_message_view(*self),
    {
        match self {
            CommandError::UnknownCommand(name) => String::from_str(
                "unknown slash command: \"",
            ).concat(name.as_str()).concat("\""),
            CommandError::MissingArgument(msg) => msg.clone(),
            CommandError::NoSelection => String::from_str("no option selected"),
            CommandError::InvalidOption(value) => String::from_str("invalid option: \"").concat(
                value.as_str(),
            ).concat("\""),
            CommandError::JsonParse(msg) => msg.clone(),
            CommandError::RepositoryUrlNotFound => String::from_str("GitHub URL not found"),
        }
    }
}

} // verus!
