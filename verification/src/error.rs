//! The ways in which a command fails.

use vstd::prelude::*;
use vstd::string::StringExecFns;

verus! {

/// Why a command failed.
#[derive(Clone, Debug, PartialEq, Eq)]
pub enum CommandError {
    /// A handle to a native provider could not be had.
    ProviderInit { action: String, detail: String },
    /// A native operation was asked for and failed.
    ProviderOperation { action: String, detail: String },
    /// A name in the request is not one that the command knows.
    InvalidArgument,
    /// A capture was asked for and no display is there.
    NoDisplay,
}

/// The mathematical value of a [`CommandError`].
pub ghost enum ErrorModel {
    ProviderInit { action: Seq<char>, detail: Seq<char> },
    ProviderOperation { action: Seq<char>, detail: Seq<char> },
    InvalidArgument,
    NoDisplay,
}

impl View for CommandError {
    type V = ErrorModel;

    open spec fn view(&self) -> ErrorModel {
        match *self {
            CommandError::ProviderInit { action, detail } => ErrorModel::ProviderInit {
                action: action@,
                detail: detail@,
            },
            CommandError::ProviderOperation { action, detail } => ErrorModel::ProviderOperation {
                action: action@,
                detail: detail@,
            },
            CommandError::InvalidArgument => ErrorModel::InvalidArgument,
            CommandError::NoDisplay => ErrorModel::NoDisplay,
        }
    }
}

/// The text that the caller of a failed command is shown.
pub open spec fn message_of(error: ErrorModel) -> Seq<char> {
    match error {
        ErrorModel::ProviderInit { action, detail } => action + " failed: "@ + detail,
        ErrorModel::ProviderOperation { action, detail } => action + " failed: "@ + detail,
        ErrorModel::InvalidArgument => "Invalid button"@,
        ErrorModel::NoDisplay => "No screen found"@,
    }
}

impl CommandError {
    /// The failure of the native operation named `action`, with what the
    /// provider said of it.
    pub fn operation(action: &str, detail: &str) -> (error: CommandError)
        ensures
            error@ == (ErrorModel::ProviderOperation { action: action@, detail: detail@ }),
    {
        CommandError::ProviderOperation {
            action: String::from_str(action),
            detail: String::from_str(detail),
        }
    }

    /// The failure to acquire a provider, `action` naming what was tried.
    pub fn init(action: &str, detail: &str) -> (error: CommandError)
        ensures
            error@ == (ErrorModel::ProviderInit { action: action@, detail: detail@ }),
    {
        CommandError::ProviderInit {
            action: String::from_str(action),
            detail: String::from_str(detail),
        }
    }

    /// The text that the caller of the failed command is shown.
    pub fn message(&self) -> (text: String)
        ensures
            text@ == message_of(self@),
    {
        match self {
            CommandError::ProviderInit { action, detail } => {
                let mut text = String::from_str(action.as_str());
                text.append(" failed: ");
                text.append(detail.as_str());
                text
            },
            CommandError::ProviderOperation { action, detail } => {
                let mut text = String::from_str(action.as_str());
                text.append(" failed: ");
                text.append(detail.as_str());
                text
            },
            CommandError::InvalidArgument => String::from_str("Invalid button"),
            CommandError::NoDisplay => String::from_str("No screen found"),
        }
    }
}

} // verus!
