//! The ways in which a session can fail, and the text shown for each.

use vstd::prelude::*;
use crate::environment::Environment;

verus! {

/// Why a session did not run to a clean end. Every failure is final: nothing
/// is retried.
#[derive(Debug, PartialEq, Eq)]
pub enum ConnectError {
    /// The password could not be read; the payload is the reader's own account.
    PasswordRead(String),
    /// The environment has no connection method for a service target.
    Unimplemented,
    /// The child process could not be started; the payload is the system's
    /// own account.
    Spawn(String),
    /// The child process ended with anything but a zero exit code. `service`
    /// is the pod's name where the session had a target.
    ConnectionFailed { environment: Environment, service: Option<String> },
}

/// The mathematical value of a [`ConnectError`].
pub enum ConnectErrorView {
    PasswordRead(Seq<char>),
    Unimplemented,
    Spawn(Seq<char>),
    ConnectionFailed { environment: Environment, service: Option<Seq<char>> },
}

impl View for ConnectError {
    type V = ConnectErrorView;

    open spec fn view(&self) -> ConnectErrorView {
        match self {
            ConnectError::PasswordRead(detail) => ConnectErrorView::PasswordRead(detail@),
            ConnectError::Unimplemented => ConnectErrorView::Unimplemented,
            ConnectError::Spawn(detail) => ConnectErrorView::Spawn(detail@),
            ConnectError::ConnectionFailed { environment, service } => {
                ConnectErrorView::ConnectionFailed {
                    environment: *environment,
                    service: match service {
                        Some(name) => Some(name@),
                        None => None,
                    },
                }
            },
        }
    }
}

impl ConnectErrorView {
    /// The text shown to the user.
    pub open spec fn message(self) -> Seq<char> {
        match self {
            ConnectErrorView::PasswordRead(detail) => detail,
            ConnectErrorView::Unimplemented => {
                "Prod environment is not yet implemented. Please add custom connection logic here."@
            },
            ConnectErrorView::Spawn(detail) => detail,
            ConnectErrorView::ConnectionFailed { environment, service: Some(name) } => {
                "Connection to "@ + environment.display_name() + " or service "@ + name + " failed"@
            },
            ConnectErrorView::ConnectionFailed { environment, service: None } => {
                "Connection to "@ + environment.display_name() + " failed"@
            },
        }
    }
}

impl ConnectError {
    /// Renders the text shown to the user.
    pub fn message(&self) -> (text: String)
        ensures
            text@ == self@.message(),
    {
        match self {
            ConnectError::PasswordRead(detail) => detail.clone(),
            ConnectError::Unimplemented => String::from_str(
                "Prod environment is not yet implemented. Please add custom connection logic here.",
            ),
            ConnectError::Spawn(detail) => detail.clone(),
            ConnectError::ConnectionFailed { environment, service } => {
                let (_, _, display_name) = environment.get_ssh_details();
                let mut text = String::from_str("Connection to ");
                text.append(display_name);
                match service {
                    Some(name) => {
                        text.append(" or service ");
                        text.append(name.as_str());
                    },
                    None => {},
                }
                text.append(" failed");
                text
            },
        }
    }
}

} // verus!
