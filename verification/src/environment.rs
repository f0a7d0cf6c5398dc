//! The registry of environments: a closed set of deployment targets, each
//! with a fixed jump host, SSH port and display name.

use vstd::prelude::*;

verus! {

/// A deployment target that a session can be opened against.
#[derive(Clone, Copy, Debug, PartialEq, Eq, Structural)]
pub enum Environment {
    QA,
    RFS,
    Prod,
}

impl Environment {
    /// The jump host, written as `user@address`.
    pub open spec fn host(self) -> Seq<char> {
        match self {
            Environment::QA => "yash.sakle@192.168.171.74"@,
            Environment::RFS => "yash.sakle@172.16.6.15"@,
            Environment::Prod => "yash.sakle@172.16.3.21"@,
        }
    }

    /// The SSH port of the jump host, in decimal.
    pub open spec fn port(self) -> Seq<char> {
        match self {
            Environment::QA => "7777"@,
            Environment::RFS => "7777"@,
            Environment::Prod => "22"@,
        }
    }

    /// The name under which the environment is shown to the user.
    pub open spec fn display_name(self) -> Seq<char> {
        match self {
            Environment::QA => "QA"@,
            Environment::RFS => "RFS"@,
            Environment::Prod => "Prod"@,
        }
    }

    /// Resolves the environment to its jump host, port and display name.
    ///
    /// Every environment has an entry, so there is no failure case, and the
    /// answer depends on the environment alone.
    pub fn get_ssh_details(&self) -> (details: (&str, &str, &str))
        ensures
            details.0@ == self.host(),
            details.1@ == self.port(),
            details.2@ == self.display_name(),
    {
        match self {
            Environment::QA => ("yash.sakle@192.168.171.74", "7777", "QA"),
            Environment::RFS => ("yash.sakle@172.16.6.15", "7777", "RFS"),
            Environment::Prod => ("yash.sakle@172.16.3.21", "22", "Prod"),
        }
    }
}

} // verus!
