//! The child process that carries a session: the password-feeding helper
//! wrapped around the SSH client, and the arguments it is started with.

use vstd::prelude::*;
use crate::environment::Environment;

verus! {

/// A program and the arguments to start it with.
#[derive(Debug, PartialEq, Eq)]
pub struct Invocation {
    pub program: String,
    pub args: Vec<String>,
}

/// The mathematical value of an [`Invocation`].
pub struct InvocationView {
    pub program: Seq<char>,
    pub args: Seq<Seq<char>>,
}

impl View for Invocation {
    type V = InvocationView;

    open spec fn view(&self) -> InvocationView {
        InvocationView {
            program: self.program@,
            args: Seq::new(self.args@.len(), |i: int| self.args@[i]@),
        }
    }
}

/// The arguments that open a shell on the jump host of `environment`: the
/// password for the helper, then the client with a forced terminal, host-key
/// checking switched off, the port and the host.
pub open spec fn shell_arguments(environment: Environment, password: Seq<char>) -> Seq<Seq<char>> {
    seq![
        "-p"@,
        password,
        "ssh"@,
        "-t"@,
        "-o"@,
        "StrictHostKeyChecking=no"@,
        "-p"@,
        environment.port(),
        environment.host(),
    ]
}

/// The invocation for a session against `environment`. With a `command` the
/// jump host runs it in place of a shell.
pub open spec fn ssh_invocation(
    environment: Environment,
    password: Seq<char>,
    command: Option<Seq<char>>,
) -> InvocationView {
    InvocationView {
        program: "sshpass"@,
        args: match command {
            Some(inner) => shell_arguments(environment, password).push(inner),
            None => shell_arguments(environment, password),
        },
    }
}

impl Invocation {
    /// Builds the invocation for a session against `environment`,
    /// authenticated with `password`, running `command` if there is one.
    pub fn ssh(
        environment: Environment,
        password: String,
        command: Option<String>,
    ) -> (invocation: Invocation)
        ensures
            invocation@ == ssh_invocation(
                environment,
                password@,
                match command {
                    Some(inner) => Some(inner@),
                    None => None,
                },
            ),
    {
        let (host, port, _) = environment.get_ssh_details();
        let mut args: Vec<String> = Vec::new();
        args.push(String::from_str("-p"));
        args.push(password);
        args.push(String::from_str("ssh"));
        args.push(String::from_str("-t"));
        args.push(String::from_str("-o"));
        args.push(String::from_str("StrictHostKeyChecking=no"));
        args.push(String::from_str("-p"));
        args.push(String::from_str(port));
        args.push(String::from_str(host));
        match command {
            Some(inner) => {
                args.push(inner);
            },
            None => {},
        }
        let invocation = Invocation { program: String::from_str("sshpass"), args };
        assert(invocation@.args =~= ssh_invocation(
            environment,
            password@,
            match command {
                Some(inner) => Some(inner@),
                None => None,
            },
        ).args);
        invocation
    }
}

} // verus!
