//! The commands of the tool, as plain values, and the checks a start request must pass
//! before anything is allocated.
use vstd::prelude::*;
use vstd::string::StringExecFns;
use crate::error::Error;
use crate::mode::{mode_of, TransportMode};

verus! {

/// The tool's command line: a debug switch and at most one command.
#[derive(Debug)]
pub struct Cli {
    pub debug: bool,
    pub command: Option<Commands>,
}

/// The tool's commands.
#[derive(Debug)]
pub enum Commands {
    /// Run a server.
    Run(StartCommand),
    /// List running servers.
    List,
    /// Stop the server of this name.
    Stop(String),
    /// Remove the server of this name.
    Remove(String),
}

/// A request to start a server in the background: its transport token (`sse` or
/// `stdio`), its name, the port to expose, the permission profile (`stdio`, `network`
/// or a file path), the image, and the arguments handed to the server.
#[derive(Clone, Debug)]
pub struct StartCommand {
    pub transport: String,
    pub name: String,
    pub port: Option<u16>,
    pub permission_profile: String,
    pub image: String,
    pub args: Vec<String>,
}

/// The complaint about a start request's transport and port, if it has one: an
/// unknown token, or a network transport without a port.
pub open spec fn argument_problem(transport: Seq<char>, port: Option<u16>) -> Option<Seq<char>> {
    match mode_of(transport) {
        None => Some("Invalid transport mode: "@ + transport + ". Valid modes are: sse, stdio"@),
        Some(TransportMode::Sse) => if port is None {
            Some("Port is required for SSE transport"@)
        } else {
            None
        },
        Some(TransportMode::Stdio) => None,
    }
}

/// The port a launch works with: the one given, or zero.
pub open spec fn port_or_zero(port: Option<u16>) -> u16 {
    match port {
        Some(p) => p,
        None => 0,
    }
}

/// Any token but `sse` and `stdio` is refused; a network transport is refused
/// without a port and accepted with any port from 1 up; a stream transport is accepted
/// with or without one.
pub proof fn lemma_argument_rules(transport: Seq<char>, port: Option<u16>)
    ensures
        mode_of(transport) is None ==> argument_problem(transport, port) is Some,
        mode_of(transport) == Some(TransportMode::Sse) && port is None
            ==> argument_problem(transport, port) is Some,
        mode_of(transport) == Some(TransportMode::Sse) && (port matches Some(p) && p >= 1)
            ==> argument_problem(transport, port) is None,
        mode_of(transport) == Some(TransportMode::Stdio) ==> argument_problem(transport, port) is None,
        mode_of(transport) is Some <==> (transport == "sse"@ || transport == "stdio"@),
{
    reveal_strlit("sse");
    reveal_strlit("stdio");
}

impl StartCommand {
    /// Checks the transport token and the port: the mode and the port to use, or
    /// `InvalidArgument` with the complaint.
    pub fn validate(&self) -> (r: Result<(TransportMode, u16), Error>)
        ensures
            match r {
                Ok((m, p)) => argument_problem(self.transport@, self.port) is None
                    && mode_of(self.transport@) == Some(m) && p == port_or_zero(self.port),
                Err(e) => match argument_problem(self.transport@, self.port) {
                    Some(msg) => e is InvalidArgument && e->InvalidArgument_0@ == msg,
                    None => false,
                },
            },
    {
        proof {
            reveal_strlit("Invalid transport mode: ");
            reveal_strlit(". Valid modes are: sse, stdio");
            reveal_strlit("Port is required for SSE transport");
        }
        match TransportMode::from_str(self.transport.as_str()) {
            None => {
                let msg = String::from_str("Invalid transport mode: ").concat(
                    self.transport.as_str(),
                ).concat(". Valid modes are: sse, stdio");
                Err(Error::InvalidArgument(msg))
            },
            Some(TransportMode::Sse) => match self.port {
                Some(p) => Ok((TransportMode::Sse, p)),
                None => Err(
                    Error::InvalidArgument(String::from_str("Port is required for SSE transport")),
                ),
            },
            Some(TransportMode::Stdio) => match self.port {
                Some(p) => Ok((TransportMode::Stdio, p)),
                None => Ok((TransportMode::Stdio, 0)),
            },
        }
    }
}

} // verus!
