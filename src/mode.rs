//! Transport modes and their command-line tokens.
use vstd::prelude::*;
use vstd::string::StringExecFns;

verus! {

/// How the server talks to its client: over a network endpoint (server-sent events)
/// or through the process's standard streams.
#[derive(Clone, Copy, Debug, PartialEq, Eq, Structural)]
pub enum TransportMode {
    Sse,
    Stdio,
}

/// The mode a command-line token names; tokens match exactly, case included.
pub open spec fn mode_of(token: Seq<char>) -> Option<TransportMode> {
    if token == "sse"@ {
        Some(TransportMode::Sse)
    } else if token == "stdio"@ {
        Some(TransportMode::Stdio)
    } else {
        None
    }
}

impl TransportMode {
    /// Parses a mode token: `sse` or `stdio`, nothing else.
    pub fn from_str(token: &str) -> (r: Option<TransportMode>)
        ensures
            r == mode_of(token@),
    {
        proof {
            reveal_strlit("sse");
            reveal_strlit("stdio");
        }
        let t = String::from_str(token);
        if t == String::from_str("sse") {
            Some(TransportMode::Sse)
        } else if t == String::from_str("stdio") {
            Some(TransportMode::Stdio)
        } else {
            None
        }
    }
}

} // verus!
