//! Choosing the transport variant for a mode.
use vstd::prelude::*;
use crate::mode::TransportMode;

verus! {

/// The transport a server is reached through: a network endpoint on a port, or the
/// process's standard streams (which need a runtime handle of their own).
#[derive(Clone, Copy, Debug, PartialEq, Eq, Structural)]
pub enum TransportKind {
    Network { port: u16 },
    Stream,
}

impl TransportKind {
    /// The mode this variant serves.
    pub fn mode(&self) -> (r: TransportMode)
        ensures
            r == (match *self {
                TransportKind::Network { .. } => TransportMode::Sse,
                TransportKind::Stream => TransportMode::Stdio,
            }),
    {
        match self {
            TransportKind::Network { .. } => TransportMode::Sse,
            TransportKind::Stream => TransportMode::Stdio,
        }
    }
}

/// Picks the transport variant for a mode.
pub struct TransportFactory {}

impl TransportFactory {
    /// The variant for `mode`: a network endpoint on `port`, or the standard streams
    /// (which ignore the port).
    pub fn create(mode: TransportMode, port: u16) -> (r: TransportKind)
        ensures
            r == (match mode {
                TransportMode::Sse => TransportKind::Network { port },
                TransportMode::Stdio => TransportKind::Stream,
            }),
    {
        match mode {
            TransportMode::Sse => TransportKind::Network { port },
            TransportMode::Stdio => TransportKind::Stream,
        }
    }
}

} // verus!
