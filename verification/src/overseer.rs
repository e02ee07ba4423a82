//! What the fog overseer answers to those who ask or command it.

use vstd::prelude::*;
use vstd::string::StringExecFns;

verus! {

/// Whether the overseer acts on what it sees.
#[derive(Clone, Copy, Debug, PartialEq, Eq, Structural)]
pub struct OverseerSwitch {
    pub is_enabled: bool,
}

impl OverseerSwitch {
    /// A switch that is off.
    pub fn new() -> (switch: OverseerSwitch)
        ensures
            !switch.is_enabled,
    {
        OverseerSwitch { is_enabled: false }
    }

    /// Turns the overseer on and says whether it was off.
    pub fn enable(&mut self) -> (r: Result<String, String>)
        ensures
            final(self).is_enabled,
            r is Ok,
            r.unwrap()@ == if old(self).is_enabled {
                "Fog Overseer was already enabled"@
            } else {
                "Fog Overseer was successfully enabled"@
            },
    {
        let was_enabled: bool = self.is_enabled;
        self.is_enabled = true;
        let response_message: &str = if was_enabled {
            "Fog Overseer was already enabled"
        } else {
            "Fog Overseer was successfully enabled"
        };
        Ok(String::from_str(response_message))
    }

    /// Turns the overseer off and says whether it was on.
    pub fn disable(&mut self) -> (r: Result<String, String>)
        ensures
            !final(self).is_enabled,
            r is Ok,
            r.unwrap()@ == if old(self).is_enabled {
                "Fog Overseer was successfully disabled"@
            } else {
                "Fog Overseer was already disabled"@
            },
    {
        let was_enabled: bool = self.is_enabled;
        self.is_enabled = false;
        let response_message: &str = if was_enabled {
            "Fog Overseer was successfully disabled"
        } else {
            "Fog Overseer was already disabled"
        };
        Ok(String::from_str(response_message))
    }

    /// Says whether the overseer is on.
    pub fn get_status(&self) -> (r: Result<String, String>)
        ensures
            r is Ok,
            r.unwrap()@ == if self.is_enabled {
                "Fog Overseer is enabled."@
            } else {
                "Fog Overseer is disabled."@
            },
    {
        let response_message: &str = if self.is_enabled {
            "Fog Overseer is enabled."
        } else {
            "Fog Overseer is disabled."
        };
        Ok(String::from_str(response_message))
    }
}

/// What asking one ingest node for its summary came to.
pub enum IngestAnswer<S> {
    /// The node answered, and its answer reads as a summary.
    Summary(S),
    /// The node answered, and its answer does not read as a summary; the
    /// reason is given.
    Malformed(String),
    /// The node did not answer; the reason is given.
    Unreachable(String),
}

/// What the overseer reports of one ingest node.
pub open spec fn ingest_summary_of<S>(uri: Seq<char>, answer: IngestAnswer<S>) -> Result<
    S,
    Seq<char>,
> {
    match answer {
        IngestAnswer::Summary(summary) => Ok(summary),
        IngestAnswer::Malformed(err) => Err(
            "Could not construct ingest summary for "@ + uri + ": "@ + err@,
        ),
        IngestAnswer::Unreachable(err) => Err(
            "Unable to retrieve ingest summary for node ("@ + uri + "): "@ + err@,
        ),
    }
}

/// The summary of an ingest node, or the message that says why there is
/// none.
pub fn ingest_summary<S>(uri: &str, answer: IngestAnswer<S>) -> (r: Result<S, String>)
    ensures
        match ingest_summary_of(uri@, answer) {
            Ok(summary) => r == Ok::<S, String>(summary),
            Err(message) => r is Err && r->Err_0@ == message,
        },
{
    match answer {
        IngestAnswer::Summary(summary) => Ok(summary),
        IngestAnswer::Malformed(err) => Err(
            String::from_str("Could not construct ingest summary for ").concat(uri).concat(
                ": ",
            ).concat(err.as_str()),
        ),
        IngestAnswer::Unreachable(err) => Err(
            String::from_str("Unable to retrieve ingest summary for node (").concat(uri).concat(
                "): ",
            ).concat(err.as_str()),
        ),
    }
}

} // verus!
