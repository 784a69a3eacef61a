use vstd::prelude::*;
use vstd::string::StringExecFns;

verus! {

/// Success or failure response, sent back to a diagnostics client after
/// every operation unless the session is quiet.
#[derive(Clone, Debug, PartialEq, Eq)]
pub enum Outcome {
    /// Operation succeeded.
    Success {
        /// Human-readable message giving additional info and/or stating the effect.
        msg: String,
    },
    /// Operation failed.
    Failure {
        /// Human-readable message describing the failure that occurred.
        reason: String,
    },
}

impl Outcome {
    /// Constructs a new successful outcome.
    pub fn success(msg: &str) -> (r: Outcome)
        ensures
            r matches Outcome::Success { msg: m } && m@ == msg@,
    {
        Outcome::Success { msg: msg.to_owned() }
    }

    /// Constructs a new failed outcome.
    pub fn failed(reason: &str) -> (r: Outcome)
        ensures
            r matches Outcome::Failure { reason: m } && m@ == reason@,
    {
        Outcome::Failure { reason: reason.to_owned() }
    }

    pub open spec fn text(&self) -> Seq<char> {
        match self {
            Outcome::Success { msg } => "OK   "@ + msg@,
            Outcome::Failure { reason } => "ERR  "@ + reason@,
        }
    }

    /// The line shown to an interactive client.
    pub fn to_string(&self) -> (r: String)
        ensures
            r@ == self.text(),
    {
        match self {
            Outcome::Success { msg } => "OK   ".to_owned().concat(msg.as_str()),
            Outcome::Failure { reason } => "ERR  ".to_owned().concat(reason.as_str()),
        }
    }
}

/// Encoding of what is sent to a diagnostics client.
#[derive(Clone, Copy, Debug, PartialEq, Eq, Structural)]
pub enum OutputFormat {
    Interactive,
    Json,
    Bincode,
}

/// Configuration of one diagnostics client connection.
#[derive(Clone, Copy, Debug, PartialEq, Eq, Structural)]
pub struct Session {
    /// Whether or not to suppress the operation outcome.
    pub quiet: bool,
    /// Output format to send to client.
    pub output: OutputFormat,
}

impl Session {
    pub fn new() -> (r: Session)
        ensures
            !r.quiet,
            r.output == OutputFormat::Interactive,
    {
        Session { quiet: false, output: OutputFormat::Interactive }
    }

    /// Applies a `set` command: each given option replaces the session's.
    /// The outcome says whether anything changed.
    pub fn apply_set(&mut self, quiet: Option<bool>, output: Option<OutputFormat>) -> (r: Outcome)
        ensures
            final(self).quiet == (match quiet {
                Some(q) => q,
                None => old(self).quiet,
            }),
            final(self).output == (match output {
                Some(o) => o,
                None => old(self).output,
            }),
            *final(self) != *old(self) ==> (r matches Outcome::Success { msg } && msg@ == "session updated"@),
            *final(self) == *old(self) ==> (r matches Outcome::Success { msg } && msg@ == "session unchanged"@),
    {
        let mut changed = false;
        if let Some(quiet) = quiet {
            changed = changed || self.quiet != quiet;
            self.quiet = quiet;
        }
        if let Some(output) = output {
            changed = changed || self.output != output;
            self.output = output;
        }
        if changed {
            Outcome::success("session updated")
        } else {
            Outcome::success("session unchanged")
        }
    }

    /// The outcome to send, or nothing in quiet mode.
    pub fn outcome_to_send(&self, outcome: Outcome) -> (r: Option<Outcome>)
        ensures
            self.quiet ==> r is None,
            !self.quiet ==> r == Some(outcome),
    {
        if self.quiet {
            None
        } else {
            Some(outcome)
        }
    }
}

} // verus!
