//! The loader's error taxonomy.
//!
//! Every failure of loading is fatal to the caller; the library reports it
//! as a tagged error with a human-readable message, and the caller decides
//! how to terminate.

use vstd::prelude::*;

use crate::decimal::dec_str;
use crate::decimal::to_decimal;

verus! {

/// Why a configuration could not be loaded.
#[derive(Debug)]
pub enum ConfigError {
    /// The file could not be opened or read; carries a description naming
    /// the path and the underlying failure.
    Io(String),
    /// The text is not a well-formed configuration: a syntax error, a
    /// missing required field, or a field of the wrong type or range.
    Parse(String),
    /// The record is well-formed but the outer lengths of `inputs` and
    /// `targets` differ; carries both observed lengths.
    Validation { n_inputs: usize, n_targets: usize },
}

/// Whether one character sequence occurs contiguously inside another.
pub open spec fn contains_seq(hay: Seq<char>, needle: Seq<char>) -> bool {
    exists|k: int|
        0 <= k && k + needle.len() <= hay.len() && #[trigger] hay.subrange(
            k,
            k + needle.len() as int,
        ) == needle
}

impl ConfigError {
    /// The diagnostic message of an error.
    pub open spec fn spec_message(self) -> Seq<char> {
        match self {
            ConfigError::Io(m) => "Failed to read configuration file: "@ + m@,
            ConfigError::Parse(m) => "Failed to parse configuration file: "@ + m@,
            ConfigError::Validation { n_inputs, n_targets } => (
            "Invalid configuration; number of inputs and outputs should match, but there are "@
                + dec_str(n_inputs as nat) + " inputs and "@ + dec_str(n_targets as nat)
                + " outputs."@),
        }
    }

    /// Renders the diagnostic message.
    pub fn message(&self) -> (r: String)
        ensures
            r@ == self.spec_message(),
    {
        match self {
            ConfigError::Io(m) => String::from_str("Failed to read configuration file: ").concat(
                m.as_str(),
            ),
            ConfigError::Parse(m) => String::from_str(
                "Failed to parse configuration file: ",
            ).concat(m.as_str()),
            ConfigError::Validation { n_inputs, n_targets } => {
                let mut s = String::from_str(
                    "Invalid configuration; number of inputs and outputs should match, but there are ",
                );
                let d_inputs = to_decimal(*n_inputs);
                s.append(d_inputs.as_str());
                s.append(" inputs and ");
                let d_targets = to_decimal(*n_targets);
                s.append(d_targets.as_str());
                s.append(" outputs.");
                s
            },
        }
    }
}

/// A validation error's message states both observed lengths: the decimal
/// rendering of each stands somewhere in the message.
pub proof fn lemma_validation_message_states_lengths(n_inputs: usize, n_targets: usize)
    ensures
        contains_seq(
            ConfigError::Validation { n_inputs, n_targets }.spec_message(),
            dec_str(n_inputs as nat),
        ),
        contains_seq(
            ConfigError::Validation { n_inputs, n_targets }.spec_message(),
            dec_str(n_targets as nat),
        ),
{
    let msg = ConfigError::Validation { n_inputs, n_targets }.spec_message();
    let prefix =
        "Invalid configuration; number of inputs and outputs should match, but there are "@;
    let mid = " inputs and "@;
    let d_inputs = dec_str(n_inputs as nat);
    let d_targets = dec_str(n_targets as nat);
    let k1 = prefix.len() as int;
    assert(msg.subrange(k1, k1 + d_inputs.len() as int) =~= d_inputs);
    assert(contains_seq(msg, d_inputs));
    let k2 = prefix.len() + d_inputs.len() + mid.len();
    assert(msg.subrange(k2 as int, k2 + d_targets.len() as int) =~= d_targets);
    assert(contains_seq(msg, d_targets));
}

} // verus!
