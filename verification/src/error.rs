//! The reasons for which ingestion stops.

use vstd::prelude::*;
use vstd::string::StringExecFns;
use crate::text::{decimal_digits, push_decimal, push_wide_decimal};

verus! {

/// Why the engine refuses to go on. Every one of them is fatal: the engine
/// never skips a block and never guesses a repair.
#[derive(Debug, PartialEq, Eq)]
pub enum IngestError {
    /// The node endpoint is not `host:port` with a port that fits 16 bits.
    BadEndpoint,
    /// The database could not be reached within the allowed attempts.
    DatabaseUnreachable,
    /// The persisted heights do not add up to the sum of their range.
    InconsistentHeights { expected: u128, stored: u64 },
    /// There is no height after the top one.
    HeightOverflow,
    /// A collaborator reported a failure; the text is its own.
    Upstream(String),
    /// The block has no first transaction, or that transaction lacks the
    /// output that is read.
    MissingOutput,
    /// The second output of the first transaction is not a standard output.
    UnexpectedOutput,
    /// The standard output names a list of stake addresses that is empty.
    NoStakeAddress,
    /// The vote string is not two unsigned integers separated by `", "`.
    MalformedVote,
    /// The tally lacks one of its bookkeeping keys.
    IncompleteTally,
    /// An outcome of the tally is not an unsigned count, or such a count
    /// and a percentage.
    MalformedTally,
    /// The notification stream failed or delivered something other than a
    /// block hash.
    UnexpectedNotification,
    /// The driver answered with an event that the pending action cannot
    /// produce.
    UnexpectedEvent,
}

impl IngestError {
    /// What the log says of the error.
    pub open spec fn message_text(self) -> Seq<char> {
        match self {
            IngestError::BadEndpoint => "Particld IP parsing error."@,
            IngestError::DatabaseUnreachable => "Failed to initialize DB."@,
            IngestError::InconsistentHeights { expected, stored } =>
                "Database is insane! Computed fold: "@ + decimal_digits(expected as nat)
                    + ", stored fold: "@ + decimal_digits(stored as nat),
            IngestError::HeightOverflow => "There is no height after the top one."@,
            IngestError::Upstream(failure) => failure@,
            IngestError::MissingOutput => "The block lacks the output that is read."@,
            IngestError::UnexpectedOutput => "Unexpected type of vout when validating address."@,
            IngestError::NoStakeAddress => "The list of stake addresses is empty."@,
            IngestError::MalformedVote => "Sanity checks for parsed vote stats failed."@,
            IngestError::IncompleteTally => "The tally lacks a bookkeeping key."@,
            IngestError::MalformedTally => "An outcome of the tally is not a count and a percentage."@,
            IngestError::UnexpectedNotification => "Got unexpected value from ZMQ."@,
            IngestError::UnexpectedEvent => "The engine got an answer it did not ask for."@,
        }
    }

    /// What the log says of the error.
    pub fn message(&self) -> (text: String)
        ensures
            text@ == self.message_text(),
    {
        match self {
            IngestError::BadEndpoint => "Particld IP parsing error.".to_owned(),
            IngestError::DatabaseUnreachable => "Failed to initialize DB.".to_owned(),
            IngestError::InconsistentHeights { expected, stored } => {
                let mut text = "Database is insane! Computed fold: ".to_owned();
                push_wide_decimal(&mut text, *expected);
                text.append(", stored fold: ");
                push_decimal(&mut text, *stored);
                text
            },
            IngestError::HeightOverflow => "There is no height after the top one.".to_owned(),
            IngestError::Upstream(failure) => failure.clone(),
            IngestError::MissingOutput => "The block lacks the output that is read.".to_owned(),
            IngestError::UnexpectedOutput => "Unexpected type of vout when validating address.".to_owned(),
            IngestError::NoStakeAddress => "The list of stake addresses is empty.".to_owned(),
            IngestError::MalformedVote => "Sanity checks for parsed vote stats failed.".to_owned(),
            IngestError::IncompleteTally => "The tally lacks a bookkeeping key.".to_owned(),
            IngestError::MalformedTally => "An outcome of the tally is not a count and a percentage.".to_owned(),
            IngestError::UnexpectedNotification => "Got unexpected value from ZMQ.".to_owned(),
            IngestError::UnexpectedEvent => "The engine got an answer it did not ask for.".to_owned(),
        }
    }
}

} // verus!
