//! The lines that a chain of promises writes to its log.

use vstd::prelude::*;

use crate::decimal::{append_decimal, decimal};
use crate::settled::{Outcome, Settled};

verus! {

/// The line logged each time a settled value is handed on along the chain.
pub open spec fn progress_line(outcome: Outcome) -> Seq<char> {
    match outcome {
        Outcome::Success(n) => "Success! Resolved to value "@ + decimal(n),
        Outcome::Failure(message) => "Failure! Rejected to error "@ + message,
    }
}

/// The line logged when the chain ends.
pub open spec fn terminal_line(outcome: Outcome) -> Seq<char> {
    match outcome {
        Outcome::Success(n) => "Resolved to "@ + decimal(n),
        Outcome::Failure(message) => "Rejected to "@ + message,
    }
}

/// Writes the progress line for `settled`.
pub fn progress(settled: &Settled) -> (line: String)
    ensures
        line@ == progress_line(settled@),
{
    match settled {
        Settled::Success(n) => {
            let mut line = String::from_str("Success! Resolved to value ");
            append_decimal(&mut line, *n);
            line
        },
        Settled::Failure(message) => {
            let mut line = String::from_str("Failure! Rejected to error ");
            line.append(message.as_str());
            line
        },
    }
}

/// Writes the terminal line for `settled`.
pub fn terminal(settled: &Settled) -> (line: String)
    ensures
        line@ == terminal_line(settled@),
{
    match settled {
        Settled::Success(n) => {
            let mut line = String::from_str("Resolved to ");
            append_decimal(&mut line, *n);
            line
        },
        Settled::Failure(message) => {
            let mut line = String::from_str("Rejected to ");
            line.append(message.as_str());
            line
        },
    }
}

/// Appends `line` to `log`.
pub fn record(log: &mut Vec<String>, line: String)
    ensures
        final(log).deep_view() == old(log).deep_view().push(line@),
{
    log.push(line);
}

} // verus!
