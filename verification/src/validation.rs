//! What checking a configuration comes to.

use crate::error::{CoreError, Message};
use vstd::prelude::*;

verus! {

/// Why a configuration was not checked.
#[derive(Debug, Clone, Copy, PartialEq, Eq, Structural)]
pub enum ValidationSkipReason {
    Exiting,
    Debounced,
}

/// What checking a configuration came to.
#[derive(Debug)]
pub enum ValidationOutcome {
    Valid,
    Invalid { message: String },
    Skipped { reason: ValidationSkipReason },
    /// Another change of the configuration is under way.
    Busy,
}

impl ValidationOutcome {
    /// Whether the configuration was checked and found good.
    pub fn is_valid(&self) -> (r: bool)
        ensures
            r == (*self is Valid),
    {
        match self {
            ValidationOutcome::Valid => true,
            _ => false,
        }
    }
}

/// Whether an outcome is a success; `wording` is how an outcome that is not is
/// told.
pub open spec fn outcome_result(outcome: ValidationOutcome, wording: String) -> Result<
    (),
    CoreError,
> {
    if outcome is Valid {
        Ok(())
    } else {
        Err(CoreError::Plain(Message::Outcome { text: wording }))
    }
}

/// Makes an outcome that is not a success an error.
pub fn validation_outcome_to_result(outcome: &ValidationOutcome, wording: String) -> (r: Result<
    (),
    CoreError,
>)
    ensures
        r == outcome_result(*outcome, wording),
{
    if outcome.is_valid() {
        Ok(())
    } else {
        Err(CoreError::Plain(Message::Outcome { text: wording }))
    }
}

/// A configuration passes exactly where it was checked and found good; what
/// else came of the check is told in its own words.
pub proof fn law_only_a_valid_outcome_passes(outcome: ValidationOutcome, wording: String)
    ensures
        outcome is Valid <==> outcome_result(outcome, wording) is Ok,
        !(outcome is Valid) ==> outcome_result(outcome, wording) == Err::<(), CoreError>(
            CoreError::Plain(Message::Outcome { text: wording }),
        ),
{
}

} // verus!
