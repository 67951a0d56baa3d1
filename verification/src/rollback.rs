//! What goes wrong while something that failed is being undone.

use crate::error::CoreError;
use crate::flags::UpdateFlag;
use vstd::prelude::*;
use vstd::string::*;

verus! {

/// A part of undoing a change of the configuration.
#[derive(Debug, Clone, Copy, PartialEq, Eq, Structural)]
pub enum RollbackPart {
    /// To have the core run on its configuration of before.
    Runtime,
    /// To write the core's configuration of before to the Run file, as a
    /// preparation for `Runtime`.
    RuntimeFile,
    /// To put the ICS recovery target back.
    Service,
    /// To save the core's settings of before.
    ClashFile,
    /// To save the application's settings of before.
    VergeFile,
    /// To do again, for the settings of before, what a change of them has to
    /// be followed by.
    SideEffect(UpdateFlag),
}

impl RollbackPart {
    /// The wording that a failure of the part is reported under.
    pub open spec fn label_wording(self) -> Seq<char> {
        match self {
            RollbackPart::Runtime => "runtime rollback failed: "@,
            RollbackPart::RuntimeFile => "runtime rollback file failed: "@,
            RollbackPart::Service => "service rollback failed: "@,
            RollbackPart::ClashFile => "clash file rollback failed: "@,
            RollbackPart::VergeFile => "verge file rollback failed: "@,
            RollbackPart::SideEffect(flag) => flag.name_wording()
                + " side-effect rollback failed: "@,
        }
    }

    fn label(&self) -> (r: String)
        ensures
            r@ == self.label_wording(),
    {
        match self {
            RollbackPart::Runtime => "runtime rollback failed: ".to_owned(),
            RollbackPart::RuntimeFile => "runtime rollback file failed: ".to_owned(),
            RollbackPart::Service => "service rollback failed: ".to_owned(),
            RollbackPart::ClashFile => "clash file rollback failed: ".to_owned(),
            RollbackPart::VergeFile => "verge file rollback failed: ".to_owned(),
            RollbackPart::SideEffect(flag) => {
                let mut r = flag.name().to_owned();
                r.append(" side-effect rollback failed: ");
                r
            },
        }
    }
}

/// The parts that failed, in the order in which they did.
#[derive(Debug)]
pub enum RollbackFailures {
    Nothing,
    And(Box<RollbackFailures>, RollbackPart, Box<CoreError>),
}

impl RollbackFailures {
    /// The failures, and then one more.
    pub open spec fn and(self, part: RollbackPart, error: CoreError) -> Self {
        RollbackFailures::And(Box::new(self), part, Box::new(error))
    }

    /// The failures, and then how one more part went.
    pub open spec fn and_maybe(self, part: RollbackPart, result: Result<(), CoreError>) -> Self {
        match result {
            Ok(()) => self,
            Err(error) => self.and(part, error),
        }
    }

    /// The wording of the failures: each under its label, in order.
    pub open spec fn wording(self) -> Seq<char>
        decreases self,
    {
        match self {
            RollbackFailures::Nothing => Seq::empty(),
            RollbackFailures::And(earlier, part, error) => (if *earlier is Nothing {
                Seq::empty()
            } else {
                earlier.wording() + "; "@
            }) + part.label_wording() + error.detail_wording(),
        }
    }

    /// The text of the failures.
    pub fn text(&self) -> (r: String)
        ensures
            r@ == self.wording(),
        decreases self,
    {
        match self {
            RollbackFailures::Nothing => String::new(),
            RollbackFailures::And(earlier, part, error) => {
                let mut r = earlier.text();
                match **earlier {
                    RollbackFailures::Nothing => {},
                    _ => {
                        r.append("; ");
                    },
                }
                r.append(part.label().as_str());
                r.append(error.detail().as_str());
                r
            },
        }
    }

    /// Adds how one more part went.
    pub fn after(self, part: RollbackPart, result: Result<(), CoreError>) -> (r: Self)
        ensures
            r == self.and_maybe(part, result),
    {
        match result {
            Ok(()) => self,
            Err(error) => RollbackFailures::And(Box::new(self), part, Box::new(error)),
        }
    }
}

/// `error`, together with what went wrong while undoing what led to it.
pub open spec fn with_failures(error: CoreError, failures: RollbackFailures) -> CoreError {
    if failures is Nothing {
        error
    } else {
        CoreError::Context(crate::error::Message::RollbackErrors { failures }, Box::new(error))
    }
}

/// Puts an error together with what went wrong while undoing what led to it.
pub fn add_failures(error: CoreError, failures: RollbackFailures) -> (r: CoreError)
    ensures
        r == with_failures(error, failures),
{
    match failures {
        RollbackFailures::Nothing => error,
        failures => CoreError::Context(
            crate::error::Message::RollbackErrors { failures },
            Box::new(error),
        ),
    }
}

/// A part that was undone leaves no failure, and one that was not leaves its
/// own, behind those of before.
pub proof fn law_failures_are_those_that_failed(
    failures: RollbackFailures,
    part: RollbackPart,
    error: CoreError,
)
    ensures
        failures.and_maybe(part, Ok(())) == failures,
        failures.and_maybe(part, Err(error)) == RollbackFailures::And(
            Box::new(failures),
            part,
            Box::new(error),
        ),
{
}

/// An error stays what it is where undoing went well; otherwise it is told
/// together with what went wrong while undoing.
pub proof fn law_error_is_kept(error: CoreError, failures: RollbackFailures)
    ensures
        with_failures(error, RollbackFailures::Nothing) == error,
        !(failures is Nothing) ==> with_failures(error, failures) == CoreError::Context(
            crate::error::Message::RollbackErrors { failures },
            Box::new(error),
        ),
        !(failures is Nothing) ==> with_failures(error, failures).detail_wording()
            == "rollback errors: "@ + failures.wording() + ": "@ + error.detail_wording(),
{
    reveal_with_fuel(CoreError::detail_wording, 2);
    reveal_with_fuel(crate::error::Message::wording, 2);
}

/// Every failure is told under the name of its part, one after the other.
pub proof fn law_every_failure_is_told(
    failures: RollbackFailures,
    part: RollbackPart,
    error: CoreError,
)
    ensures
        RollbackFailures::Nothing.and(part, error).wording() == part.label_wording()
            + error.detail_wording(),
        !(failures is Nothing) ==> failures.and(part, error).wording() == failures.wording()
            + "; "@ + part.label_wording() + error.detail_wording(),
{
    reveal_with_fuel(RollbackFailures::wording, 2);
    assert(Seq::<char>::empty() + part.label_wording() =~= part.label_wording());
}

/// Each part is told of under its own name.
pub proof fn law_parts_are_told_by_name(flag: UpdateFlag)
    ensures
        RollbackPart::Runtime.label_wording() == "runtime rollback failed: "@,
        RollbackPart::RuntimeFile.label_wording() == "runtime rollback file failed: "@,
        RollbackPart::Service.label_wording() == "service rollback failed: "@,
        RollbackPart::ClashFile.label_wording() == "clash file rollback failed: "@,
        RollbackPart::VergeFile.label_wording() == "verge file rollback failed: "@,
        RollbackPart::SideEffect(flag).label_wording() == flag.name_wording()
            + " side-effect rollback failed: "@,
{
}

} // verus!
