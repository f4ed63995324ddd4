//! The ways in which building a provenance report can fail.

use vstd::prelude::*;

verus! {

/// The kinds of failure. Each is fatal to the report being built.
#[derive(Clone, Copy, Debug, PartialEq, Eq, Structural)]
pub enum ReportError {
    /// The transaction that an input spends could not be retrieved.
    LookupFailure,
    /// An input refers to an output index that the spent transaction does not have.
    IndexOutOfRange,
    /// A locking script is not of a pattern that encodes an address.
    AddressDecodeFailure,
    /// Confirmation metadata was asked of a transaction that is not confirmed.
    PreconditionViolation,
    /// The rendered report could not be stored.
    ReportWriteFailure,
}

/// The steps of the pipeline, in the order in which they run.
#[derive(Clone, Copy, Debug, PartialEq, Eq, Structural)]
pub enum Step {
    InputResolver,
    OutputClassifier,
    Aggregator,
    Serializer,
}

/// A failure together with the step in which it arose.
#[derive(Clone, Copy, Debug, PartialEq, Eq, Structural)]
pub struct Failure {
    pub step: Step,
    pub error: ReportError,
}

/// The name of a step, as it appears in messages.
pub open spec fn step_name(step: Step) -> Seq<char> {
    match step {
        Step::InputResolver => "input resolver"@,
        Step::OutputClassifier => "output classifier"@,
        Step::Aggregator => "fee and metadata aggregator"@,
        Step::Serializer => "report serializer"@,
    }
}

/// What went wrong, in words.
pub open spec fn error_text(error: ReportError) -> Seq<char> {
    match error {
        ReportError::LookupFailure => "the spent transaction could not be retrieved"@,
        ReportError::IndexOutOfRange => "the spent transaction has no output at the referenced index"@,
        ReportError::AddressDecodeFailure => "a locking script does not encode an address"@,
        ReportError::PreconditionViolation => "the transaction is not confirmed"@,
        ReportError::ReportWriteFailure => "the report could not be written"@,
    }
}

/// The message of a failure: the step's name, a colon and a space, then what went wrong.
pub open spec fn failure_text(failure: Failure) -> Seq<char> {
    step_name(failure.step) + ": "@ + error_text(failure.error)
}

impl Step {
    /// The step's name.
    pub fn name(&self) -> (text: String)
        ensures
            text@ == step_name(*self),
    {
        match self {
            Step::InputResolver => String::from_str("input resolver"),
            Step::OutputClassifier => String::from_str("output classifier"),
            Step::Aggregator => String::from_str("fee and metadata aggregator"),
            Step::Serializer => String::from_str("report serializer"),
        }
    }
}

impl ReportError {
    /// A sentence fragment that says what went wrong.
    pub fn describe(&self) -> (text: String)
        ensures
            text@ == error_text(*self),
    {
        match self {
            ReportError::LookupFailure => String::from_str(
                "the spent transaction could not be retrieved",
            ),
            ReportError::IndexOutOfRange => String::from_str(
                "the spent transaction has no output at the referenced index",
            ),
            ReportError::AddressDecodeFailure => String::from_str(
                "a locking script does not encode an address",
            ),
            ReportError::PreconditionViolation => String::from_str(
                "the transaction is not confirmed",
            ),
            ReportError::ReportWriteFailure => String::from_str("the report could not be written"),
        }
    }
}

impl Failure {
    /// The message shown to the user: it names the step that failed and says why.
    pub fn describe(&self) -> (text: String)
        ensures
            text@ == failure_text(*self),
    {
        let mut text = self.step.name();
        text.append(": ");
        let reason = self.error.describe();
        text.append(reason.as_str());
        text
    }
}

} // verus!
