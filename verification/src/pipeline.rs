//! The pipeline: input resolver, output classifier, aggregator, in that
//! order, into one report or one failure.

use vstd::prelude::*;
use crate::address::{address_of, pays_to};
use crate::aggregator::{aggregate, settlement_of};
use crate::classifier::{
    all_decodable,
    classification_of,
    classify_outputs,
    lemma_change_is_not_recipient,
    lemma_filled_slot_has_address,
};
use crate::error::{Failure, ReportError, Step};
use crate::ledger::{lookup, well_formed, MemoryLedger, Transaction, TransactionModel};
use crate::report::{report_from, ProvenanceReport, ReportModel};
use crate::resolver::{fetched_model, resolution_of, resolve_fetched};
use crate::serializer::{lemma_lines_shape, render, report_lines, report_text};

verus! {

/// What a failure of a step looks like from outside the pipeline.
pub open spec fn failed(step: Step, error: ReportError) -> Result<ReportModel, Failure> {
    Err(Failure { step, error })
}

/// What the pipeline yields for a transaction, given what the lookup of the
/// transaction behind its first input has found, and the recipient's address.
///
/// The steps run in order and the first failure is the outcome; a report
/// comes out only where all three succeed.
pub open spec fn report_of(
    transaction: TransactionModel,
    fetched: Option<TransactionModel>,
    recipient: Seq<char>,
) -> Result<ReportModel, Failure> {
    match resolution_of(transaction.inputs[0], fetched) {
        Err(error) => failed(Step::InputResolver, error),
        Ok(origin) => match classification_of(transaction.outputs, recipient) {
            Err(error) => failed(Step::OutputClassifier, error),
            Ok(slots) => match settlement_of(transaction.confirmation) {
                Err(error) => failed(Step::Aggregator, error),
                Ok(settlement) => Ok(
                    report_from(transaction.txid, origin, slots.recipient, slots.change, settlement),
                ),
            },
        },
    }
}

/// Runs the pipeline on a transaction, given the outcome of the one lookup
/// that the input resolver needs: `fetched` is the transaction that the
/// first input refers to, or `None` where it could not be retrieved.
pub fn assemble_report(
    transaction: &Transaction,
    fetched: Option<&Transaction>,
    recipient: &str,
) -> (outcome: Result<ProvenanceReport, Failure>)
    requires
        transaction@.inputs.len() >= 1,
    ensures
        match outcome {
            Ok(report) => report_of(transaction@, fetched_model(fetched), recipient@) == Ok::<
                ReportModel,
                Failure,
            >(report@),
            Err(failure) => report_of(transaction@, fetched_model(fetched), recipient@) == Err::<
                ReportModel,
                Failure,
            >(failure),
        },
{
    let origin = match resolve_fetched(&transaction.inputs[0], fetched) {
        Ok(origin) => origin,
        Err(error) => {
            return Err(Failure { step: Step::InputResolver, error });
        },
    };
    let slots = match classify_outputs(&transaction.outputs, recipient) {
        Ok(slots) => slots,
        Err(error) => {
            return Err(Failure { step: Step::OutputClassifier, error });
        },
    };
    let settlement = match aggregate(transaction) {
        Ok(settlement) => settlement,
        Err(error) => {
            return Err(Failure { step: Step::Aggregator, error });
        },
    };
    Ok(ProvenanceReport::new(transaction.txid, origin, slots.recipient, slots.change, settlement))
}

/// Runs the pipeline against a ledger held in memory: the transaction behind
/// the first input is looked up there, once.
pub fn build_report(transaction: &Transaction, ledger: &MemoryLedger, recipient: &str) -> (outcome:
    Result<ProvenanceReport, Failure>)
    requires
        transaction@.inputs.len() >= 1,
    ensures
        match outcome {
            Ok(report) => report_of(
                transaction@,
                lookup(ledger@, transaction@.inputs[0].txid),
                recipient@,
            ) == Ok::<ReportModel, Failure>(report@),
            Err(failure) => report_of(
                transaction@,
                lookup(ledger@, transaction@.inputs[0].txid),
                recipient@,
            ) == Err::<ReportModel, Failure>(failure),
        },
{
    match ledger.fetch_transaction(&transaction.inputs[0].txid) {
        Ok(prior) => assemble_report(transaction, Some(prior), recipient),
        Err(_) => assemble_report(transaction, None, recipient),
    }
}

/// Runs the pipeline and renders the report: the text of the artifact, or
/// the failure, after which there is no text to store.
pub fn report_artifact(transaction: &Transaction, ledger: &MemoryLedger, recipient: &str) -> (outcome:
    Result<String, Failure>)
    requires
        transaction@.inputs.len() >= 1,
    ensures
        match outcome {
            Ok(text) => report_of(
                transaction@,
                lookup(ledger@, transaction@.inputs[0].txid),
                recipient@,
            ) matches Ok(report) && text@ == report_text(report),
            Err(failure) => report_of(
                transaction@,
                lookup(ledger@, transaction@.inputs[0].txid),
                recipient@,
            ) == Err::<ReportModel, Failure>(failure),
        },
{
    match build_report(transaction, ledger, recipient) {
        Ok(report) => Ok(render(&report)),
        Err(failure) => Err(failure),
    }
}

/// When a report is owed: the lookup found the spent transaction, the
/// referenced index is among its outputs, that output and every output of
/// the transaction decode, and the transaction is confirmed. On any other
/// input the pipeline fails.
pub open spec fn reportable(
    transaction: TransactionModel,
    fetched: Option<TransactionModel>,
) -> bool {
    &&& fetched matches Some(prior)
    &&& transaction.inputs[0].vout < prior.outputs.len()
    &&& address_of(prior.outputs[transaction.inputs[0].vout as int].script) is Some
    &&& all_decodable(transaction.outputs)
    &&& transaction.confirmation is Confirmed
}

/// The pipeline yields a report exactly on the inputs on which one is owed.
pub proof fn lemma_report_iff_reportable(
    transaction: TransactionModel,
    fetched: Option<TransactionModel>,
    recipient: Seq<char>,
)
    ensures
        report_of(transaction, fetched, recipient) is Ok <==> reportable(transaction, fetched),
{
}

/// Every field of a report is filled and well formed, where the transaction
/// has an output that pays the recipient (`paid`) and one that does not
/// (`other`): the three addresses are not empty, the recipient's is the one
/// asked for, and each of the ten lines of the artifact has at least one
/// character.
pub proof fn lemma_report_fields_filled(
    transaction: TransactionModel,
    fetched: Option<TransactionModel>,
    recipient: Seq<char>,
    paid: int,
    other: int,
)
    requires
        well_formed(transaction),
        reportable(transaction, fetched),
        0 <= paid < transaction.outputs.len(),
        pays_to(transaction.outputs[paid].script, recipient),
        0 <= other < transaction.outputs.len(),
        !pays_to(transaction.outputs[other].script, recipient),
    ensures
        report_of(transaction, fetched, recipient) matches Ok(report) && {
            &&& report.input_address.len() > 0
            &&& report.recipient_address == recipient
            &&& report.recipient_address.len() > 0
            &&& report.change_address.len() > 0
            &&& report.change_address != recipient
            &&& report_lines(report).len() == 10
            &&& forall|i: int| 0 <= i < 10 ==> (#[trigger] report_lines(report)[i]).len() > 0
        },
{
    lemma_filled_slot_has_address(transaction.outputs, recipient, true, paid);
    lemma_filled_slot_has_address(transaction.outputs, recipient, false, other);
    lemma_change_is_not_recipient(transaction.outputs, recipient);
    let report = report_of(transaction, fetched, recipient).unwrap();
    lemma_lines_shape(report);
}

/// One output whose locking script encodes no address aborts the whole
/// pipeline with `AddressDecodeFailure`, once the input has resolved; no
/// report comes out.
pub proof fn lemma_undecodable_output_aborts(
    transaction: TransactionModel,
    fetched: Option<TransactionModel>,
    recipient: Seq<char>,
    i: int,
)
    requires
        resolution_of(transaction.inputs[0], fetched) is Ok,
        0 <= i < transaction.outputs.len(),
        address_of(transaction.outputs[i].script) is None,
    ensures
        report_of(transaction, fetched, recipient) == failed(
            Step::OutputClassifier,
            ReportError::AddressDecodeFailure,
        ),
{
}

/// A transaction that is not confirmed never yields a report: where the
/// earlier steps pass, the aggregator refuses it with `PreconditionViolation`.
pub proof fn lemma_unconfirmed_is_refused(
    transaction: TransactionModel,
    fetched: Option<TransactionModel>,
    recipient: Seq<char>,
)
    requires
        transaction.confirmation is Unconfirmed,
    ensures
        report_of(transaction, fetched, recipient) is Err,
        resolution_of(transaction.inputs[0], fetched) is Ok && all_decodable(transaction.outputs)
            ==> report_of(transaction, fetched, recipient) == failed(
            Step::Aggregator,
            ReportError::PreconditionViolation,
        ),
{
}

/// Each step fails only in its own ways: the input resolver with
/// `LookupFailure`, `IndexOutOfRange` or `AddressDecodeFailure`, the output
/// classifier with `AddressDecodeFailure`, the aggregator with
/// `PreconditionViolation`.
pub proof fn lemma_failure_kinds(
    transaction: TransactionModel,
    fetched: Option<TransactionModel>,
    recipient: Seq<char>,
)
    ensures
        report_of(transaction, fetched, recipient) matches Err(failure) ==> match failure.step {
            Step::InputResolver => failure.error == ReportError::LookupFailure || failure.error
                == ReportError::IndexOutOfRange || failure.error
                == ReportError::AddressDecodeFailure,
            Step::OutputClassifier => failure.error == ReportError::AddressDecodeFailure,
            Step::Aggregator => failure.error == ReportError::PreconditionViolation,
            Step::Serializer => false,
        },
{
}

} // verus!
