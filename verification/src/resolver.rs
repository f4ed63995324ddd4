//! The input resolver: one hop back from the first input to the output it
//! spends.

use vstd::prelude::*;
use crate::error::ReportError;
use crate::ledger::{lookup, Input, InputModel, MemoryLedger, Transaction, TransactionModel};
use crate::slot::{decode_output, decoded_slot, Slot, SlotModel};

verus! {

/// The model of a transaction that a lookup may or may not have found.
pub open spec fn fetched_model(fetched: Option<&Transaction>) -> Option<TransactionModel> {
    match fetched {
        Some(transaction) => Some(transaction@),
        None => None,
    }
}

/// What resolving `input` yields, given what the lookup of the transaction
/// it refers to has found.
pub open spec fn resolution_of(input: InputModel, fetched: Option<TransactionModel>) -> Result<
    SlotModel,
    ReportError,
> {
    match fetched {
        None => Err(ReportError::LookupFailure),
        Some(prior) => if input.vout >= prior.outputs.len() {
            Err(ReportError::IndexOutOfRange)
        } else {
            decoded_slot(prior.outputs[input.vout as int])
        },
    }
}

/// The input whose origin a report shows: the first, if there is any.
pub fn first_input(transaction: &Transaction) -> (first: Option<&Input>)
    ensures
        match first {
            Some(input) => transaction@.inputs.len() > 0 && input@ == transaction@.inputs[0],
            None => transaction@.inputs.len() == 0,
        },
{
    if transaction.inputs.len() > 0 {
        Some(&transaction.inputs[0])
    } else {
        None
    }
}

/// Resolves an input against the outcome of the one lookup it needs.
///
/// `fetched` is the transaction that the input refers to, or `None` where it
/// could not be retrieved. The result is the address and amount of the
/// output at the referenced index. Fails with `LookupFailure` where nothing
/// was retrieved, with `IndexOutOfRange` where the index is not below the
/// number of outputs, and with `AddressDecodeFailure` where the output's
/// locking script encodes no address.
pub fn resolve_fetched(input: &Input, fetched: Option<&Transaction>) -> (resolved: Result<
    Slot,
    ReportError,
>)
    ensures
        match resolved {
            Ok(origin) => resolution_of(input@, fetched_model(fetched)) == Ok::<
                SlotModel,
                ReportError,
            >(origin@),
            Err(error) => resolution_of(input@, fetched_model(fetched)) == Err::<
                SlotModel,
                ReportError,
            >(error),
        },
{
    match fetched {
        None => Err(ReportError::LookupFailure),
        Some(prior) => {
            let index = input.vout as usize;
            if index >= prior.outputs.len() {
                Err(ReportError::IndexOutOfRange)
            } else {
                decode_output(&prior.outputs[index])
            }
        },
    }
}

/// Resolves an input against a ledger held in memory: looks the referenced
/// transaction up, once, and resolves against what was found.
pub fn resolve_input(input: &Input, ledger: &MemoryLedger) -> (resolved: Result<Slot, ReportError>)
    ensures
        match resolved {
            Ok(origin) => resolution_of(input@, lookup(ledger@, input@.txid)) == Ok::<
                SlotModel,
                ReportError,
            >(origin@),
            Err(error) => resolution_of(input@, lookup(ledger@, input@.txid)) == Err::<
                SlotModel,
                ReportError,
            >(error),
        },
{
    match ledger.fetch_transaction(&input.txid) {
        Ok(prior) => resolve_fetched(input, Some(prior)),
        Err(_) => resolve_fetched(input, None),
    }
}

} // verus!
