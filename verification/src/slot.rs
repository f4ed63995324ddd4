//! An output as a report shows it: the address it pays and the amount.

use vstd::prelude::*;
use crate::address::{address_of, decode_address};
use crate::error::ReportError;
use crate::ledger::{Output, OutputModel};

verus! {

/// An address and the amount it received.
#[derive(Debug, PartialEq, Eq)]
pub struct Slot {
    pub address: String,
    pub amount: u64,
}

/// The model of a [`Slot`].
pub struct SlotModel {
    pub address: Seq<char>,
    pub amount: nat,
}

impl View for Slot {
    type V = SlotModel;

    open spec fn view(&self) -> SlotModel {
        SlotModel { address: self.address@, amount: self.amount as nat }
    }
}

/// The slot that nothing was assigned to: no address, no amount.
pub open spec fn empty_slot() -> SlotModel {
    SlotModel { address: Seq::empty(), amount: 0 }
}

/// The slot that an output fills: the address it decodes to and its amount.
pub open spec fn slot_of(output: OutputModel) -> SlotModel {
    SlotModel { address: address_of(output.script).unwrap(), amount: output.value }
}

/// What decoding an output yields: its slot, or a failure where its locking
/// script encodes no address.
pub open spec fn decoded_slot(output: OutputModel) -> Result<SlotModel, ReportError> {
    if address_of(output.script) is Some {
        Ok(slot_of(output))
    } else {
        Err(ReportError::AddressDecodeFailure)
    }
}

impl Slot {
    /// A slot that nothing was assigned to.
    pub fn empty() -> (slot: Slot)
        ensures
            slot@ == empty_slot(),
    {
        Slot { address: String::new(), amount: 0 }
    }
}

/// Decodes an output into the address it pays and the amount.
pub fn decode_output(output: &Output) -> (decoded: Result<Slot, ReportError>)
    ensures
        match decoded {
            Ok(slot) => decoded_slot(output@) == Ok::<SlotModel, ReportError>(slot@),
            Err(error) => decoded_slot(output@) == Err::<SlotModel, ReportError>(error),
        },
{
    match decode_address(&output.script_pubkey) {
        Ok(address) => Ok(Slot { address, amount: output.value }),
        Err(error) => Err(error),
    }
}

} // verus!
