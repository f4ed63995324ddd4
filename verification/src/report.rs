//! The provenance report: the ten fields that the pipeline derives.

use vstd::prelude::*;
use crate::aggregator::{Settlement, SettlementModel};
use crate::ledger::{BlockHash, Txid};
use crate::slot::{Slot, SlotModel};

verus! {

/// The provenance of one confirmed transaction. A report is built once, from
/// all of its parts, and offers no way to change it afterwards.
#[derive(Debug, PartialEq, Eq)]
pub struct ProvenanceReport {
    txid: Txid,
    origin: Slot,
    recipient: Slot,
    change: Slot,
    settlement: Settlement,
}

/// The model of a [`ProvenanceReport`]: its ten fields, in the order in
/// which they are written out.
pub struct ReportModel {
    pub txid: Seq<u8>,
    pub input_address: Seq<char>,
    pub input_amount: nat,
    pub recipient_address: Seq<char>,
    pub recipient_amount: nat,
    pub change_address: Seq<char>,
    pub change_amount: nat,
    pub fee: nat,
    pub block_height: nat,
    pub block_hash: Seq<u8>,
}

/// The report that the given parts make up.
pub open spec fn report_from(
    txid: Seq<u8>,
    origin: SlotModel,
    recipient: SlotModel,
    change: SlotModel,
    settlement: SettlementModel,
) -> ReportModel {
    ReportModel {
        txid,
        input_address: origin.address,
        input_amount: origin.amount,
        recipient_address: recipient.address,
        recipient_amount: recipient.amount,
        change_address: change.address,
        change_amount: change.amount,
        fee: settlement.fee,
        block_height: settlement.block_height,
        block_hash: settlement.block_hash,
    }
}

impl View for ProvenanceReport {
    type V = ReportModel;

    closed spec fn view(&self) -> ReportModel {
        report_from(self.txid@, self.origin@, self.recipient@, self.change@, self.settlement@)
    }
}

impl ProvenanceReport {
    /// Builds a report from the transaction's identifier, the origin of the
    /// spent funds, the two classified slots and the settlement.
    pub fn new(txid: Txid, origin: Slot, recipient: Slot, change: Slot, settlement: Settlement) -> (report:
        ProvenanceReport)
        ensures
            report@ == report_from(txid@, origin@, recipient@, change@, settlement@),
    {
        ProvenanceReport { txid, origin, recipient, change, settlement }
    }

    /// The identifier of the transaction.
    pub fn txid(&self) -> (txid: &Txid)
        ensures
            txid@ == self@.txid,
    {
        &self.txid
    }

    /// The address that the spent funds came from.
    pub fn input_address(&self) -> (address: &String)
        ensures
            address@ == self@.input_address,
    {
        &self.origin.address
    }

    /// The amount of the spent output.
    pub fn input_amount(&self) -> (amount: u64)
        ensures
            amount == self@.input_amount,
    {
        self.origin.amount
    }

    /// The address of the intended recipient, empty where nothing was paid to it.
    pub fn recipient_address(&self) -> (address: &String)
        ensures
            address@ == self@.recipient_address,
    {
        &self.recipient.address
    }

    /// The amount paid to the intended recipient.
    pub fn recipient_amount(&self) -> (amount: u64)
        ensures
            amount == self@.recipient_amount,
    {
        self.recipient.amount
    }

    /// The address that the change went to, empty where there was none.
    pub fn change_address(&self) -> (address: &String)
        ensures
            address@ == self@.change_address,
    {
        &self.change.address
    }

    /// The amount of the change.
    pub fn change_amount(&self) -> (amount: u64)
        ensures
            amount == self@.change_amount,
    {
        self.change.amount
    }

    /// The fee, as a magnitude.
    pub fn fee(&self) -> (fee: u64)
        ensures
            fee == self@.fee,
    {
        self.settlement.fee
    }

    /// The height of the confirming block.
    pub fn block_height(&self) -> (height: u32)
        ensures
            height == self@.block_height,
    {
        self.settlement.block_height
    }

    /// The hash of the confirming block.
    pub fn block_hash(&self) -> (hash: &BlockHash)
        ensures
            hash@ == self@.block_hash,
    {
        &self.settlement.block_hash
    }
}

} // verus!
