//! The ledger data that a report is derived from, and its mathematical model.

use vstd::prelude::*;
use crate::error::ReportError;

verus! {

/// The identifier of a transaction: the 32 bytes of its digest, in the order
/// in which the digest is computed.
#[derive(Clone, Copy, Debug, PartialEq, Eq)]
pub struct Txid {
    pub bytes: [u8; 32],
}

/// The identifier of a block: the 32 bytes of its digest, in the order in
/// which the digest is computed.
#[derive(Clone, Copy, Debug, PartialEq, Eq)]
pub struct BlockHash {
    pub bytes: [u8; 32],
}

impl View for Txid {
    type V = Seq<u8>;

    open spec fn view(&self) -> Seq<u8> {
        self.bytes@
    }
}

impl View for BlockHash {
    type V = Seq<u8>;

    open spec fn view(&self) -> Seq<u8> {
        self.bytes@
    }
}

/// The lower-case hexadecimal digit of a value below sixteen.
pub open spec fn hex_digit(value: int) -> char {
    if value < 10 {
        ((value + 48) as u8) as char
    } else {
        ((value + 87) as u8) as char
    }
}

/// The text by which a digest is shown: two lower-case hexadecimal digits
/// for each byte, high digit first, the bytes taken from the last to the first.
pub open spec fn reversed_hex(bytes: Seq<u8>) -> Seq<char> {
    Seq::new(
        2 * bytes.len(),
        |i: int|
            {
                let byte = bytes[bytes.len() - 1 - i / 2];
                if i % 2 == 0 {
                    hex_digit(byte as int / 16)
                } else {
                    hex_digit(byte as int % 16)
                }
            },
    )
}

/// Whether a character is a lower-case hexadecimal digit.
pub open spec fn is_hex_digit(c: char) -> bool {
    '0' <= c <= '9' || 'a' <= c <= 'f'
}

/// A digest is shown with two hexadecimal digits for each of its bytes.
pub proof fn lemma_reversed_hex_shape(bytes: Seq<u8>)
    ensures
        reversed_hex(bytes).len() == 2 * bytes.len(),
        forall|i: int| 0 <= i < 2 * bytes.len() ==> is_hex_digit(#[trigger] reversed_hex(bytes)[i]),
{
}

/// Builds a `bitcoin::Txid` from the bytes and renders it by its `Display`.
/// Trusted: the crate shows such a digest as lower-case hexadecimal with the
/// bytes in reverse order.
#[verifier::external_body]
fn txid_display(bytes: &[u8; 32]) -> (text: String)
    ensures
        text@ == reversed_hex(bytes@),
{
    <bitcoin::Txid as bitcoin::hashes::Hash>::from_byte_array(*bytes).to_string()
}

/// Builds a `bitcoin::BlockHash` from the bytes and renders it by its
/// `Display`. Trusted: the crate shows such a digest as lower-case
/// hexadecimal with the bytes in reverse order.
#[verifier::external_body]
fn block_hash_display(bytes: &[u8; 32]) -> (text: String)
    ensures
        text@ == reversed_hex(bytes@),
{
    <bitcoin::BlockHash as bitcoin::hashes::Hash>::from_byte_array(*bytes).to_string()
}

impl BlockHash {
    /// The hash as it is written in reports: 64 hexadecimal digits.
    pub fn to_hex(&self) -> (text: String)
        ensures
            text@ == reversed_hex(self@),
            text@.len() == 64,
    {
        block_hash_display(&self.bytes)
    }
}

impl Txid {
    /// The identifier as it is written in reports: 64 hexadecimal digits.
    pub fn to_hex(&self) -> (text: String)
        ensures
            text@ == reversed_hex(self@),
            text@.len() == 64,
    {
        txid_display(&self.bytes)
    }

    /// Whether two identifiers hold the same bytes.
    pub fn same_as(&self, other: &Txid) -> (same: bool)
        ensures
            same == (self@ == other@),
    {
        let mut i: usize = 0;
        while i < 32
            invariant
                i <= 32,
                forall|j: int| 0 <= j < i ==> self.bytes@[j] == other.bytes@[j],
            decreases 32 - i,
        {
            if self.bytes[i] != other.bytes[i] {
                return false;
            }
            i = i + 1;
        }
        assert(self.bytes@ =~= other.bytes@);
        true
    }
}

/// A reference to an output of an earlier transaction.
#[derive(Clone, Copy, Debug, PartialEq, Eq)]
pub struct Input {
    /// The transaction that created the output being spent.
    pub txid: Txid,
    /// The position of that output among the outputs of its transaction.
    pub vout: u32,
}

/// A value-bearing slot created by a transaction.
#[derive(Debug, PartialEq, Eq)]
pub struct Output {
    /// The amount, in the smallest currency unit (a hundred-millionth of a coin).
    pub value: u64,
    /// The locking script, as raw bytes.
    pub script_pubkey: Vec<u8>,
}

/// Where a transaction stands with respect to the chain.
#[derive(Clone, Copy, Debug, PartialEq, Eq)]
pub enum Confirmation {
    /// Not yet included in a block.
    Unconfirmed,
    /// Included in a block; height, hash and fee are then fixed.
    Confirmed {
        /// The height of the confirming block.
        height: u32,
        /// The hash of the confirming block.
        hash: BlockHash,
        /// The fee as the wallet records it: signed, in the smallest
        /// currency unit, negative where it counts as money leaving.
        fee: i64,
    },
}

/// A transaction under inspection, or one that it spends from.
#[derive(Clone, Debug, PartialEq, Eq)]
pub struct Transaction {
    pub txid: Txid,
    pub inputs: Vec<Input>,
    pub outputs: Vec<Output>,
    pub confirmation: Confirmation,
}

/// The model of an [`Input`].
pub struct InputModel {
    pub txid: Seq<u8>,
    pub vout: nat,
}

/// The model of an [`Output`].
pub struct OutputModel {
    pub value: nat,
    pub script: Seq<u8>,
}

/// The model of a [`Confirmation`].
pub enum ConfirmationModel {
    Unconfirmed,
    Confirmed { height: nat, hash: Seq<u8>, fee: int },
}

/// The model of a [`Transaction`].
pub struct TransactionModel {
    pub txid: Seq<u8>,
    pub inputs: Seq<InputModel>,
    pub outputs: Seq<OutputModel>,
    pub confirmation: ConfirmationModel,
}

impl View for Input {
    type V = InputModel;

    open spec fn view(&self) -> InputModel {
        InputModel { txid: self.txid@, vout: self.vout as nat }
    }
}

impl View for Output {
    type V = OutputModel;

    open spec fn view(&self) -> OutputModel {
        OutputModel { value: self.value as nat, script: self.script_pubkey@ }
    }
}

impl View for Confirmation {
    type V = ConfirmationModel;

    open spec fn view(&self) -> ConfirmationModel {
        match *self {
            Confirmation::Unconfirmed => ConfirmationModel::Unconfirmed,
            Confirmation::Confirmed { height, hash, fee } => ConfirmationModel::Confirmed {
                height: height as nat,
                hash: hash@,
                fee: fee as int,
            },
        }
    }
}

/// The models of a run of inputs, in order.
pub open spec fn input_models(inputs: Seq<Input>) -> Seq<InputModel> {
    Seq::new(inputs.len(), |i: int| inputs[i]@)
}

/// The models of a run of outputs, in order.
pub open spec fn output_models(outputs: Seq<Output>) -> Seq<OutputModel> {
    Seq::new(outputs.len(), |i: int| outputs[i]@)
}

/// The models of a run of transactions, in order.
pub open spec fn transaction_models(transactions: Seq<Transaction>) -> Seq<TransactionModel> {
    Seq::new(transactions.len(), |i: int| transactions[i]@)
}

impl View for Transaction {
    type V = TransactionModel;

    open spec fn view(&self) -> TransactionModel {
        TransactionModel {
            txid: self.txid@,
            inputs: input_models(self.inputs@),
            outputs: output_models(self.outputs@),
            confirmation: self.confirmation@,
        }
    }
}

/// What every transaction held in memory satisfies: its identifiers and its
/// block hash have 32 bytes, an output index fits 32 bits, an amount 64, and
/// a fee 64 with its sign.
pub open spec fn well_formed(transaction: TransactionModel) -> bool {
    &&& transaction.txid.len() == 32
    &&& forall|i: int|
        0 <= i < transaction.inputs.len() ==> (#[trigger] transaction.inputs[i]).txid.len() == 32
            && transaction.inputs[i].vout <= u32::MAX
    &&& forall|i: int|
        0 <= i < transaction.outputs.len() ==> (#[trigger] transaction.outputs[i]).value <= u64::MAX
    &&& match transaction.confirmation {
        ConfirmationModel::Unconfirmed => true,
        ConfirmationModel::Confirmed { height, hash, fee } => height <= u32::MAX && hash.len() == 32
            && i64::MIN <= fee <= i64::MAX,
    }
}

/// The model of a transaction held in memory is well formed.
pub proof fn lemma_view_well_formed(transaction: Transaction)
    ensures
        well_formed(transaction@),
{
}

impl Clone for Output {
    fn clone(&self) -> (copy: Output)
        ensures
            copy@ == self@,
    {
        let script_pubkey = self.script_pubkey.clone();
        assert(script_pubkey@ =~= self.script_pubkey@);
        Output { value: self.value, script_pubkey }
    }
}

impl Confirmation {
    /// Builds the confirmation state from metadata whose parts may each be
    /// missing. The transaction counts as confirmed only when height, hash
    /// and fee are all there; nothing is filled in for a missing part.
    pub fn from_parts(height: Option<u32>, hash: Option<BlockHash>, fee: Option<i64>) -> (state:
        Confirmation)
        ensures
            state == match (height, hash, fee) {
                (Some(h), Some(b), Some(f)) => Confirmation::Confirmed { height: h, hash: b, fee: f },
                _ => Confirmation::Unconfirmed,
            },
    {
        match (height, hash, fee) {
            (Some(h), Some(b), Some(f)) => Confirmation::Confirmed { height: h, hash: b, fee: f },
            _ => Confirmation::Unconfirmed,
        }
    }

    /// Whether the transaction is in a block.
    pub fn is_confirmed(&self) -> (confirmed: bool)
        ensures
            confirmed == (self@ is Confirmed),
    {
        match self {
            Confirmation::Unconfirmed => false,
            Confirmation::Confirmed { .. } => true,
        }
    }
}

/// The first transaction of `ledger` whose identifier is `txid`, if there is one.
pub open spec fn lookup(ledger: Seq<TransactionModel>, txid: Seq<u8>) -> Option<TransactionModel>
    decreases ledger.len(),
{
    if ledger.len() == 0 {
        None
    } else if ledger.first().txid == txid {
        Some(ledger.first())
    } else {
        lookup(ledger.drop_first(), txid)
    }
}

/// A ledger held in memory: the transactions that can be looked up, in the
/// order in which they were recorded.
#[derive(Clone, Debug, PartialEq, Eq)]
pub struct MemoryLedger {
    pub transactions: Vec<Transaction>,
}

impl View for MemoryLedger {
    type V = Seq<TransactionModel>;

    open spec fn view(&self) -> Seq<TransactionModel> {
        transaction_models(self.transactions@)
    }
}

impl MemoryLedger {
    /// A ledger that holds no transaction.
    pub fn new() -> (ledger: MemoryLedger)
        ensures
            ledger@ == Seq::<TransactionModel>::empty(),
    {
        MemoryLedger { transactions: Vec::new() }
    }

    /// Records a transaction after those already held.
    pub fn record(&mut self, transaction: Transaction)
        ensures
            final(self)@ == old(self)@.push(transaction@),
    {
        self.transactions.push(transaction);
    }

    /// Looks a transaction up by its identifier. Where several recorded
    /// transactions carry it, the one recorded first is returned.
    pub fn fetch_transaction(&self, txid: &Txid) -> (found: Result<&Transaction, ReportError>)
        ensures
            match found {
                Ok(transaction) => lookup(self@, txid@) == Some(transaction@),
                Err(error) => error == ReportError::LookupFailure && lookup(self@, txid@) is None,
            },
    {
        let ghost models = self@;
        let mut i: usize = 0;
        assert(models.skip(0) =~= models);
        while i < self.transactions.len()
            invariant
                i <= self.transactions.len(),
                models == self@,
                lookup(models, txid@) == lookup(models.skip(i as int), txid@),
            decreases self.transactions.len() - i,
        {
            let candidate = &self.transactions[i];
            proof {
                assert(models.skip(i as int).first() == candidate@);
                assert(models.skip(i as int).drop_first() =~= models.skip(i + 1));
            }
            if candidate.txid.same_as(txid) {
                return Ok(candidate);
            }
            i = i + 1;
        }
        Err(ReportError::LookupFailure)
    }
}

} // verus!
