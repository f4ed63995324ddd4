//! The fee and metadata aggregator: the fee as a magnitude, and the block
//! that confirmed the transaction.

use vstd::prelude::*;
use crate::error::ReportError;
use crate::ledger::{BlockHash, Confirmation, ConfirmationModel, Transaction};
use crate::numerals::{absolute, magnitude};

verus! {

/// What confirmation fixed about a transaction.
#[derive(Clone, Copy, Debug, PartialEq, Eq)]
pub struct Settlement {
    /// The fee, as a magnitude.
    pub fee: u64,
    /// The height of the confirming block.
    pub block_height: u32,
    /// The hash of the confirming block.
    pub block_hash: BlockHash,
}

/// The model of a [`Settlement`].
pub struct SettlementModel {
    pub fee: nat,
    pub block_height: nat,
    pub block_hash: Seq<u8>,
}

impl View for Settlement {
    type V = SettlementModel;

    open spec fn view(&self) -> SettlementModel {
        SettlementModel {
            fee: self.fee as nat,
            block_height: self.block_height as nat,
            block_hash: self.block_hash@,
        }
    }
}

/// What aggregating yields: for a confirmed transaction the magnitude of
/// its fee with the block's height and hash, for any other a failure.
pub open spec fn settlement_of(confirmation: ConfirmationModel) -> Result<
    SettlementModel,
    ReportError,
> {
    match confirmation {
        ConfirmationModel::Unconfirmed => Err(ReportError::PreconditionViolation),
        ConfirmationModel::Confirmed { height, hash, fee } => Ok(
            SettlementModel { fee: magnitude(fee), block_height: height, block_hash: hash },
        ),
    }
}

/// Extracts the fee and the confirming block of a transaction.
///
/// The fee comes out non-negative whatever sign it was recorded with. A
/// transaction that is not confirmed is refused with
/// `PreconditionViolation`; nothing is put in place of what is missing.
pub fn aggregate(transaction: &Transaction) -> (settled: Result<Settlement, ReportError>)
    ensures
        match settled {
            Ok(settlement) => settlement_of(transaction@.confirmation) == Ok::<
                SettlementModel,
                ReportError,
            >(settlement@),
            Err(error) => settlement_of(transaction@.confirmation) == Err::<
                SettlementModel,
                ReportError,
            >(error),
        },
{
    match transaction.confirmation {
        Confirmation::Unconfirmed => Err(ReportError::PreconditionViolation),
        Confirmation::Confirmed { height, hash, fee } => Ok(
            Settlement { fee: absolute(fee), block_height: height, block_hash: hash },
        ),
    }
}

/// The reported fee does not depend on the sign of the recorded one.
pub proof fn lemma_fee_ignores_sign(height: nat, hash: Seq<u8>, fee: int)
    ensures
        settlement_of(ConfirmationModel::Confirmed { height, hash, fee }) == settlement_of(
            ConfirmationModel::Confirmed { height, hash, fee: -fee },
        ),
        settlement_of(ConfirmationModel::Confirmed { height, hash, fee }) matches Ok(settlement)
            && (settlement.fee == fee || settlement.fee == -fee),
{
}

/// Aggregating succeeds exactly on confirmed transactions, and fails in no
/// other way than with `PreconditionViolation`.
pub proof fn lemma_only_confirmed_settle(confirmation: ConfirmationModel)
    ensures
        settlement_of(confirmation) is Ok <==> confirmation is Confirmed,
        settlement_of(confirmation) is Err ==> settlement_of(confirmation)
            == Err::<SettlementModel, ReportError>(ReportError::PreconditionViolation),
{
}

} // verus!
