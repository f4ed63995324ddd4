//! The output classifier: which output pays the intended recipient, and
//! which returns change to the sender.

use vstd::prelude::*;
use crate::address::{address_of, pays_to};
use crate::error::ReportError;
use crate::ledger::{output_models, Output, OutputModel};
use crate::slot::{decode_output, empty_slot, slot_of, Slot, SlotModel};

verus! {

/// The outcome of classifying a transaction's outputs.
#[derive(Debug, PartialEq, Eq)]
pub struct Classification {
    /// What was paid to the intended recipient.
    pub recipient: Slot,
    /// What went anywhere else: the change returned to the sender.
    pub change: Slot,
}

/// The model of a [`Classification`].
pub struct ClassificationModel {
    pub recipient: SlotModel,
    pub change: SlotModel,
}

impl View for Classification {
    type V = ClassificationModel;

    open spec fn view(&self) -> ClassificationModel {
        ClassificationModel { recipient: self.recipient@, change: self.change@ }
    }
}

/// Whether every output's locking script decodes to an address.
pub open spec fn all_decodable(outputs: Seq<OutputModel>) -> bool {
    forall|i: int| 0 <= i < outputs.len() ==> address_of(#[trigger] outputs[i].script) is Some
}

/// The slot of the last output that pays `recipient` (with `paying` true),
/// or of the last one that does not (with `paying` false); the empty slot
/// where there is no such output.
pub open spec fn last_slot(outputs: Seq<OutputModel>, recipient: Seq<char>, paying: bool) -> SlotModel
    decreases outputs.len(),
{
    if outputs.len() == 0 {
        empty_slot()
    } else if pays_to(outputs.last().script, recipient) == paying {
        slot_of(outputs.last())
    } else {
        last_slot(outputs.drop_last(), recipient, paying)
    }
}

/// What classifying `outputs` against `recipient` yields: a failure where
/// some script does not decode, else the two slots.
pub open spec fn classification_of(outputs: Seq<OutputModel>, recipient: Seq<char>) -> Result<
    ClassificationModel,
    ReportError,
> {
    if all_decodable(outputs) {
        Ok(
            ClassificationModel {
                recipient: last_slot(outputs, recipient, true),
                change: last_slot(outputs, recipient, false),
            },
        )
    } else {
        Err(ReportError::AddressDecodeFailure)
    }
}

/// Partitions the outputs of a transaction into the payment to `recipient`
/// and the change.
///
/// Each output's locking script is decoded to an address. An output whose
/// address is `recipient` goes to the recipient slot, any other to the
/// change slot; within a slot a later output replaces an earlier one. A
/// slot that no output went to stays empty. The first script that does not
/// decode aborts the classification with `AddressDecodeFailure`.
pub fn classify_outputs(outputs: &Vec<Output>, recipient: &str) -> (classified: Result<
    Classification,
    ReportError,
>)
    ensures
        match classified {
            Ok(slots) => classification_of(output_models(outputs@), recipient@) == Ok::<
                ClassificationModel,
                ReportError,
            >(slots@),
            Err(error) => classification_of(output_models(outputs@), recipient@) == Err::<
                ClassificationModel,
                ReportError,
            >(error),
        },
{
    let wanted = String::from_str(recipient);
    let ghost models = output_models(outputs@);
    let mut paid = Slot { address: String::new(), amount: 0 };
    let mut change = Slot { address: String::new(), amount: 0 };
    let mut i: usize = 0;
    while i < outputs.len()
        invariant
            i <= outputs.len(),
            models == output_models(outputs@),
            wanted@ == recipient@,
            forall|j: int| 0 <= j < i ==> address_of(#[trigger] models[j].script) is Some,
            paid@ == last_slot(models.take(i as int), recipient@, true),
            change@ == last_slot(models.take(i as int), recipient@, false),
        decreases outputs.len() - i,
    {
        let output = &outputs[i];
        proof {
            assert(models[i as int] == output@);
            assert(models.take(i + 1).drop_last() =~= models.take(i as int));
            assert(models.take(i + 1).last() == models[i as int]);
        }
        match decode_output(output) {
            Ok(slot) => {
                if slot.address == wanted {
                    paid = slot;
                } else {
                    change = slot;
                }
            },
            Err(error) => {
                assert(address_of(models[i as int].script) is None);
                return Err(error);
            },
        }
        i = i + 1;
    }
    assert(models.take(i as int) =~= models);
    Ok(Classification { recipient: paid, change })
}

/// The outcome of looking for the outputs that pay a recipient, with
/// nothing decided between several of them.
#[derive(Debug, PartialEq, Eq)]
pub enum RecipientMatch {
    /// No output pays the recipient.
    NoMatch,
    /// Exactly one output pays the recipient.
    SingleMatch(Output),
    /// Two or more outputs pay the recipient; they are listed in the order
    /// in which the transaction holds them.
    MultipleMatches(Vec<Output>),
}

/// The model of a [`RecipientMatch`].
pub enum RecipientMatchModel {
    NoMatch,
    SingleMatch(OutputModel),
    MultipleMatches(Seq<OutputModel>),
}

impl View for RecipientMatch {
    type V = RecipientMatchModel;

    open spec fn view(&self) -> RecipientMatchModel {
        match self {
            RecipientMatch::NoMatch => RecipientMatchModel::NoMatch,
            RecipientMatch::SingleMatch(output) => RecipientMatchModel::SingleMatch(output@),
            RecipientMatch::MultipleMatches(outputs) => RecipientMatchModel::MultipleMatches(
                output_models(outputs@),
            ),
        }
    }
}

/// The outputs that pay `recipient`, in their order.
pub open spec fn paying_outputs(outputs: Seq<OutputModel>, recipient: Seq<char>) -> Seq<
    OutputModel,
> {
    outputs.filter(|output: OutputModel| pays_to(output.script, recipient))
}

/// The outputs that do not pay `recipient`, in their order.
pub open spec fn other_outputs(outputs: Seq<OutputModel>, recipient: Seq<char>) -> Seq<
    OutputModel,
> {
    outputs.filter(|output: OutputModel| !pays_to(output.script, recipient))
}

/// The match that a run of paying outputs amounts to, by their number.
pub open spec fn tally(paying: Seq<OutputModel>) -> RecipientMatchModel {
    if paying.len() == 0 {
        RecipientMatchModel::NoMatch
    } else if paying.len() == 1 {
        RecipientMatchModel::SingleMatch(paying[0])
    } else {
        RecipientMatchModel::MultipleMatches(paying)
    }
}

/// What matching `outputs` against `recipient` yields: a failure where some
/// script does not decode, else the tally of the outputs that pay the recipient.
pub open spec fn recipient_match_of(outputs: Seq<OutputModel>, recipient: Seq<char>) -> Result<
    RecipientMatchModel,
    ReportError,
> {
    if all_decodable(outputs) {
        Ok(tally(paying_outputs(outputs, recipient)))
    } else {
        Err(ReportError::AddressDecodeFailure)
    }
}

/// Finds the outputs that pay `recipient` and says whether there is none,
/// one or several, so that an ambiguous transaction shows as such.
///
/// The first script that does not decode aborts with `AddressDecodeFailure`.
pub fn match_recipient(outputs: &Vec<Output>, recipient: &str) -> (matched: Result<
    RecipientMatch,
    ReportError,
>)
    ensures
        match matched {
            Ok(found) => recipient_match_of(output_models(outputs@), recipient@) == Ok::<
                RecipientMatchModel,
                ReportError,
            >(found@),
            Err(error) => recipient_match_of(output_models(outputs@), recipient@) == Err::<
                RecipientMatchModel,
                ReportError,
            >(error),
        },
{
    let wanted = String::from_str(recipient);
    let ghost models = output_models(outputs@);
    let mut found: Vec<Output> = Vec::new();
    let mut i: usize = 0;
    proof {
        reveal(Seq::filter);
        assert(models.take(0) =~= Seq::<OutputModel>::empty());
    }
    while i < outputs.len()
        invariant
            i <= outputs.len(),
            models == output_models(outputs@),
            wanted@ == recipient@,
            forall|j: int| 0 <= j < i ==> address_of(#[trigger] models[j].script) is Some,
            output_models(found@) == paying_outputs(models.take(i as int), recipient@),
        decreases outputs.len() - i,
    {
        let output = &outputs[i];
        proof {
            reveal(Seq::filter);
            assert(models[i as int] == output@);
            assert(models.take(i + 1).drop_last() =~= models.take(i as int));
            assert(models.take(i + 1).last() == models[i as int]);
        }
        match decode_output(output) {
            Ok(slot) => {
                if slot.address == wanted {
                    let ghost before = output_models(found@);
                    found.push(output.clone());
                    assert(output_models(found@) =~= before.push(output@));
                }
            },
            Err(error) => {
                assert(address_of(models[i as int].script) is None);
                return Err(error);
            },
        }
        i = i + 1;
    }
    assert(models.take(i as int) =~= models);
    if found.len() == 0 {
        Ok(RecipientMatch::NoMatch)
    } else if found.len() == 1 {
        let ghost all = output_models(found@);
        let only = found.pop().unwrap();
        assert(only@ == all[0]);
        Ok(RecipientMatch::SingleMatch(only))
    } else {
        Ok(RecipientMatch::MultipleMatches(found))
    }
}

/// Last match wins: where output `i` is the last that pays `recipient` (or,
/// with `paying` false, the last that does not), the slot is that output's.
pub proof fn lemma_last_such_output_fills_slot(
    outputs: Seq<OutputModel>,
    recipient: Seq<char>,
    paying: bool,
    i: int,
)
    requires
        0 <= i < outputs.len(),
        pays_to(outputs[i].script, recipient) == paying,
        forall|j: int| i < j < outputs.len() ==> pays_to(#[trigger] outputs[j].script, recipient) != paying,
    ensures
        last_slot(outputs, recipient, paying) == slot_of(outputs[i]),
    decreases outputs.len(),
{
    if i < outputs.len() - 1 {
        assert(pays_to(outputs[outputs.len() - 1].script, recipient) != paying);
        lemma_last_such_output_fills_slot(outputs.drop_last(), recipient, paying, i);
    }
}

/// Where no output pays `recipient` the recipient slot stays empty, and where
/// every output does the change slot stays empty (`paying` false).
pub proof fn lemma_no_such_output_leaves_slot_empty(
    outputs: Seq<OutputModel>,
    recipient: Seq<char>,
    paying: bool,
)
    requires
        forall|j: int| 0 <= j < outputs.len() ==> pays_to(#[trigger] outputs[j].script, recipient) != paying,
    ensures
        last_slot(outputs, recipient, paying) == empty_slot(),
    decreases outputs.len(),
{
    if outputs.len() > 0 {
        assert(pays_to(outputs[outputs.len() - 1].script, recipient) != paying);
        lemma_no_such_output_leaves_slot_empty(outputs.drop_last(), recipient, paying);
    }
}

/// Where no output pays `recipient` and all decode, every output counts as
/// change: the change slot is the last output's.
pub proof fn lemma_unmatched_outputs_are_change(outputs: Seq<OutputModel>, recipient: Seq<char>)
    requires
        outputs.len() > 0,
        forall|j: int| 0 <= j < outputs.len() ==> !pays_to(#[trigger] outputs[j].script, recipient),
    ensures
        last_slot(outputs, recipient, true) == empty_slot(),
        last_slot(outputs, recipient, false) == slot_of(outputs.last()),
{
    lemma_no_such_output_leaves_slot_empty(outputs, recipient, true);
    assert(!pays_to(outputs[outputs.len() - 1].script, recipient));
}

/// A transaction of two outputs, the first to another address and the second
/// to the recipient, classifies as the second paid and the first as change.
pub proof fn lemma_change_then_payment(
    change: OutputModel,
    payment: OutputModel,
    recipient: Seq<char>,
)
    requires
        address_of(change.script) is Some,
        !pays_to(change.script, recipient),
        pays_to(payment.script, recipient),
    ensures
        classification_of(seq![change, payment], recipient) == Ok::<ClassificationModel, ReportError>(
            ClassificationModel {
                recipient: SlotModel { address: recipient, amount: payment.value },
                change: SlotModel { address: address_of(change.script).unwrap(), amount: change.value },
            },
        ),
{
    let outputs = seq![change, payment];
    assert(outputs[0] == change && outputs[1] == payment);
    lemma_last_such_output_fills_slot(outputs, recipient, true, 1);
    lemma_last_such_output_fills_slot(outputs, recipient, false, 0);
}

/// The outputs are partitioned: each either pays the recipient or does not,
/// so the two groups together are as many as the outputs.
pub proof fn lemma_outputs_are_partitioned(outputs: Seq<OutputModel>, recipient: Seq<char>)
    ensures
        paying_outputs(outputs, recipient).len() + other_outputs(outputs, recipient).len()
            == outputs.len(),
    decreases outputs.len(),
{
    reveal(Seq::filter);
    if outputs.len() > 0 {
        lemma_outputs_are_partitioned(outputs.drop_last(), recipient);
    }
}

/// The change slot holds the last of the outputs that do not pay the
/// recipient, and is empty where every output pays it.
pub proof fn lemma_change_is_last_other(outputs: Seq<OutputModel>, recipient: Seq<char>)
    ensures
        other_outputs(outputs, recipient).len() == 0 ==> last_slot(outputs, recipient, false)
            == empty_slot(),
        other_outputs(outputs, recipient).len() > 0 ==> last_slot(outputs, recipient, false)
            == slot_of(other_outputs(outputs, recipient).last()),
    decreases outputs.len(),
{
    reveal(Seq::filter);
    if outputs.len() > 0 {
        lemma_change_is_last_other(outputs.drop_last(), recipient);
    }
}

/// The recipient slot and the tagged match agree: the slot is empty where
/// nothing matches, and otherwise holds the last of the matching outputs.
pub proof fn lemma_slot_is_last_match(outputs: Seq<OutputModel>, recipient: Seq<char>)
    ensures
        paying_outputs(outputs, recipient).len() == 0 ==> last_slot(outputs, recipient, true)
            == empty_slot(),
        paying_outputs(outputs, recipient).len() > 0 ==> last_slot(outputs, recipient, true)
            == slot_of(paying_outputs(outputs, recipient).last()),
    decreases outputs.len(),
{
    reveal(Seq::filter);
    if outputs.len() > 0 {
        lemma_slot_is_last_match(outputs.drop_last(), recipient);
    }
}

/// A slot that an output went to names an address: where all outputs decode
/// and one of them pays the recipient (or, with `paying` false, does not),
/// the slot's address is not empty.
pub proof fn lemma_filled_slot_has_address(
    outputs: Seq<OutputModel>,
    recipient: Seq<char>,
    paying: bool,
    i: int,
)
    requires
        all_decodable(outputs),
        0 <= i < outputs.len(),
        pays_to(outputs[i].script, recipient) == paying,
    ensures
        last_slot(outputs, recipient, paying).address.len() > 0,
        paying ==> last_slot(outputs, recipient, paying).address == recipient,
    decreases outputs.len(),
{
    let last = outputs.len() - 1;
    assert(address_of(outputs[last].script) is Some);
    if pays_to(outputs[last].script, recipient) != paying {
        assert(i < last);
        assert forall|j: int| 0 <= j < outputs.drop_last().len() implies address_of(
            #[trigger] outputs.drop_last()[j].script,
        ) is Some by {
            assert(address_of(outputs[j].script) is Some);
        }
        lemma_filled_slot_has_address(outputs.drop_last(), recipient, paying, i);
    }
}

/// The change slot never names the recipient: it is empty or holds an
/// address other than the recipient's.
pub proof fn lemma_change_is_not_recipient(
    outputs: Seq<OutputModel>,
    recipient: Seq<char>,
)
    requires
        all_decodable(outputs),
    ensures
        last_slot(outputs, recipient, false).address != recipient
            || recipient.len() == 0,
    decreases outputs.len(),
{
    if outputs.len() > 0 {
        let last = outputs.len() - 1;
        assert(address_of(outputs[last].script) is Some);
        if pays_to(outputs[last].script, recipient) {
            assert forall|j: int| 0 <= j < outputs.drop_last().len() implies address_of(
                #[trigger] outputs.drop_last()[j].script,
            ) is Some by {
                assert(address_of(outputs[j].script) is Some);
            }
            lemma_change_is_not_recipient(outputs.drop_last(), recipient);
        }
    }
}

} // verus!
