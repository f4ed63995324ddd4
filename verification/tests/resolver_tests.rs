use tx_provenance::address::decode_address;
use tx_provenance::error::ReportError;
use tx_provenance::ledger::{Confirmation, Input, MemoryLedger, Output, Transaction, Txid};
use tx_provenance::resolver::{first_input, resolve_fetched, resolve_input};
use tx_provenance::slot::Slot;

fn resolver_script(tag: u8) -> Vec<u8> {
    let mut script = vec![0x00, 0x14];
    script.extend_from_slice(&[tag; 20]);
    script
}

fn resolver_prior(id: u8) -> Transaction {
    Transaction {
        txid: Txid { bytes: [id; 32] },
        inputs: Vec::new(),
        outputs: vec![
            Output { value: 5_000_000_000, script_pubkey: resolver_script(0x11) },
            Output { value: 0, script_pubkey: vec![0x6a, 0x24, 0xaa, 0x21, 0xa9, 0xed] },
        ],
        confirmation: Confirmation::Unconfirmed,
    }
}

#[test]
fn resolves_the_referenced_output() {
    let prior = resolver_prior(7);
    let input = Input { txid: prior.txid, vout: 0 };
    let origin = resolve_fetched(&input, Some(&prior)).unwrap();
    let address = decode_address(&resolver_script(0x11)).unwrap();
    assert_eq!(origin, Slot { address, amount: 5_000_000_000 });
}

#[test]
fn lookup_failure_when_nothing_was_retrieved() {
    let input = Input { txid: Txid { bytes: [7; 32] }, vout: 0 };
    assert_eq!(resolve_fetched(&input, None), Err(ReportError::LookupFailure));
}

#[test]
fn index_out_of_range_at_the_output_count() {
    let prior = resolver_prior(7);
    let input = Input { txid: prior.txid, vout: 2 };
    assert_eq!(resolve_fetched(&input, Some(&prior)), Err(ReportError::IndexOutOfRange));
}

#[test]
fn index_out_of_range_far_beyond() {
    let prior = resolver_prior(7);
    let input = Input { txid: prior.txid, vout: u32::MAX };
    assert_eq!(resolve_fetched(&input, Some(&prior)), Err(ReportError::IndexOutOfRange));
}

#[test]
fn index_out_of_range_without_outputs() {
    let mut prior = resolver_prior(7);
    prior.outputs.clear();
    let input = Input { txid: prior.txid, vout: 0 };
    assert_eq!(resolve_fetched(&input, Some(&prior)), Err(ReportError::IndexOutOfRange));
}

#[test]
fn address_decode_failure_of_the_spent_output() {
    let prior = resolver_prior(7);
    let input = Input { txid: prior.txid, vout: 1 };
    assert_eq!(resolve_fetched(&input, Some(&prior)), Err(ReportError::AddressDecodeFailure));
}

#[test]
fn resolves_against_a_ledger() {
    let mut ledger = MemoryLedger::new();
    ledger.record(resolver_prior(1));
    ledger.record(resolver_prior(2));
    let input = Input { txid: Txid { bytes: [2; 32] }, vout: 0 };
    let origin = resolve_input(&input, &ledger).unwrap();
    assert_eq!(origin.amount, 5_000_000_000);
    let missing = Input { txid: Txid { bytes: [3; 32] }, vout: 0 };
    assert_eq!(resolve_input(&missing, &ledger), Err(ReportError::LookupFailure));
}

#[test]
fn empty_ledger_finds_nothing() {
    let ledger = MemoryLedger::new();
    assert!(ledger.transactions.is_empty());
    assert_eq!(
        ledger.fetch_transaction(&Txid { bytes: [0; 32] }),
        Err(ReportError::LookupFailure)
    );
}

#[test]
fn ledger_returns_the_first_recorded_of_equal_identifiers() {
    let mut ledger = MemoryLedger::new();
    let mut first = resolver_prior(4);
    first.outputs.truncate(1);
    ledger.record(resolver_prior(3));
    ledger.record(first.clone());
    ledger.record(resolver_prior(4));
    assert_eq!(ledger.fetch_transaction(&Txid { bytes: [4; 32] }), Ok(&first));
}

#[test]
fn ledger_tells_identifiers_apart_by_every_byte() {
    let mut ledger = MemoryLedger::new();
    ledger.record(resolver_prior(4));
    let mut bytes = [4u8; 32];
    bytes[31] = 5;
    assert_eq!(ledger.fetch_transaction(&Txid { bytes }), Err(ReportError::LookupFailure));
    assert!(!Txid { bytes }.same_as(&Txid { bytes: [4; 32] }));
    assert!(Txid { bytes }.same_as(&Txid { bytes }));
}

#[test]
fn first_input_of_a_transaction() {
    let mut transaction = resolver_prior(1);
    assert_eq!(first_input(&transaction), None);
    let spent = Input { txid: Txid { bytes: [8; 32] }, vout: 3 };
    transaction.inputs.push(spent);
    transaction.inputs.push(Input { txid: Txid { bytes: [9; 32] }, vout: 0 });
    assert_eq!(first_input(&transaction), Some(&spent));
}
