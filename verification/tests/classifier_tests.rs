use tx_provenance::address::decode_address;
use tx_provenance::classifier::{classify_outputs, match_recipient, Classification, RecipientMatch};
use tx_provenance::error::ReportError;
use tx_provenance::ledger::Output;
use tx_provenance::slot::{decode_output, Slot};

fn classifier_script(tag: u8) -> Vec<u8> {
    let mut script = vec![0x00, 0x14];
    script.extend_from_slice(&[tag; 20]);
    script
}

fn classifier_output(tag: u8, value: u64) -> Output {
    Output { value, script_pubkey: classifier_script(tag) }
}

fn classifier_address(tag: u8) -> String {
    decode_address(&classifier_script(tag)).unwrap()
}

fn classifier_undecodable(value: u64) -> Output {
    Output { value, script_pubkey: vec![0x6a, 0x01, 0x00] }
}

#[test]
fn classification_correctness() {
    let addr_a = classifier_address(0xa1);
    let addr_b = classifier_address(0xb2);
    let outputs = vec![classifier_output(0xa1, 500_000_000), classifier_output(0xb2, 1_499_999_000)];
    let classified = classify_outputs(&outputs, &addr_b).unwrap();
    assert_eq!(classified.recipient, Slot { address: addr_b, amount: 1_499_999_000 });
    assert_eq!(classified.change, Slot { address: addr_a, amount: 500_000_000 });
}

#[test]
fn classification_does_not_depend_on_output_order() {
    let addr_a = classifier_address(0xa1);
    let addr_b = classifier_address(0xb2);
    let outputs = vec![classifier_output(0xb2, 1_499_999_000), classifier_output(0xa1, 500_000_000)];
    let classified = classify_outputs(&outputs, &addr_b).unwrap();
    assert_eq!(classified.recipient, Slot { address: addr_b, amount: 1_499_999_000 });
    assert_eq!(classified.change, Slot { address: addr_a, amount: 500_000_000 });
}

#[test]
fn last_matching_output_wins() {
    let recipient = classifier_address(0x01);
    let outputs = vec![
        classifier_output(0x01, 100),
        classifier_output(0x02, 7),
        classifier_output(0x01, 200),
    ];
    let classified = classify_outputs(&outputs, &recipient).unwrap();
    assert_eq!(classified.recipient, Slot { address: recipient, amount: 200 });
    assert_eq!(classified.change, Slot { address: classifier_address(0x02), amount: 7 });
}

#[test]
fn last_other_output_is_the_change() {
    let recipient = classifier_address(0x01);
    let outputs = vec![
        classifier_output(0x02, 7),
        classifier_output(0x01, 100),
        classifier_output(0x03, 9),
    ];
    let classified = classify_outputs(&outputs, &recipient).unwrap();
    assert_eq!(classified.recipient, Slot { address: recipient, amount: 100 });
    assert_eq!(classified.change, Slot { address: classifier_address(0x03), amount: 9 });
}

#[test]
fn no_match_leaves_the_recipient_slot_empty() {
    let recipient = classifier_address(0x09);
    let outputs = vec![classifier_output(0x01, 100), classifier_output(0x02, 200)];
    let classified = classify_outputs(&outputs, &recipient).unwrap();
    assert_eq!(classified.recipient, Slot { address: String::new(), amount: 0 });
    assert_eq!(classified.change, Slot { address: classifier_address(0x02), amount: 200 });
}

#[test]
fn only_matches_leave_the_change_slot_empty() {
    let recipient = classifier_address(0x01);
    let outputs = vec![classifier_output(0x01, 100)];
    let classified = classify_outputs(&outputs, &recipient).unwrap();
    assert_eq!(classified.recipient, Slot { address: recipient, amount: 100 });
    assert_eq!(classified.change, Slot { address: String::new(), amount: 0 });
}

#[test]
fn no_outputs_leave_both_slots_empty() {
    let classified = classify_outputs(&Vec::new(), "bcrt1qanything").unwrap();
    assert_eq!(
        classified,
        Classification { recipient: Slot::empty(), change: Slot::empty() }
    );
    assert_eq!(Slot::empty(), Slot { address: String::new(), amount: 0 });
}

#[test]
fn recipient_is_matched_exactly() {
    let recipient = classifier_address(0x01).to_uppercase();
    let outputs = vec![classifier_output(0x01, 100)];
    let classified = classify_outputs(&outputs, &recipient).unwrap();
    assert_eq!(classified.recipient, Slot::empty());
    assert_eq!(classified.change, Slot { address: classifier_address(0x01), amount: 100 });
}

#[test]
fn undecodable_output_aborts_classification() {
    let recipient = classifier_address(0x01);
    let outputs = vec![classifier_output(0x01, 100), classifier_undecodable(5)];
    assert_eq!(classify_outputs(&outputs, &recipient), Err(ReportError::AddressDecodeFailure));
}

#[test]
fn undecodable_first_output_aborts_classification() {
    let recipient = classifier_address(0x01);
    let outputs = vec![classifier_undecodable(5), classifier_output(0x01, 100)];
    assert_eq!(classify_outputs(&outputs, &recipient), Err(ReportError::AddressDecodeFailure));
}

#[test]
fn match_recipient_finds_none() {
    let outputs = vec![classifier_output(0x01, 100), classifier_output(0x02, 200)];
    let matched = match_recipient(&outputs, &classifier_address(0x09));
    assert_eq!(matched, Ok(RecipientMatch::NoMatch));
}

#[test]
fn match_recipient_finds_one() {
    let outputs = vec![classifier_output(0x01, 100), classifier_output(0x02, 200)];
    let matched = match_recipient(&outputs, &classifier_address(0x02));
    assert_eq!(matched, Ok(RecipientMatch::SingleMatch(classifier_output(0x02, 200))));
}

#[test]
fn match_recipient_lists_several_in_order() {
    let outputs = vec![
        classifier_output(0x01, 100),
        classifier_output(0x02, 7),
        classifier_output(0x01, 200),
        classifier_output(0x01, 300),
    ];
    let matched = match_recipient(&outputs, &classifier_address(0x01));
    assert_eq!(
        matched,
        Ok(RecipientMatch::MultipleMatches(vec![
            classifier_output(0x01, 100),
            classifier_output(0x01, 200),
            classifier_output(0x01, 300),
        ]))
    );
}

#[test]
fn match_recipient_on_no_outputs() {
    assert_eq!(match_recipient(&Vec::new(), "bcrt1qanything"), Ok(RecipientMatch::NoMatch));
}

#[test]
fn match_recipient_aborts_on_undecodable_output() {
    let outputs = vec![classifier_output(0x01, 100), classifier_undecodable(1)];
    let matched = match_recipient(&outputs, &classifier_address(0x01));
    assert_eq!(matched, Err(ReportError::AddressDecodeFailure));
}

#[test]
fn recipient_slot_is_the_last_of_the_matches() {
    let recipient = classifier_address(0x01);
    let outputs = vec![
        classifier_output(0x01, 100),
        classifier_output(0x02, 7),
        classifier_output(0x01, 200),
    ];
    let classified = classify_outputs(&outputs, &recipient).unwrap();
    match match_recipient(&outputs, &recipient).unwrap() {
        RecipientMatch::MultipleMatches(list) => {
            let last = decode_output(list.last().unwrap()).unwrap();
            assert_eq!(classified.recipient, last);
        }
        other => panic!("expected several matches, got {other:?}"),
    }
}

#[test]
fn decode_output_keeps_the_amount() {
    let slot = decode_output(&classifier_output(0x05, 42)).unwrap();
    assert_eq!(slot, Slot { address: classifier_address(0x05), amount: 42 });
    assert_eq!(decode_output(&classifier_undecodable(42)), Err(ReportError::AddressDecodeFailure));
}

#[test]
fn output_clone_is_equal() {
    let output = classifier_output(0x05, 42);
    assert_eq!(output.clone(), output);
}
