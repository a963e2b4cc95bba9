use slatepack_core::purpose::{infer_slate_purpose, ProtocolStage, SlateSignState};

fn state(num_participants: u8, sigs: &[bool]) -> SlateSignState {
    SlateSignState { num_participants, sig_present: sigs.to_vec() }
}

#[test]
fn two_party_slate_with_no_signatures_is_the_initial_send() {
    assert_eq!(infer_slate_purpose(&state(2, &[false, false])), ProtocolStage::SendInitial);
    assert_eq!(infer_slate_purpose(&state(2, &[false])), ProtocolStage::SendInitial);
}

#[test]
fn two_party_slate_with_one_signature_is_the_response() {
    assert_eq!(infer_slate_purpose(&state(2, &[true, false])), ProtocolStage::SendResponse);
    assert_eq!(infer_slate_purpose(&state(2, &[false, true])), ProtocolStage::SendResponse);
}

#[test]
fn two_party_slate_with_two_signatures_is_full() {
    assert_eq!(infer_slate_purpose(&state(2, &[true, true])), ProtocolStage::FullSlate);
}

#[test]
fn other_participant_counts_default_to_full() {
    assert_eq!(infer_slate_purpose(&state(3, &[false, false, false])), ProtocolStage::FullSlate);
    assert_eq!(infer_slate_purpose(&state(3, &[true, false, false])), ProtocolStage::FullSlate);
    assert_eq!(infer_slate_purpose(&state(3, &[true, true, true])), ProtocolStage::FullSlate);
    assert_eq!(infer_slate_purpose(&state(1, &[true])), ProtocolStage::FullSlate);
}

#[test]
fn two_party_slate_without_records_defaults_to_full() {
    assert_eq!(infer_slate_purpose(&state(2, &[])), ProtocolStage::FullSlate);
}
