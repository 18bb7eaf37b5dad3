use ledger::{APDUAnswer, APDUCommand, LedgerError, CLA, MAX_DATA_LEN};

#[test]
fn command_without_payload_encodes_header_and_zero_length() {
    let c = APDUCommand { ins: 0x01, p1: 0, p2: 0, data: vec![] };
    assert_eq!(c.serialize(), vec![CLA, 0x01, 0x00, 0x00, 0x00]);
    assert_eq!(CLA, 0xE0);
}

#[test]
fn command_with_payload_encodes_length_then_payload_in_order() {
    let c = APDUCommand { ins: 0x02, p1: 0x01, p2: 0x80, data: vec![0xAA, 0xBB, 0xCC] };
    assert_eq!(c.serialize(), vec![0xE0, 0x02, 0x01, 0x80, 0x03, 0xAA, 0xBB, 0xCC]);
}

#[test]
fn command_with_largest_payload_encodes_full_length() {
    let data: Vec<u8> = (0..MAX_DATA_LEN).map(|i| i as u8).collect();
    let c = APDUCommand { ins: 0x04, p1: 0, p2: 0, data: data.clone() };
    let bytes = c.serialize();
    assert_eq!(bytes.len(), 5 + MAX_DATA_LEN);
    assert_eq!(bytes[4], 0xFF);
    assert_eq!(&bytes[5..], &data[..]);
}

#[test]
fn answer_with_status_only_decodes() {
    let a = APDUAnswer::from_answer(vec![0x90, 0x00]).unwrap();
    assert_eq!(a.retcode(), 0x9000);
    assert!(a.data().is_empty());
}

#[test]
fn answer_with_payload_decodes_status_from_last_two_bytes() {
    let a = APDUAnswer::from_answer(vec![0x01, 0x02, 0x03, 0x69, 0x85]).unwrap();
    assert_eq!(a.retcode(), 0x6985);
    assert_eq!(a.data(), &[0x01, 0x02, 0x03]);
    assert_eq!(a.retcode, 0x6985);
    assert_eq!(a.data, vec![0x01, 0x02, 0x03]);
}

#[test]
fn empty_reply_is_malformed() {
    assert_eq!(APDUAnswer::from_answer(vec![]).unwrap_err(), LedgerError::MalformedResponse);
}

#[test]
fn one_byte_reply_is_malformed() {
    assert_eq!(APDUAnswer::from_answer(vec![0x90]).unwrap_err(), LedgerError::MalformedResponse);
}

#[test]
fn answer_serializes_payload_then_status_high_byte_first() {
    let a = APDUAnswer { retcode: 0x6A82, data: vec![0x10, 0x20] };
    assert_eq!(a.serialize(), vec![0x10, 0x20, 0x6A, 0x82]);
}

#[test]
fn answer_round_trips_through_wire_form() {
    let cases = vec![
        APDUAnswer { retcode: 0x9000, data: vec![] },
        APDUAnswer { retcode: 0x0000, data: vec![0x00] },
        APDUAnswer { retcode: 0xFFFF, data: vec![0xDE, 0xAD, 0xBE, 0xEF] },
    ];
    for a in cases {
        let back = APDUAnswer::from_answer(a.serialize()).unwrap();
        assert_eq!(back.retcode, a.retcode);
        assert_eq!(back.data, a.data);
    }
}
