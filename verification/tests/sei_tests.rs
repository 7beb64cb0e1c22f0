use h264parser::error::Error;
use h264parser::sei::{SeiMessageKind, SupplementalEnhancementInformation};

#[test]
fn continuation_bytes_accumulate_type_and_size() {
    // payload_type FF FF 05 = 255 + 255 + 5 = 515; payload_size FF 02 = 257,
    // followed by exactly 257 body bytes.
    let mut data = vec![0xFF, 0xFF, 0x05, 0xFF, 0x02];
    let mut body = vec![0u8; 257];
    for (i, b) in body.iter_mut().enumerate() {
        *b = (i % 251) as u8;
    }
    data.extend_from_slice(&body);

    let sei = SupplementalEnhancementInformation::parse(&data).unwrap();
    let messages = sei.messages();
    assert_eq!(messages.len(), 1);
    assert_eq!(messages[0].kind(), SeiMessageKind::Reserved(515));
    assert_eq!(messages[0].len(), 257);
    assert_eq!(messages[0].as_bytes(), &body);
}

#[test]
fn several_messages_in_one_rbsp() {
    // A recovery point (type 6, 1 byte) then user data (type 5, 3 bytes).
    let data = vec![0x06, 0x01, 0xAA, 0x05, 0x03, 0x01, 0x02, 0x03];
    let sei = SupplementalEnhancementInformation::parse(&data).unwrap();
    let messages = sei.messages();
    assert_eq!(messages.len(), 2);
    assert_eq!(messages[0].kind(), SeiMessageKind::RecoveryPoint);
    assert_eq!(messages[0].len(), 1);
    assert_eq!(messages[0].as_bytes(), &vec![0xAA]);
    assert_eq!(messages[1].kind(), SeiMessageKind::UserDataUnregistered);
    assert_eq!(messages[1].len(), 3);
    assert_eq!(messages[1].as_bytes(), &vec![0x01, 0x02, 0x03]);
}

#[test]
fn empty_rbsp_has_no_messages() {
    let sei = SupplementalEnhancementInformation::parse(&vec![]).unwrap();
    assert_eq!(sei.messages().len(), 0);
}

#[test]
fn zero_sized_message_is_allowed() {
    let data = vec![0x03, 0x00];
    let sei = SupplementalEnhancementInformation::parse(&data).unwrap();
    assert_eq!(sei.messages().len(), 1);
    assert_eq!(sei.messages()[0].kind(), SeiMessageKind::FillerPayload);
    assert_eq!(sei.messages()[0].len(), 0);
}

#[test]
fn truncated_rbsp_is_end_of_data() {
    // Ends inside the type field.
    assert_eq!(
        SupplementalEnhancementInformation::parse(&vec![0xFF]).map(|_| ()),
        Err(Error::UnexpectedEndOfData)
    );
    // Ends before the size field.
    assert_eq!(
        SupplementalEnhancementInformation::parse(&vec![0x05]).map(|_| ()),
        Err(Error::UnexpectedEndOfData)
    );
    // Ends inside the body.
    assert_eq!(
        SupplementalEnhancementInformation::parse(&vec![0x05, 0x03, 0x01]).map(|_| ()),
        Err(Error::UnexpectedEndOfData)
    );
}

#[test]
fn sei_kind_round_trip_for_recognized_codes() {
    let recognized: Vec<u32> = (0u32..=54).chain([56, 137, 142, 147, 181]).collect();
    for &code in recognized.iter() {
        let kind = SeiMessageKind::from_value(code);
        assert!(!matches!(kind, SeiMessageKind::Reserved(_)));
        assert_eq!(kind.to_value(), code);
    }
}

#[test]
fn sei_kind_unrecognized_codes_are_reserved() {
    for &code in [55u32, 57, 100, 136, 138, 180, 182, 1_000_000].iter() {
        let kind = SeiMessageKind::from_value(code);
        assert_eq!(kind, SeiMessageKind::Reserved(code));
        assert_eq!(kind.to_value(), code);
    }
}
