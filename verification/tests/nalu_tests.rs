use h264parser::error::Error;
use h264parser::nalu::{Nalu, NaluHeader, NaluKind, NaluPayload, NaluRefIdc};
use h264parser::rbsp::DebugRbSp;

#[test]
fn nalu_kind_round_trip_all_five_bit_values() {
    for v in 0u8..32 {
        let kind = NaluKind::from_value(v).unwrap();
        let back: u8 = kind.to_value();
        assert_eq!(back, v);
    }
}

#[test]
fn nalu_kind_named_values() {
    assert_eq!(NaluKind::from_value(5), Ok(NaluKind::CodedSliceIdr));
    assert_eq!(NaluKind::from_value(6), Ok(NaluKind::SupplementalEnhancementInformation));
    assert_eq!(NaluKind::from_value(7), Ok(NaluKind::SequenceParameterSet));
    assert_eq!(NaluKind::from_value(8), Ok(NaluKind::PictureParameterSet));
    assert_eq!(NaluKind::from_value(9), Ok(NaluKind::AccessUnitDelimiter));
    assert_eq!(NaluKind::from_value(10), Ok(NaluKind::EndOfSequence));
    assert_eq!(NaluKind::from_value(11), Ok(NaluKind::EndOfStream));
    assert_eq!(NaluKind::from_value(12), Ok(NaluKind::FillerData));
    assert_eq!(NaluKind::from_value(17), Ok(NaluKind::Reserved(17)));
    assert_eq!(NaluKind::from_value(24), Ok(NaluKind::Unspecified(24)));
    assert_eq!(NaluKind::from_value(32), Err(Error::MalformedInput));
}

#[test]
fn nalu_ref_idc_round_trip() {
    for v in 0u8..4 {
        let idc = NaluRefIdc::from_value(v).unwrap();
        let back: u8 = idc.to_value();
        assert_eq!(back, v);
    }
    assert_eq!(NaluRefIdc::from_value(4), Err(Error::MalformedInput));
}

#[test]
fn header_invariants_on_construction() {
    // An IDR slice must not be disposable.
    assert_eq!(
        NaluHeader::new(NaluRefIdc::DISPOSABLE, NaluKind::CodedSliceIdr),
        Err(Error::MalformedInput)
    );
    // An access unit delimiter must be disposable.
    assert_eq!(
        NaluHeader::new(NaluRefIdc::HIGH, NaluKind::AccessUnitDelimiter),
        Err(Error::MalformedInput)
    );
    // An IDR slice with any reference importance is fine.
    let header = NaluHeader::new(NaluRefIdc::LOW, NaluKind::CodedSliceIdr).unwrap();
    assert_eq!(header.nal_ref_idc(), NaluRefIdc::LOW);
    assert_eq!(header.nal_unit_type(), NaluKind::CodedSliceIdr);
    assert_eq!(header.forbidden_zero_bit(), 0);
}

#[test]
fn header_byte_decode_and_encode() {
    // 0x67: forbidden 0, ref_idc 3, unit type 7 (SPS).
    let header = NaluHeader::from_byte(0x67).unwrap();
    assert_eq!(header.nal_ref_idc(), NaluRefIdc::HIGHEST);
    assert_eq!(header.nal_unit_type(), NaluKind::SequenceParameterSet);
    assert_eq!(header.to_byte(), 0x67);

    // The forbidden bit set is malformed.
    assert_eq!(NaluHeader::from_byte(0x80), Err(Error::MalformedInput));
    // Unit type 5 (IDR) with ref_idc 0 violates the cross-field rule.
    assert_eq!(NaluHeader::from_byte(0x05), Err(Error::MalformedInput));
    // Unit type 9 (access unit delimiter) with ref_idc 1 violates it too.
    assert_eq!(NaluHeader::from_byte(0x29), Err(Error::MalformedInput));
}

#[test]
fn nalu_from_bytes_splits_header_and_payload() {
    let nalu = Nalu::from_bytes(&vec![0x67, 0xAA, 0xBB]).unwrap();
    assert_eq!(nalu.kind(), NaluKind::SequenceParameterSet);
    assert_eq!(nalu.ref_idc(), NaluRefIdc::HIGHEST);
    match nalu.payload() {
        NaluPayload::Raw(rbsp) => assert_eq!(rbsp.as_bytes(), &vec![0xAA, 0xBB]),
        _ => panic!("expected a raw payload"),
    }

    assert!(Nalu::from_bytes(&vec![]).is_err());
}

#[test]
fn nalu_new_keeps_header_and_payload() {
    let header = NaluHeader::new(NaluRefIdc::HIGH, NaluKind::PictureParameterSet).unwrap();
    let payload = NaluPayload::Raw(DebugRbSp::from_bytes(&vec![1, 2, 3]));
    let nalu = Nalu::new(header, payload);
    assert_eq!(nalu.kind(), NaluKind::PictureParameterSet);
    assert_eq!(nalu.ref_idc(), NaluRefIdc::HIGH);
    match nalu.payload() {
        NaluPayload::Raw(rbsp) => {
            assert_eq!(rbsp.len(), 3);
            assert_eq!(rbsp.as_bytes(), &vec![1, 2, 3]);
        },
        _ => panic!("expected a raw payload"),
    }
}
