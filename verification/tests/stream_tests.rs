use h264parser::error::Error;
use h264parser::nalu::{NaluKind, NaluPayload};
use h264parser::stream::{StreamFormat, StreamReader};

#[test]
fn deescapes_emulation_prevention_byte() {
    // After the start code, the body `67 00 00 03 01` must decode with the
    // emulation-prevention 0x03 removed.
    let mut reader = StreamReader::new(vec![0x01, 0x67, 0x00, 0x00, 0x03, 0x01], StreamFormat::AnnexB);
    let nalu = reader.next_annex_b_nalu().unwrap();
    assert_eq!(reader.buffer(), &vec![0x67, 0x00, 0x00, 0x01]);
    assert_eq!(nalu.kind(), NaluKind::SequenceParameterSet);
    match nalu.payload() {
        NaluPayload::Raw(rbsp) => assert_eq!(rbsp.as_bytes(), &vec![0x00, 0x00, 0x01]),
        _ => panic!("expected a raw payload"),
    }
}

#[test]
fn recovers_consecutive_units_across_boundary() {
    // Two units separated by a three-byte start code: neither may swallow the
    // other's bytes.
    let data = vec![0x00, 0x00, 0x01, 0x67, 0x42, 0x00, 0x00, 0x01, 0x68, 0x43];
    let mut reader = StreamReader::new(data, StreamFormat::AnnexB);

    let first = reader.next_annex_b_nalu().unwrap();
    assert_eq!(reader.buffer(), &vec![0x67, 0x42]);
    assert_eq!(first.kind(), NaluKind::SequenceParameterSet);

    let second = reader.next_annex_b_nalu().unwrap();
    assert_eq!(reader.buffer(), &vec![0x68, 0x43]);
    assert_eq!(second.kind(), NaluKind::PictureParameterSet);
}

#[test]
fn tolerates_four_byte_start_codes() {
    let data = vec![
        0x00, 0x00, 0x00, 0x01, 0x67, 0x42, 0x00, 0x00, 0x00, 0x01, 0x68, 0x43,
    ];
    let mut reader = StreamReader::new(data, StreamFormat::AnnexB);
    reader.next_annex_b_nalu().unwrap();
    assert_eq!(reader.buffer(), &vec![0x67, 0x42]);
    reader.next_annex_b_nalu().unwrap();
    assert_eq!(reader.buffer(), &vec![0x68, 0x43]);
}

#[test]
fn clean_end_of_stream_yields_last_unit_then_none() {
    // The source ends right after the last unit's final byte: that unit is
    // still yielded, then the sequence ends cleanly.
    let data = vec![0x00, 0x00, 0x01, 0x67, 0x42, 0x00, 0x00, 0x01, 0x68, 0x43];
    let mut reader = StreamReader::new(data, StreamFormat::AnnexB);

    let first = reader.next_nalu().unwrap().unwrap();
    assert_eq!(first.kind(), NaluKind::SequenceParameterSet);
    let second = reader.next_nalu().unwrap().unwrap();
    assert_eq!(second.kind(), NaluKind::PictureParameterSet);
    assert!(reader.next_nalu().is_none());
    assert!(reader.next_nalu().is_none());
}

#[test]
fn garbage_before_start_code_is_malformed() {
    let mut reader = StreamReader::new(vec![0x02, 0x67, 0x42], StreamFormat::AnnexB);
    assert!(matches!(reader.next_annex_b_nalu(), Err(Error::MalformedInput)));

    let mut reader = StreamReader::new(vec![0x00, 0x00, 0x09], StreamFormat::AnnexB);
    let item = reader.next_nalu().unwrap();
    assert!(matches!(item, Err(Error::MalformedInput)));
}

#[test]
fn empty_stream_is_clean_end() {
    let mut reader = StreamReader::new(vec![], StreamFormat::AnnexB);
    assert!(reader.next_nalu().is_none());

    // Zero bytes of an unfinished start code are a clean end as well.
    let mut reader = StreamReader::new(vec![0x00, 0x00], StreamFormat::AnnexB);
    assert!(reader.next_nalu().is_none());
}

#[test]
fn escape_resets_the_zero_run() {
    // `00 00 03 00` keeps the two zeros and the trailing zero as body bytes.
    let data = vec![0x00, 0x00, 0x01, 0x67, 0x00, 0x00, 0x03, 0x00, 0x42];
    let mut reader = StreamReader::new(data, StreamFormat::AnnexB);
    reader.next_annex_b_nalu().unwrap();
    assert_eq!(reader.buffer(), &vec![0x67, 0x00, 0x00, 0x00, 0x42]);
}

#[test]
fn boundary_strips_longer_zero_runs() {
    // A unit separated from the next by `00 00 00 01` must not keep any of
    // the start-code zeros in its body.
    let data = vec![0x00, 0x00, 0x01, 0x67, 0x42, 0x00, 0x00, 0x00, 0x01, 0x68, 0x43];
    let mut reader = StreamReader::new(data, StreamFormat::AnnexB);
    reader.next_annex_b_nalu().unwrap();
    assert_eq!(reader.buffer(), &vec![0x67, 0x42]);
    reader.next_annex_b_nalu().unwrap();
    assert_eq!(reader.buffer(), &vec![0x68, 0x43]);
}

#[test]
fn avcc_format_is_unsupported() {
    let mut reader = StreamReader::new(vec![0x00, 0x00, 0x01, 0x67], StreamFormat::AvcC);
    assert_eq!(
        reader.next_avcc_nalu().map(|_| ()),
        Err(Error::UnsupportedFormat)
    );
    let item = reader.next_nalu().unwrap();
    assert!(matches!(item, Err(Error::UnsupportedFormat)));
}

#[test]
fn truncated_unit_body_is_still_yielded_at_end() {
    // A start code with an empty body is malformed (no header byte).
    let mut reader = StreamReader::new(vec![0x00, 0x00, 0x01], StreamFormat::AnnexB);
    let item = reader.next_nalu().unwrap();
    assert!(matches!(item, Err(Error::MalformedInput)));
}

#[test]
fn next_byte_reads_sequentially() {
    let mut reader = StreamReader::new(vec![0xAA, 0xBB], StreamFormat::AnnexB);
    assert_eq!(reader.next_byte(), Ok(0xAA));
    assert_eq!(reader.next_byte(), Ok(0xBB));
    assert_eq!(reader.next_byte(), Err(Error::UnexpectedEndOfData));
}
