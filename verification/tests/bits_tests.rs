use h264parser::bits::{BitCursor, BitWriter};
use h264parser::error::Error;
use h264parser::rbsp::DebugRbSp;
use h264parser::sps::{Level, SequenceParameterSetFlag};

#[test]
fn cursor_reads_bits_most_significant_first() {
    let mut cursor = BitCursor::new(vec![0b1010_1100, 0b0100_0000]);
    assert!(cursor.byte_aligned());
    assert_eq!(cursor.read_bit(), Ok(true));
    assert_eq!(cursor.read_bit(), Ok(false));
    assert!(!cursor.byte_aligned());
    assert_eq!(cursor.read_bits(4), Ok(0b1011));
    assert_eq!(cursor.position(), 6);
    assert_eq!(cursor.read_bits(4), Ok(0b0001));
    assert_eq!(cursor.read_bits(8), Err(Error::UnexpectedEndOfData));
    assert_eq!(cursor.read_bits(6), Ok(0));
    assert_eq!(cursor.read_bit(), Err(Error::UnexpectedEndOfData));
}

#[test]
fn writer_packs_bits_with_zero_padding() {
    let mut writer = BitWriter::new();
    writer.write_bit(true);
    writer.write_bits(3, 0b010);
    assert_eq!(writer.len(), 4);
    assert!(!writer.byte_aligned());
    let bytes = writer.to_bytes();
    assert_eq!(bytes, vec![0b1010_0000]);

    let mut writer = BitWriter::new();
    writer.write_bits(16, 0xABCD);
    assert!(writer.byte_aligned());
    assert_eq!(writer.to_bytes(), vec![0xAB, 0xCD]);
}

#[test]
fn writer_then_cursor_round_trips_values() {
    let mut writer = BitWriter::new();
    writer.write_bits(5, 0b10110);
    writer.write_bits(11, 0b101_0101_0101);
    let mut cursor = BitCursor::new(writer.to_bytes());
    assert_eq!(cursor.read_bits(5), Ok(0b10110));
    assert_eq!(cursor.read_bits(11), Ok(0b101_0101_0101));
}

#[test]
fn rbsp_wraps_bytes() {
    let rbsp = DebugRbSp::from_bytes(&vec![9, 8, 7]);
    assert_eq!(rbsp.len(), 3);
    assert_eq!(rbsp.as_bytes(), &vec![9, 8, 7]);
}

#[test]
fn constraint_flags_read_their_bits() {
    let flag = SequenceParameterSetFlag::from_value(0b1010_1000);
    assert!(flag.set0());
    assert!(!flag.set1());
    assert!(flag.set2());
    assert!(!flag.set3());
    assert!(flag.set4());
    assert!(!flag.set5());
    assert_eq!(flag.to_value(), 0b1010_1000);
}

#[test]
fn level_text_notation() {
    assert_eq!(Level::L1.text(), "1");
    assert_eq!(Level::L1B.text(), "1b");
    assert_eq!(Level::L3_1.text(), "3.1");
    assert_eq!(Level::L6_2.text(), "6.2");
}
