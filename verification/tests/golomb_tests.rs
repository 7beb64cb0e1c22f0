use h264parser::bits::{BitCursor, BitWriter};
use h264parser::error::Error;
use h264parser::golomb::{me_decode, se_decode, ue_decode, ue_encode};

#[test]
fn test_encode() {
    let f = |num: u32, ensure_bit_str: &str| {
        let mut out = BitWriter::new();
        let v = ue_encode(num, &mut out);

        let mut res = String::new();
        let mut i = 0usize;
        while i < out.len() {
            res.push(if out.bits[i] { '1' } else { '0' });
            i += 1;
        }

        assert_eq!(ensure_bit_str, res);
        assert_eq!(v as usize, ensure_bit_str.len());
    };

    f(0, "1");
    f(1, "010");
    f(2, "011");
    f(3, "00100");
    f(4, "00101");
    f(5, "00110");
    f(6, "00111");
    f(7, "0001000");
    f(8, "0001001");
    f(9, "0001010");

    f(10, "0001011");
    f(11, "0001100");
    f(12, "0001101");
    f(13, "0001110");
    f(14, "0001111");
    f(15, "000010000");
    f(16, "000010001");
    f(17, "000010010");
    f(18, "000010011");
    f(19, "000010100");

    f(20, "000010101");
    f(21, "000010110");
    f(22, "000010111");
    f(23, "000011000");
    f(24, "000011001");
    f(25, "000011010");
    f(26, "000011011");
    f(27, "000011100");
    f(28, "000011101");
    f(29, "000011110");
}

#[test]
fn test_decode() {
    let f = |num: u32, ensure_bit_str: &str, bytes: &[u8]| {
        let mut reader = BitCursor::new(bytes.to_vec());
        let mut x = 0u32;
        let v = ue_decode(&mut reader, &mut x).unwrap();

        assert_eq!(x, num);
        assert_eq!(ensure_bit_str.len(), v as usize);
    };

    f(0, "1", &[0b1000_0000]);
    f(1, "010", &[0b0100_0000]);
    f(2, "011", &[0b0110_0000]);
    f(3, "00100", &[0b0010_0000]);
    f(4, "00101", &[0b0010_1000]);
    f(5, "00110", &[0b0011_0000]);
    f(6, "00111", &[0b0011_1000]);
    f(7, "0001000", &[0b0001_0000]);
    f(8, "0001001", &[0b0001_0010]);
    f(9, "0001010", &[0b0001_0100]);

    f(10, "0001011", &[0b0001_0110]);
    f(11, "0001100", &[0b0001_1000]);
    f(12, "0001101", &[0b0001_1010]);
    f(13, "0001110", &[0b0001_1100]);
    f(14, "0001111", &[0b0001_1110]);
    f(15, "000010000", &[0b0000_1000, 0b0000_0000]);
    f(16, "000010001", &[0b0000_1000, 0b1000_0000]);
    f(17, "000010010", &[0b0000_1001, 0b0000_0000]);
    f(18, "000010011", &[0b0000_1001, 0b1000_0000]);
    f(19, "000010100", &[0b0000_1010, 0b0000_0000]);

    f(20, "000010101", &[0b0000_1010, 0b1000_0000]);
    f(21, "000010110", &[0b0000_1011, 0b0000_0000]);
    f(22, "000010111", &[0b0000_1011, 0b1000_0000]);
    f(23, "000011000", &[0b0000_1100, 0b0000_0000]);
    f(24, "000011001", &[0b0000_1100, 0b1000_0000]);
    f(25, "000011010", &[0b0000_1101, 0b0000_0000]);
    f(26, "000011011", &[0b0000_1101, 0b1000_0000]);
    f(27, "000011100", &[0b0000_1110, 0b0000_0000]);
    f(28, "000011101", &[0b0000_1110, 0b1000_0000]);
    f(29, "000011110", &[0b0000_1111, 0b0000_0000]);
}

#[test]
fn test_se_decode() {
    assert_eq!(se_decode(0), 0);
    assert_eq!(se_decode(1), 1);
    assert_eq!(se_decode(2), -1);
    assert_eq!(se_decode(3), 2);
    assert_eq!(se_decode(4), -2);
    assert_eq!(se_decode(5), 3);
    assert_eq!(se_decode(6), -3);
}

#[test]
fn test_me_decode() {
    assert_eq!(me_decode(0, 1), Ok((47, 0)));
    assert_eq!(me_decode(0, 2), Ok((47, 0)));

    assert_eq!(me_decode(47, 1), Ok((41, 41)));
    assert_eq!(me_decode(47, 2), Ok((41, 41)));

    assert_eq!(me_decode(0, 0), Ok((15, 0)));
    assert_eq!(me_decode(0, 3), Ok((15, 0)));

    assert_eq!(me_decode(15, 0), Ok((9, 9)));
    assert_eq!(me_decode(15, 3), Ok((9, 9)));
}

#[test]
fn ue_round_trip_through_bytes() {
    let samples: [u32; 10] = [0, 1, 2, 3, 9, 15, 255, 256, 65536, u32::MAX - 1];
    for &n in samples.iter() {
        let mut out = BitWriter::new();
        let written = ue_encode(n, &mut out);
        let bytes = out.to_bytes();
        let mut reader = BitCursor::new(bytes);
        let mut x = 0u32;
        let consumed = ue_decode(&mut reader, &mut x).unwrap();
        assert_eq!(x, n);
        assert_eq!(written, consumed);
    }
}

#[test]
fn ue_decode_code_too_wide_is_malformed() {
    // 32 zero bits before any terminating one bit: wider than the ceiling.
    let mut reader = BitCursor::new(vec![0x00, 0x00, 0x00, 0x00, 0x80]);
    let mut x = 0u32;
    assert_eq!(ue_decode(&mut reader, &mut x), Err(Error::MalformedInput));
}

#[test]
fn ue_decode_truncated_is_end_of_data() {
    // The zero run hits the end of the data before a one bit.
    let mut reader = BitCursor::new(vec![0x00]);
    let mut x = 0u32;
    assert_eq!(ue_decode(&mut reader, &mut x), Err(Error::UnexpectedEndOfData));

    // The one bit arrives but the info bits are cut short.
    let mut reader = BitCursor::new(vec![0b0000_0001]);
    let mut x = 0u32;
    assert_eq!(ue_decode(&mut reader, &mut x), Err(Error::UnexpectedEndOfData));
}

#[test]
fn me_decode_lookup_miss_is_malformed() {
    assert_eq!(me_decode(48, 1), Err(Error::MalformedInput));
    assert_eq!(me_decode(16, 0), Err(Error::MalformedInput));
    assert_eq!(me_decode(0, 4), Err(Error::MalformedInput));
}

#[test]
fn me_decode_table_interior_entries() {
    assert_eq!(me_decode(3, 1), Ok((0, 2)));
    assert_eq!(me_decode(29, 2), Ok((1, 43)));
    assert_eq!(me_decode(1, 0), Ok((0, 1)));
    assert_eq!(me_decode(14, 3), Ok((6, 6)));
}
