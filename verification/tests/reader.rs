use ruvc::error::{ErrorKind, IoError, ParseError};
use ruvc::util::{split_descriptors, zero_extended, BcdVersion, Reader};
use std::time::Duration;

fn end() -> ErrorKind {
    ErrorKind::Io(IoError::UnexpectedEnd)
}

#[test]
fn read_u8_advances_by_one() {
    let data = [7u8, 9];
    let mut rd = Reader::new(&data);
    assert_eq!(rd.read_u8(), Ok(7));
    assert_eq!(rd.pos, 1);
    assert_eq!(rd.read_u8(), Ok(9));
    assert_eq!(rd.read_u8(), Err(end()));
    assert_eq!(rd.pos, 2);
}

#[test]
fn read_u16_is_little_endian() {
    let data = [0x34u8, 0x12, 0xFF];
    let mut rd = Reader::new(&data);
    assert_eq!(rd.read_u16(), Ok(0x1234));
    assert_eq!(rd.pos, 2);
    assert_eq!(rd.read_u16(), Err(end()));
    assert_eq!(rd.pos, 2);
}

#[test]
fn read_u32_is_little_endian() {
    let data = [0x78u8, 0x56, 0x34, 0x12, 1, 2, 3];
    let mut rd = Reader::new(&data);
    assert_eq!(rd.read_u32(), Ok(0x12345678));
    assert_eq!(rd.pos, 4);
    assert_eq!(rd.read_u32(), Err(end()));
    assert_eq!(rd.pos, 4);
}

#[test]
fn read_bytes_copies_the_range() {
    let data = [1u8, 2, 3, 4];
    let mut rd = Reader::new(&data);
    assert_eq!(rd.read_bytes(0), Ok(vec![]));
    assert_eq!(rd.read_bytes(3), Ok(vec![1, 2, 3]));
    assert_eq!(rd.read_bytes(2), Err(end()));
    assert_eq!(rd.read_bytes(1), Ok(vec![4]));
}

#[test]
fn read_bitmask_zero_extends() {
    let data = [0x01u8, 0x02, 0x03];
    assert_eq!(Reader::new(&data).read_bitmask(0), Ok(0));
    assert_eq!(Reader::new(&data).read_bitmask(1), Ok(0x01));
    assert_eq!(Reader::new(&data).read_bitmask(2), Ok(0x0201));
    assert_eq!(Reader::new(&data).read_bitmask(3), Ok(0x030201));
    assert_eq!(Reader::new(&data).read_bitmask(4), Err(end()));
}

#[test]
fn read_bitmask_discards_bytes_past_the_fourth() {
    let data = [0x11u8, 0x22, 0x33, 0x44, 0x55, 0x66, 0x77];
    let mut rd = Reader::new(&data);
    assert_eq!(rd.read_bitmask(6), Ok(0x44332211));
    assert_eq!(rd.pos, 6);
    assert_eq!(rd.read_u8(), Ok(0x77));
}

#[test]
fn read_length_prefixed_bitmask() {
    let data = [2u8, 0xCD, 0xAB, 0x99];
    let mut rd = Reader::new(&data);
    assert_eq!(rd.read_length_prefixed_bitmask(), Ok(0xABCD));
    assert_eq!(rd.pos, 3);
    let short = [3u8, 1, 2];
    let mut rd = Reader::new(&short);
    assert_eq!(rd.read_length_prefixed_bitmask(), Err(end()));
    assert_eq!(rd.pos, 0);
    let empty: [u8; 0] = [];
    assert_eq!(Reader::new(&empty).read_length_prefixed_bitmask(), Err(end()));
    let zero = [0u8];
    assert_eq!(Reader::new(&zero).read_length_prefixed_bitmask(), Ok(0));
}

#[test]
fn nonzero_ids_reject_zero() {
    let data = [0u8];
    assert_eq!(
        Reader::new(&data).read_nonzero_source_id().unwrap_err(),
        ErrorKind::Parse(ParseError::ZeroSourceId)
    );
    assert_eq!(
        Reader::new(&data).read_nonzero_term_id().unwrap_err(),
        ErrorKind::Parse(ParseError::ZeroTerminalId)
    );
    assert_eq!(
        Reader::new(&data).read_nonzero_unit_id().unwrap_err(),
        ErrorKind::Parse(ParseError::ZeroUnitId)
    );
}

#[test]
fn nonzero_ids_read_the_byte() {
    let data = [5u8, 6, 7];
    let mut rd = Reader::new(&data);
    assert_eq!(rd.read_nonzero_source_id().unwrap().as_raw(), 5);
    assert_eq!(rd.read_nonzero_term_id().unwrap().as_raw(), 6);
    assert_eq!(rd.read_nonzero_unit_id().unwrap().as_raw(), 7);
    assert_eq!(rd.read_nonzero_unit_id().unwrap_err(), end());
}

#[test]
fn read_guid_reverses_the_first_three_groups() {
    let data = [
        0x59u8, 0x55, 0x59, 0x32, 0x00, 0x00, 0x10, 0x00, 0x80, 0x00, 0x00, 0xAA, 0x00, 0x38, 0x9B,
        0x71,
    ];
    let mut rd = Reader::new(&data);
    let id = rd.read_guid().unwrap();
    assert_eq!(id, uuid::Uuid::parse_str("32595559-0000-0010-8000-00aa00389b71").unwrap());
    assert_eq!(rd.pos, 16);
}

#[test]
fn read_guid_byte_order() {
    let data: Vec<u8> = (1..=16).collect();
    let id = Reader::new(&data).read_guid().unwrap();
    assert_eq!(id.as_bytes(), &[4, 3, 2, 1, 6, 5, 8, 7, 9, 10, 11, 12, 13, 14, 15, 16]);
}

#[test]
fn read_guid_needs_sixteen_bytes() {
    let data = [0u8; 15];
    let mut rd = Reader::new(&data);
    assert_eq!(rd.read_guid().unwrap_err(), end());
    assert_eq!(rd.pos, 0);
}

#[test]
fn read_time_is_in_units_of_100ns() {
    let data = 333333u32.to_le_bytes();
    let mut rd = Reader::new(&data);
    assert_eq!(rd.read_time_100ns(), Ok(Duration::from_nanos(33_333_300)));
    let max = u32::MAX.to_le_bytes();
    assert_eq!(
        Reader::new(&max).read_time_100ns(),
        Ok(Duration::from_nanos(u64::from(u32::MAX) * 100))
    );
    let short = [1u8, 2, 3];
    assert_eq!(Reader::new(&short).read_time_100ns(), Err(end()));
}

#[test]
fn split_descriptors_by_length_byte() {
    let raw = [3u8, 0x24, 0xAA, 2, 0x0B, 4, 0x24, 1, 2];
    let descs = split_descriptors(&raw);
    assert_eq!(descs.len(), 3);
    assert_eq!(descs[0], (0x24u8, &raw[0..3]));
    assert_eq!(descs[1], (0x0Bu8, &raw[3..5]));
    assert_eq!(descs[2], (0x24u8, &raw[5..9]));
}

#[test]
fn split_descriptors_of_nothing() {
    assert!(split_descriptors(&[]).is_empty());
}

#[test]
fn split_descriptors_stops_at_a_length_past_the_end() {
    let raw = [2u8, 0x24, 9, 0x24, 1];
    let descs = split_descriptors(&raw);
    assert_eq!(descs.len(), 1);
    assert_eq!(descs[0], (0x24u8, &raw[0..2]));
}

#[test]
fn split_descriptors_stops_at_a_length_below_two() {
    let raw = [2u8, 0x24, 0, 0x24, 1];
    assert_eq!(split_descriptors(&raw).len(), 1);
    let raw = [1u8, 0x24, 2, 0x24];
    assert!(split_descriptors(&raw).is_empty());
}

#[test]
fn split_descriptors_stops_at_a_single_trailing_byte() {
    let raw = [2u8, 0x24, 7];
    assert_eq!(split_descriptors(&raw).len(), 1);
}

#[test]
fn zero_extended_appends_zeros() {
    assert_eq!(zero_extended(&[1, 2], 3), vec![1, 2, 0, 0, 0]);
    assert_eq!(zero_extended(&[], 2), vec![0, 0]);
    assert_eq!(zero_extended(&[9], 0), vec![9]);
    assert_eq!(zero_extended(&[5; 10], 100).len(), 110);
}

#[test]
fn bcd_version_parts() {
    assert_eq!(BcdVersion(0x0150).major(), 1);
    assert_eq!(BcdVersion(0x0150).minor(), 0x50);
    assert_eq!(BcdVersion(0x0100).major(), 1);
    assert_eq!(BcdVersion(0x0100).minor(), 0);
}
