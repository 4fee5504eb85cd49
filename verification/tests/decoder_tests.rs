//! Decoder tests: row framing, tag dispatch, field slicing and errors.

use nr_cif::decoder::{parse_cif, parse_record, CIFParseError, CIFRecordParseError};
use nr_cif::records::CIFRecord;

fn pad(s: &str, w: usize) -> String {
    let mut out = String::from(s);
    while out.len() < w {
        out.push(' ');
    }
    assert!(out.len() == w, "field too long: {s:?}");
    out
}

fn row(s: &str) -> Vec<u8> {
    let padded = pad(s, 80);
    let mut bytes = padded.into_bytes();
    bytes.push(b'\n');
    bytes
}

fn hd_row(date: &str, time: &str, update: char) -> Vec<u8> {
    let s = format!(
        "HD{}{}{}{}{}{}{}{}{}",
        pad("TPS.UDFROC1.PD", 20),
        date,
        time,
        pad("DFROC1A", 7),
        pad("", 7),
        update,
        'A',
        "010624",
        "010625",
    );
    row(&s)
}

fn ti_row(tiploc: &str, crs: &str, description: &str) -> Vec<u8> {
    let s = format!(
        "TI{}{}{}{}{}{}{}{}{}",
        pad(tiploc, 7),
        "00",
        "123456",
        "A",
        pad(description, 26),
        "12345",
        pad("", 4),
        pad(crs, 3),
        pad(description, 16),
    );
    row(&s)
}

#[test]
fn test_minimal_file() {
    let mut bytes = hd_row("010624", "1234", 'U');
    bytes.extend(row("ZZ"));
    let file = parse_cif(&bytes).expect("a header and a trailer decode");
    assert_eq!(file.records().len(), 2);
    assert_eq!(file.records()[0].kind(), (b'H', b'D'));
    assert_eq!(file.records()[1].kind(), (b'Z', b'Z'));
}

#[test]
fn test_header_fields() {
    let bytes = hd_row("010624", "1234", 'F');
    let file_bytes: Vec<u8> = bytes.iter().chain(row("ZZ").iter()).copied().collect();
    let file = parse_cif(&file_bytes).unwrap();
    match &file.records()[0] {
        CIFRecord::Header { date_of_extract, time_of_extract, update_indicator, .. } => {
            assert_eq!(date_of_extract, b"010624");
            assert_eq!(time_of_extract, b"1234");
            assert_eq!(*update_indicator, b'F');
        }
        other => panic!("expected a header, got {other:?}"),
    }
}

#[test]
fn test_tiploc_insert_fields() {
    let mut bytes = ti_row("WATRLMN", "WAT", "WATERLOO MAIN");
    bytes.extend(row("ZZ"));
    let file = parse_cif(&bytes).unwrap();
    match &file.records()[0] {
        CIFRecord::TIPLOCInsert {
            tiploc,
            capitals_identification,
            nlc,
            stanox,
            three_alpha_code,
            ..
        } => {
            assert_eq!(tiploc, b"WATRLMN");
            assert_eq!(*capitals_identification, 0u8);
            assert_eq!(*nlc, 123456u32);
            assert_eq!(*stanox, 12345u32);
            assert_eq!(three_alpha_code, b"WAT");
        }
        other => panic!("expected a TIPLOC insert, got {other:?}"),
    }
}

#[test]
fn test_short_input_is_read_error() {
    // 80 bytes without the terminator byte is not a full chunk.
    let bytes = pad("ZZ", 80).into_bytes();
    match parse_cif(&bytes) {
        Err(e) => assert_eq!(e, CIFParseError::Read),
        Ok(_) => panic!("a truncated chunk must not decode"),
    }
}

#[test]
fn test_missing_trailer_is_read_error() {
    let bytes = hd_row("010624", "1234", 'U');
    match parse_cif(&bytes) {
        Err(e) => assert_eq!(e, CIFParseError::Read),
        Ok(_) => panic!("a feed without a trailer must not decode"),
    }
}

#[test]
fn test_unknown_tag() {
    let mut bytes = row("QQ");
    bytes.extend(row("ZZ"));
    match parse_cif(&bytes) {
        Err(e) => assert_eq!(
            e,
            CIFParseError::AtLine(1, CIFRecordParseError::InvalidRecordType(b'Q', b'Q'))
        ),
        Ok(_) => panic!("an unknown tag must not decode"),
    }
}

#[test]
fn test_error_carries_line_number() {
    let mut bytes = hd_row("010624", "1234", 'U');
    bytes.extend(row("QQ"));
    match parse_cif(&bytes) {
        Err(e) => assert_eq!(
            e,
            CIFParseError::AtLine(2, CIFRecordParseError::InvalidRecordType(b'Q', b'Q'))
        ),
        Ok(_) => panic!("an unknown tag must not decode"),
    }
}

#[test]
fn test_bad_nlc_is_field_error() {
    // Letters where the NLC digits belong.
    let s = format!(
        "TI{}{}{}{}{}{}{}{}{}",
        pad("WATRLMN", 7),
        "00",
        "ABCDEF",
        "A",
        pad("WATERLOO", 26),
        "12345",
        pad("", 4),
        pad("WAT", 3),
        pad("WATERLOO", 16),
    );
    let mut bytes = row(&s);
    bytes.extend(row("ZZ"));
    match parse_cif(&bytes) {
        Err(e) => assert_eq!(e, CIFParseError::AtLine(1, CIFRecordParseError::InvalidNLC)),
        Ok(_) => panic!("letters in the NLC field must not decode"),
    }
}

#[test]
fn test_garbled_row() {
    let short = vec![b'Z'; 79];
    match parse_record(&short) {
        Err(e) => assert_eq!(e, CIFRecordParseError::GarbledRecord),
        Ok(_) => panic!("a short row must not decode"),
    }
}

#[test]
fn test_stream_stops_at_trailer() {
    // A trailer ends the decode; later bytes are not read.
    let mut bytes = row("ZZ");
    bytes.extend(b"random trailing bytes that are not records at all".iter());
    let file = parse_cif(&bytes).unwrap();
    assert_eq!(file.records().len(), 1);
}

#[test]
fn test_row_spans_81_bytes() {
    // Two records consume exactly 162 bytes; one byte fewer fails.
    let mut bytes = hd_row("010624", "1234", 'U');
    bytes.extend(row("ZZ"));
    assert_eq!(bytes.len(), 162);
    assert!(parse_cif(&bytes).is_ok());
    match parse_cif(&bytes[..161]) {
        Err(e) => assert_eq!(e, CIFParseError::Read),
        Ok(_) => panic!("161 bytes are one byte short of two chunks"),
    }
}
