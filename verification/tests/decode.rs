use ybsc::DecodeError;
use ybsc::catalog::{Entry, Equinox, IdType, RawEntry, RawHeader, Ybsc};
use ybsc::reader::ByteReader;

fn push_i32(v: &mut Vec<u8>, x: i32) {
    v.extend_from_slice(&x.to_le_bytes());
}

fn push_header(v: &mut Vec<u8>, star0: i32, star1: i32, starn: i32, stnum: i32, mprop: i32, nmag: i32, nbent: i32) {
    push_i32(v, star0);
    push_i32(v, star1);
    push_i32(v, starn);
    push_i32(v, stnum);
    push_i32(v, mprop);
    push_i32(v, nmag);
    push_i32(v, nbent);
}

fn push_record(v: &mut Vec<u8>, xno: f32, sra0: f64, sdec0: f64, is: [u8; 2], mag: i16, xrpm: f32, xdpm: f32) {
    v.extend_from_slice(&xno.to_bits().to_le_bytes());
    v.extend_from_slice(&sra0.to_bits().to_le_bytes());
    v.extend_from_slice(&sdec0.to_bits().to_le_bytes());
    v.push(is[0]);
    v.push(is[1]);
    v.extend_from_slice(&mag.to_le_bytes());
    v.extend_from_slice(&xrpm.to_bits().to_le_bytes());
    v.extend_from_slice(&xdpm.to_bits().to_le_bytes());
}

#[test]
fn round_trip_minimal() {
    let mut bytes = Vec::new();
    push_header(&mut bytes, 0, 0, 1, 0, 0, 0, 32);
    push_record(&mut bytes, 42.0, 1.5, -0.3, [b'O', b'5'], 350, 0.001, -0.002);
    let mut r = ByteReader::new(bytes);
    let cat = Ybsc::read_from(&mut r).unwrap();
    assert!(matches!(cat.equinox, Equinox::B1950));
    assert!(matches!(cat.id_type, IdType::NoId));
    assert!(!cat.have_proper_motion);
    assert_eq!(cat.stars.len(), 1);
    let s = cat.stars[0];
    assert_eq!(s.xno, 42);
    assert_eq!(f64::from_bits(s.sra0), 1.5);
    assert_eq!(f64::from_bits(s.sdec0), -0.3);
    assert_eq!(s.is, ['O', '5']);
    assert_eq!(s.mag, 350);
    assert_eq!(s.mag as f32 / 100.0, 3.5);
    assert_eq!(f32::from_bits(s.xrpm), 0.001);
    assert_eq!(f32::from_bits(s.xdpm), -0.002);
}

#[test]
fn blank_records_filtered_and_order_kept() {
    let mut bytes = Vec::new();
    push_header(&mut bytes, 0, 0, 3, 2, 1, 0, 32);
    push_record(&mut bytes, 1.0, 0.1, 0.2, [b'A', b'0'], 100, 0.0, 0.0);
    push_record(&mut bytes, 2.0, 0.3, 0.4, [b' ', b' '], 200, 0.0, 0.0);
    push_record(&mut bytes, 3.0, 0.5, 0.6, [b' ', b'3'], 300, 0.0, 0.0);
    let mut r = ByteReader::new(bytes);
    let cat = Ybsc::read_from(&mut r).unwrap();
    assert!(matches!(cat.id_type, IdType::Included));
    assert!(cat.have_proper_motion);
    assert_eq!(cat.stars.len(), 2);
    assert_eq!(cat.stars[0].xno, 1);
    assert_eq!(cat.stars[1].xno, 3);
    for s in &cat.stars {
        assert!(s.is != [' ', ' ']);
    }
}

#[test]
fn blank_record_bad_xno_still_filtered() {
    // A blank slot is dropped before its catalog number is judged.
    let mut bytes = Vec::new();
    push_header(&mut bytes, 0, 0, 2, 0, 0, 0, 32);
    push_record(&mut bytes, -1.0, 0.0, 0.0, [b' ', b' '], 0, 0.0, 0.0);
    push_record(&mut bytes, 7.0, 0.0, 0.0, [b'B', b'2'], 0, 0.0, 0.0);
    let mut r = ByteReader::new(bytes);
    let cat = Ybsc::read_from(&mut r).unwrap();
    assert_eq!(cat.stars.len(), 1);
    assert_eq!(cat.stars[0].xno, 7);
}

#[test]
fn consumes_exactly_header_plus_records() {
    let mut bytes = Vec::new();
    push_header(&mut bytes, 0, 0, 2, 1, 0, 0, 32);
    push_record(&mut bytes, 1.0, 0.0, 0.0, [b'F', b'5'], 0, 0.0, 0.0);
    push_record(&mut bytes, 2.0, 0.0, 0.0, [b'G', b'2'], 0, 0.0, 0.0);
    bytes.extend_from_slice(&[0xAB; 17]); // trailing garbage must stay unread
    let mut r = ByteReader::new(bytes);
    let cat = Ybsc::read_from(&mut r).unwrap();
    assert!(matches!(cat.id_type, IdType::SeeCatalog));
    assert_eq!(cat.stars.len(), 2);
    assert_eq!(r.position(), 28 + 32 * 2);
}

#[test]
fn equinox_from_sign_of_starn() {
    let mut bytes = Vec::new();
    push_header(&mut bytes, 0, 0, -2, 0, 0, 0, 32);
    push_record(&mut bytes, 1.0, 0.0, 0.0, [b'K', b'0'], 0, 0.0, 0.0);
    push_record(&mut bytes, 2.0, 0.0, 0.0, [b'M', b'1'], 0, 0.0, 0.0);
    let mut r = ByteReader::new(bytes);
    let cat = Ybsc::read_from(&mut r).unwrap();
    assert!(matches!(cat.equinox, Equinox::J2000));
    assert_eq!(cat.stars.len(), 2);
    assert_eq!(r.position(), 28 + 32 * 2);
}

#[test]
fn bad_entry_size_fails_before_records() {
    let mut bytes = Vec::new();
    push_header(&mut bytes, 0, 0, 1, 0, 0, 0, 16);
    push_record(&mut bytes, 1.0, 0.0, 0.0, [b'A', b'1'], 0, 0.0, 0.0);
    let mut r = ByteReader::new(bytes);
    let err = Ybsc::read_from(&mut r).unwrap_err();
    assert_eq!(err, DecodeError::BadEntrySize { nbent: 16 });
    assert_eq!(r.position(), 28);
}

#[test]
fn invalid_stnum_fails_at_offset_28() {
    let mut bytes = Vec::new();
    push_header(&mut bytes, 0, 0, 1, 3, 0, 0, 32);
    push_record(&mut bytes, 1.0, 0.0, 0.0, [b'A', b'1'], 0, 0.0, 0.0);
    let mut r = ByteReader::new(bytes);
    let err = Ybsc::read_from(&mut r).unwrap_err();
    assert_eq!(err, DecodeError::InvalidStnum { stnum: 3 });
    assert_eq!(r.position(), 28);
}

#[test]
fn negative_stnum_rejected() {
    let mut bytes = Vec::new();
    push_header(&mut bytes, 0, 0, 0, -1, 0, 0, 32);
    let mut r = ByteReader::new(bytes);
    let err = Ybsc::read_from(&mut r).unwrap_err();
    assert_eq!(err, DecodeError::InvalidStnum { stnum: -1 });
}

#[test]
fn negative_xno_aborts_whole_decode() {
    let mut bytes = Vec::new();
    push_header(&mut bytes, 0, 0, 2, 0, 0, 0, 32);
    push_record(&mut bytes, 5.0, 0.0, 0.0, [b'A', b'1'], 0, 0.0, 0.0);
    push_record(&mut bytes, -1.0, 0.0, 0.0, [b'B', b'2'], 0, 0.0, 0.0);
    let mut r = ByteReader::new(bytes);
    let err = Ybsc::read_from(&mut r).unwrap_err();
    assert_eq!(err, DecodeError::InvalidStarNumber { bits: (-1.0f32).to_bits() });
}

#[test]
fn nan_xno_aborts_whole_decode() {
    let mut bytes = Vec::new();
    push_header(&mut bytes, 0, 0, 1, 0, 0, 0, 32);
    push_record(&mut bytes, f32::NAN, 0.0, 0.0, [b'C', b'9'], 0, 0.0, 0.0);
    let mut r = ByteReader::new(bytes);
    let err = Ybsc::read_from(&mut r).unwrap_err();
    assert!(matches!(err, DecodeError::InvalidStarNumber { .. }));
}

#[test]
fn infinite_xno_rejected_negative_zero_accepted() {
    let mut bytes = Vec::new();
    push_header(&mut bytes, 0, 0, 1, 0, 0, 0, 32);
    push_record(&mut bytes, f32::INFINITY, 0.0, 0.0, [b'D', b'1'], 0, 0.0, 0.0);
    let mut r = ByteReader::new(bytes);
    let err = Ybsc::read_from(&mut r).unwrap_err();
    assert_eq!(err, DecodeError::InvalidStarNumber { bits: f32::INFINITY.to_bits() });

    let mut bytes = Vec::new();
    push_header(&mut bytes, 0, 0, 1, 0, 0, 0, 32);
    push_record(&mut bytes, -0.0, 0.0, 0.0, [b'D', b'1'], 0, 0.0, 0.0);
    let mut r = ByteReader::new(bytes);
    let cat = Ybsc::read_from(&mut r).unwrap();
    assert_eq!(cat.stars[0].xno, 0);
}

#[test]
fn truncated_header_fails() {
    let bytes = vec![0u8; 27];
    let mut r = ByteReader::new(bytes);
    let err = Ybsc::read_from(&mut r).unwrap_err();
    assert_eq!(err, DecodeError::TruncatedInput);
}

#[test]
fn truncated_record_fails() {
    let mut bytes = Vec::new();
    push_header(&mut bytes, 0, 0, 2, 0, 0, 0, 32);
    push_record(&mut bytes, 1.0, 0.0, 0.0, [b'A', b'1'], 0, 0.0, 0.0);
    bytes.extend_from_slice(&[0u8; 31]); // second record one byte short
    let mut r = ByteReader::new(bytes);
    let err = Ybsc::read_from(&mut r).unwrap_err();
    assert_eq!(err, DecodeError::TruncatedInput);
}

#[test]
fn empty_catalog_decodes() {
    let mut bytes = Vec::new();
    push_header(&mut bytes, 0, 0, 0, 0, 0, 0, 32);
    let mut r = ByteReader::new(bytes);
    let cat = Ybsc::read_from(&mut r).unwrap();
    assert!(cat.stars.is_empty());
    assert_eq!(r.position(), 28);
}

#[test]
fn mag_is_hundredths_of_magnitude() {
    let mut bytes = Vec::new();
    push_header(&mut bytes, 0, 0, 2, 0, 0, 0, 32);
    push_record(&mut bytes, 1.0, 0.0, 0.0, [b'A', b'1'], -123, 0.0, 0.0);
    push_record(&mut bytes, 2.0, 0.0, 0.0, [b'B', b'2'], 350, 0.0, 0.0);
    let mut r = ByteReader::new(bytes);
    let cat = Ybsc::read_from(&mut r).unwrap();
    assert_eq!(cat.stars[0].mag, -123);
    assert_eq!(cat.stars[0].mag as f32 / 100.0, -1.23);
    assert_eq!(cat.stars[1].mag as f32 / 100.0, 3.5);
}

#[test]
fn header_read_from_reads_seven_fields() {
    let mut bytes = Vec::new();
    push_header(&mut bytes, 10, 20, -30, 2, 5, 1, 32);
    let mut r = ByteReader::new(bytes);
    let h = RawHeader::read_from(&mut r).unwrap();
    assert_eq!(h.star0, 10);
    assert_eq!(h.star1, 20);
    assert_eq!(h.starn, -30);
    assert_eq!(h.stnum, 2);
    assert!(h.mprop);
    assert_eq!(h.nmag, 1);
    assert_eq!(h.nbent, 32);
    assert_eq!(r.position(), 28);
}

#[test]
fn raw_entry_read_from_and_validity() {
    let mut bytes = Vec::new();
    push_record(&mut bytes, 9.75, 2.25, -1.125, [b'W', b'R'], -42, 1.0, -1.0);
    let mut r = ByteReader::new(bytes);
    let e = RawEntry::read_from(&mut r).unwrap();
    assert_eq!(e.xno, 9.75f32.to_bits());
    assert_eq!(e.sra0, 2.25f64.to_bits());
    assert_eq!(e.sdec0, (-1.125f64).to_bits());
    assert_eq!(e.is, ['W', 'R']);
    assert_eq!(e.mag, -42);
    assert_eq!(e.xrpm, 1.0f32.to_bits());
    assert_eq!(e.xdpm, (-1.0f32).to_bits());
    assert!(e.valid());
    assert_eq!(r.position(), 32);
}

#[test]
fn entry_validity_predicate() {
    let mut bytes = Vec::new();
    push_record(&mut bytes, 1.0, 0.0, 0.0, [b' ', b' '], 0, 0.0, 0.0);
    let mut r = ByteReader::new(bytes);
    let e = RawEntry::read_from(&mut r).unwrap();
    assert!(!e.valid());
}

#[test]
fn entry_try_from_converts_and_rejects() {
    let mut bytes = Vec::new();
    push_record(&mut bytes, 42.9, 1.5, -0.3, [b'O', b'5'], 350, 0.001, -0.002);
    let mut r = ByteReader::new(bytes);
    let raw = RawEntry::read_from(&mut r).unwrap();
    let star = Entry::try_from(raw).unwrap();
    assert_eq!(star.xno, 42); // truncation toward zero
    assert_eq!(star.sra0, raw.sra0);
    assert_eq!(star.is, raw.is);
    assert_eq!(star.mag, raw.mag);
    assert!(star.valid());

    let mut bytes = Vec::new();
    push_record(&mut bytes, f32::NEG_INFINITY, 0.0, 0.0, [b'O', b'5'], 0, 0.0, 0.0);
    let mut r = ByteReader::new(bytes);
    let raw = RawEntry::read_from(&mut r).unwrap();
    let err = Entry::try_from(raw).unwrap_err();
    assert_eq!(err, DecodeError::InvalidStarNumber { bits: f32::NEG_INFINITY.to_bits() });
}

#[test]
fn id_type_try_from_mapping() {
    assert!(matches!(IdType::try_from(0), Ok(IdType::NoId)));
    assert!(matches!(IdType::try_from(1), Ok(IdType::SeeCatalog)));
    assert!(matches!(IdType::try_from(2), Ok(IdType::Included)));
    assert_eq!(IdType::try_from(3).unwrap_err(), DecodeError::InvalidStnum { stnum: 3 });
    assert_eq!(IdType::try_from(i32::MIN).unwrap_err(), DecodeError::InvalidStnum { stnum: i32::MIN });
}
