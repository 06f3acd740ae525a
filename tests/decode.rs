use las_reader::bytes::{le_i32, le_u16, le_u32, le_u64, read_mmap_bytes, trim_trailing_nul};
use las_reader::error::LasError;
use las_reader::header::{PublicHeaderBlock, PublicHeaderBlockRaw, HEADER_LEN, LEGACY_HEADER_LEN};
use las_reader::las_file::LasFile;
use las_reader::points::{min_record_length, Point, PointCloud, PointRaw};

fn put(buf: &mut Vec<u8>, at: usize, bytes: &[u8]) {
    buf[at..at + bytes.len()].copy_from_slice(bytes);
}

fn header_len(major: u8, minor: u8) -> usize {
    if (major, minor) == (1, 4) {
        HEADER_LEN
    } else {
        LEGACY_HEADER_LEN
    }
}

/// A header of the length its version has (375 bytes for 1.4, 227 before)
/// with the given format, record length and counts; scales 0.01 on every
/// axis, offsets zero, points right after the header.
fn header(major: u8, minor: u8, format: u8, rec_len: u16, legacy: u32, count: u64) -> Vec<u8> {
    let len = header_len(major, minor);
    let mut h = vec![0u8; len];
    put(&mut h, 0, b"LASF");
    put(&mut h, 4, &7u16.to_le_bytes());
    h[24] = major;
    h[25] = minor;
    put(&mut h, 26, b"SYS");
    put(&mut h, 58, b"generator");
    put(&mut h, 94, &(len as u16).to_le_bytes());
    put(&mut h, 96, &(len as u32).to_le_bytes());
    h[104] = format;
    put(&mut h, 105, &rec_len.to_le_bytes());
    put(&mut h, 107, &legacy.to_le_bytes());
    for k in 0..3 {
        put(&mut h, 131 + 8 * k, &0.01f64.to_le_bytes());
    }
    if len == HEADER_LEN {
        put(&mut h, 247, &count.to_le_bytes());
    }
    h
}

fn record(rec_len: usize, x: i32, y: i32, z: i32, composite: u8) -> Vec<u8> {
    let mut r = vec![0u8; rec_len];
    put(&mut r, 0, &x.to_le_bytes());
    put(&mut r, 4, &y.to_le_bytes());
    put(&mut r, 8, &z.to_le_bytes());
    r[14] = composite;
    r
}

fn decode_header(bytes: &[u8]) -> Result<PublicHeaderBlock, LasError> {
    let raw = PublicHeaderBlockRaw::new_from_reader(bytes)?;
    PublicHeaderBlock::new_from_raw(&raw)
}

fn world(raw: i32, scale_bits: u64, offset_bits: u64) -> f64 {
    raw as f64 * f64::from_bits(scale_bits) + f64::from_bits(offset_bits)
}

#[test]
fn minimal_point_format_zero() {
    let mut file = header(1, 2, 0, 20, 1, 0);
    file.extend(record(20, 100, 200, 300, 0));
    let h = decode_header(&file).unwrap();
    let cloud = PointCloud::parse_all(&file, &h).unwrap();
    assert_eq!(cloud.v.len(), 1);
    let p = cloud.v[0];
    assert_eq!((p.raw_x, p.raw_y, p.raw_z), (100, 200, 300));
    assert!((world(p.raw_x, h.x_scale_factor_bits, h.x_offset_bits) - 1.0).abs() < 1e-12);
    assert!((world(p.raw_y, h.y_scale_factor_bits, h.y_offset_bits) - 2.0).abs() < 1e-12);
    assert!((world(p.raw_z, h.z_scale_factor_bits, h.z_offset_bits) - 3.0).abs() < 1e-12);
    assert_eq!(p.intensity, 0);
}

#[test]
fn composite_byte_fields() {
    let mut file = header(1, 2, 0, 20, 1, 0);
    file.extend(record(20, 100, 200, 300, 0b1010_1101));
    let h = decode_header(&file).unwrap();
    let p = PointCloud::parse_all(&file, &h).unwrap().v[0];
    assert_eq!(p.return_number, 5);
    // bits 3 to 5 of 0b1010_1101 are 1, 0, 1
    assert_eq!(p.number_of_returns, 5);
    assert!(!p.scan_direction_flag);
    assert!(p.edge_of_flight_line);
}

#[test]
fn las14_uses_64_bit_count() {
    let file = header(1, 4, 0, 20, 0, 5_000_000_000);
    let h = decode_header(&file).unwrap();
    assert_eq!(h.point_records, 5_000_000_000);
}

#[test]
fn las12_uses_legacy_count() {
    let mut file = header(1, 2, 0, 20, 3, 0);
    file.extend(vec![0xffu8; 200]);
    let h = decode_header(&file).unwrap();
    assert_eq!(h.point_records, 3);
    assert_eq!(h.start_of_waveform_data, u64::MAX);
    assert_eq!(h.points_by_return, vec![u64::MAX; 15]);
    let raw = PublicHeaderBlockRaw::new_from_reader(&file).unwrap();
    assert_eq!(raw.point_count, [0xffu8; 8]);
}

#[test]
fn gps_time_of_format_one() {
    let mut rec = record(28, 1, 2, 3, 0b0000_1001);
    put(&mut rec, 20, &12345.5f64.to_le_bytes());
    let mut file = header(1, 2, 1, 28, 1, 0);
    file.extend(rec.clone());
    let h = decode_header(&file).unwrap();
    let p = PointCloud::parse_all(&file, &h).unwrap().v[0];
    let gps = p.addons.gps_time.unwrap();
    assert_eq!(f64::from_bits(gps.0), 12345.5);

    let mut other = file.clone();
    put(&mut other, LEGACY_HEADER_LEN + 20, &(-7.25f64).to_le_bytes());
    let q = PointCloud::parse_all(&other, &h).unwrap().v[0];
    assert_eq!(f64::from_bits(q.addons.gps_time.unwrap().0), -7.25);
    let mut q_same = q;
    q_same.addons.gps_time = p.addons.gps_time;
    assert_eq!(q_same, p);
}

#[test]
fn bad_signature() {
    let mut file = header(1, 2, 0, 20, 0, 0);
    put(&mut file, 0, b"LASX");
    assert_eq!(decode_header(&file), Err(LasError::BadSignature));
}

#[test]
fn unsupported_format_99() {
    let mut file = header(1, 2, 99, 20, 1, 0);
    file.extend(record(20, 1, 1, 1, 0));
    let h = decode_header(&file).unwrap();
    assert_eq!(PointCloud::parse_all(&file, &h), Err(LasError::UnsupportedPointFormat(99)));
}

#[test]
fn unsupported_format_six() {
    let mut file = header(1, 4, 6, 30, 0, 1);
    file.extend(vec![0u8; 30]);
    let h = decode_header(&file).unwrap();
    assert_eq!(PointCloud::parse_all(&file, &h), Err(LasError::UnsupportedPointFormat(6)));
}

#[test]
fn point_count_matches_header() {
    let mut file = header(1, 2, 0, 20, 4, 0);
    for k in 0..4 {
        file.extend(record(20, k, -k, 2 * k, 0));
    }
    let h = decode_header(&file).unwrap();
    let cloud = PointCloud::parse_all(&file, &h).unwrap();
    assert_eq!(cloud.v.len() as u64, h.point_records);
    assert_eq!(cloud.v[3].raw_y, -3);
}

#[test]
fn return_fields_stay_in_range() {
    let mut file = header(1, 2, 0, 20, 256, 0);
    for c in 0..=255u8 {
        file.extend(record(20, 0, 0, 0, c));
    }
    let h = decode_header(&file).unwrap();
    let cloud = PointCloud::parse_all(&file, &h).unwrap();
    for (c, p) in cloud.v.iter().enumerate() {
        let c = c as u8;
        assert!(p.return_number <= 7 && p.number_of_returns <= 7);
        assert_eq!(p.return_number, c & 7);
        assert_eq!(p.number_of_returns, (c >> 3) & 7);
        assert_eq!(p.scan_direction_flag, (c >> 6) & 1 == 1);
        assert_eq!(p.edge_of_flight_line, (c >> 7) & 1 == 1);
    }
}

#[test]
fn decoding_twice_is_identical() {
    let mut file = header(1, 2, 3, 34, 2, 0);
    file.extend(record(34, 5, 6, 7, 0x55));
    file.extend(record(34, -5, -6, -7, 0xaa));
    let h = decode_header(&file).unwrap();
    let a = PointCloud::parse_all(&file, &h);
    let b = PointCloud::parse_all(&file, &h);
    assert_eq!(a, b);
}

#[test]
fn header_rewrap_round_trip() {
    let file = header(1, 4, 1, 28, 9, 11);
    let raw = PublicHeaderBlockRaw::new_from_reader(&file).unwrap();
    let bytes = raw.to_bytes();
    assert_eq!(bytes, file);
    let again = PublicHeaderBlockRaw::new_from_reader(&bytes).unwrap();
    assert_eq!(again, raw);
    assert_eq!(
        PublicHeaderBlock::new_from_raw(&again),
        PublicHeaderBlock::new_from_raw(&raw)
    );
}

#[test]
fn legacy_header_rewrap_round_trip() {
    let file = header(1, 2, 0, 20, 9, 0);
    let raw = PublicHeaderBlockRaw::new_from_reader(&file).unwrap();
    let bytes = raw.to_bytes();
    assert_eq!(bytes.len(), HEADER_LEN);
    assert_eq!(&bytes[..LEGACY_HEADER_LEN], &file[..]);
    let again = PublicHeaderBlockRaw::new_from_reader(&bytes).unwrap();
    assert_eq!(again, raw);
    assert_eq!(
        PublicHeaderBlock::new_from_raw(&again),
        PublicHeaderBlock::new_from_raw(&raw)
    );
}

#[test]
fn las13_keeps_waveform_start() {
    let mut file = header(1, 3, 0, 20, 0, 0);
    file.extend(0x0102_0304_0506_0708u64.to_le_bytes());
    file.extend([9u8, 9, 9]);
    let h = decode_header(&file).unwrap();
    assert_eq!(h.start_of_waveform_data, 0x0102_0304_0506_0708);
    // only three bytes of the next field are present; the rest reads as zero
    assert_eq!(h.start_of_first_evlr, 0x0009_0909);
    assert_eq!(h.number_of_evlrs, 0);
    assert_eq!(h.point_records, 0);
}

#[test]
fn header_size_below_its_fields_is_inconsistent() {
    let mut file = header(1, 2, 0, 20, 0, 0);
    put(&mut file, 94, &0u16.to_le_bytes());
    put(&mut file, 96, &0u32.to_le_bytes());
    assert_eq!(decode_header(&file), Err(LasError::InconsistentHeader));
    let mut v14 = header(1, 4, 0, 20, 0, 0);
    put(&mut v14, 94, &(LEGACY_HEADER_LEN as u16).to_le_bytes());
    assert_eq!(decode_header(&v14), Err(LasError::InconsistentHeader));
}

#[test]
fn minimal_las12_file_of_247_bytes() {
    let mut file = header(1, 2, 0, 20, 1, 0);
    file.extend(record(20, 100, 200, 300, 0));
    assert_eq!(file.len(), 247);
    let mut las = LasFile::new_from_bytes(&file).unwrap();
    assert_eq!((las.header.header_size, las.header.offset_point), (227, 227));
    las.read_point_cloud(&file).unwrap();
    let cloud = las.cloud.unwrap();
    assert_eq!(cloud.v.len(), 1);
    assert_eq!((cloud.v[0].raw_x, cloud.v[0].raw_y, cloud.v[0].raw_z), (100, 200, 300));
}

#[test]
fn random_access_matches_sequential() {
    let mut file = header(1, 2, 2, 26, 3, 0);
    for k in 0..3 {
        let mut r = record(26, 10 * k, 20 * k, 30 * k, k as u8);
        put(&mut r, 20, &(k as u16 + 1).to_le_bytes());
        file.extend(r);
    }
    let h = decode_header(&file).unwrap();
    let cloud = PointCloud::parse_all(&file, &h).unwrap();
    for k in 0..3u64 {
        assert_eq!(PointCloud::parse_at(&file, &h, k).unwrap(), cloud.v[k as usize]);
    }
    assert_eq!(cloud.v[2].addons.color.unwrap().r, 3);
    assert_eq!(PointCloud::parse_at(&file, &h, 3), Err(LasError::UnexpectedEof));
}

#[test]
fn zero_points_give_empty_cloud() {
    let file = header(1, 2, 0, 20, 0, 0);
    let h = decode_header(&file).unwrap();
    let cloud = PointCloud::parse_all(&file, &h).unwrap();
    assert!(cloud.v.is_empty());
}

#[test]
fn truncated_region_is_eof() {
    let mut file = header(1, 2, 0, 20, 2, 0);
    file.extend(record(20, 1, 2, 3, 0));
    file.extend(vec![0u8; 19]);
    let h = decode_header(&file).unwrap();
    assert_eq!(PointCloud::parse_all(&file, &h), Err(LasError::UnexpectedEof));
    assert_eq!(PointCloud::parse_number(&file, &h, 1).unwrap().v.len(), 1);
}

#[test]
fn padding_after_fields_is_skipped() {
    let mut file = header(1, 2, 0, 32, 2, 0);
    let mut first = record(32, 1, 2, 3, 0);
    for b in first[20..].iter_mut() {
        *b = 0xee;
    }
    file.extend(first);
    file.extend(record(32, 4, 5, 6, 0));
    let h = decode_header(&file).unwrap();
    let cloud = PointCloud::parse_all(&file, &h).unwrap();
    assert_eq!(cloud.v[0].raw_x, 1);
    assert_eq!((cloud.v[1].raw_x, cloud.v[1].raw_y, cloud.v[1].raw_z), (4, 5, 6));
}

#[test]
fn short_record_length_is_inconsistent() {
    let mut file = header(1, 2, 1, 20, 1, 0);
    file.extend(vec![0u8; 28]);
    let h = decode_header(&file).unwrap();
    assert_eq!(PointCloud::parse_all(&file, &h), Err(LasError::InconsistentHeader));
}

#[test]
fn points_inside_header_are_inconsistent() {
    let mut file = header(1, 2, 0, 20, 0, 0);
    put(&mut file, 96, &100u32.to_le_bytes());
    assert_eq!(decode_header(&file), Err(LasError::InconsistentHeader));
}

#[test]
fn short_header_is_eof() {
    let file = header(1, 2, 0, 20, 0, 0);
    assert_eq!(file.len(), LEGACY_HEADER_LEN);
    assert!(PublicHeaderBlockRaw::new_from_reader(&file).is_ok());
    assert_eq!(
        PublicHeaderBlockRaw::new_from_reader(&file[..LEGACY_HEADER_LEN - 1]),
        Err(LasError::UnexpectedEof)
    );
    let mut v14 = header(1, 4, 0, 20, 0, 0);
    assert!(PublicHeaderBlockRaw::new_from_reader(&v14).is_ok());
    v14.truncate(300);
    assert_eq!(PublicHeaderBlockRaw::new_from_reader(&v14), Err(LasError::UnexpectedEof));
    assert_eq!(LasFile::new_from_bytes(&file[..10]), Err(LasError::UnexpectedEof));
}

#[test]
fn header_text_fields_and_guid() {
    let mut file = header(1, 3, 0, 20, 0, 0);
    put(&mut file, 8, &0xdeadbeefu32.to_le_bytes());
    put(&mut file, 12, &0x1234u16.to_le_bytes());
    put(&mut file, 14, &0xabcdu16.to_le_bytes());
    put(&mut file, 16, b"ABCDEFGH");
    put(&mut file, 90, &42u16.to_le_bytes());
    put(&mut file, 92, &2024u16.to_le_bytes());
    let h = decode_header(&file).unwrap();
    assert_eq!(h.source_id, 7);
    assert_eq!(h.system_id, b"SYS".to_vec());
    assert_eq!(h.generating_software, b"generator".to_vec());
    assert_eq!((h.guid_data_1, h.guid_data_2, h.guid_data_3), (0xdeadbeef, 0x1234, 0xabcd));
    assert_eq!(&h.guid_data_4, b"ABCDEFGH");
    assert_eq!(
        String::from_utf8(h.project_id()).unwrap(),
        "deadbeef-1234-abcd-4142434445464748"
    );
    assert_eq!((h.version_major, h.version_minor), (1, 3));
    assert_eq!((h.creation_day_of_year, h.creation_year), (42, 2024));
    assert_eq!(f64::from_bits(h.z_scale_factor_bits), 0.01);
    assert_eq!(h.points_by_return.len(), 15);
    assert_eq!(h.legacy_points_by_return.len(), 5);
}

#[test]
fn las_file_reads_cloud() {
    let mut file = header(1, 2, 0, 20, 2, 0);
    file.extend(record(20, 1, 2, 3, 0));
    file.extend(record(20, 4, 5, 6, 0));
    let mut las = LasFile::new_from_bytes(&file).unwrap();
    assert!(las.cloud.is_none());
    las.read_point_cloud(&file).unwrap();
    assert_eq!(las.cloud.as_ref().unwrap().v.len(), 2);
    let mut short = las;
    assert_eq!(short.read_point_cloud(&file[..LEGACY_HEADER_LEN + 30]), Err(LasError::UnexpectedEof));
    assert_eq!(short.cloud.unwrap().v.len(), 2);
}

#[test]
fn wave_packet_and_color_formats() {
    let mut rec = record(63, 0, 0, 0, 0);
    put(&mut rec, 28, &[1, 0, 2, 0, 3, 0]);
    rec[34] = 9;
    put(&mut rec, 35, &77u64.to_le_bytes());
    put(&mut rec, 43, &88u32.to_le_bytes());
    put(&mut rec, 47, &1.5f32.to_le_bytes());
    put(&mut rec, 59, &(-2.0f32).to_le_bytes());
    let mut file = header(1, 3, 5, 63, 1, 0);
    file.extend(rec);
    let h = decode_header(&file).unwrap();
    let p = PointCloud::parse_all(&file, &h).unwrap().v[0];
    let c = p.addons.color.unwrap();
    assert_eq!((c.r, c.g, c.b), (1, 2, 3));
    let w = p.addons.wave_packet.unwrap();
    assert_eq!((w.desc_index, w.byte_offset_wave_data, w.wave_size), (9, 77, 88));
    assert_eq!(f32::from_bits(w.point_wave_location_bits), 1.5);
    assert_eq!(f32::from_bits(w.parametric_dz_bits), -2.0);
    assert!(p.addons.gps_time.is_some());
}

#[test]
fn record_lengths_per_format() {
    let lens: Vec<Option<u16>> = (0..8u8).map(min_record_length).collect();
    assert_eq!(lens, vec![Some(20), Some(28), Some(26), Some(34), Some(57), Some(63), None, None]);
}

#[test]
fn little_endian_readers() {
    let b = [0x01u8, 0x02, 0xff, 0xff, 0xff, 0xff, 0x00, 0x80];
    assert_eq!(le_u16(&b, 0), 0x0201);
    assert_eq!(le_u32(&b, 0), 0xffff_0201);
    assert_eq!(le_i32(&b, 2), -1);
    assert_eq!(le_i32(&b, 4), i32::MIN + 0xffff);
    assert_eq!(le_u64(&b, 0), 0x8000_ffff_ffff_0201);
    assert_eq!(trim_trailing_nul(&[65, 0, 66, 0, 0]), vec![65, 0, 66]);
    assert_eq!(trim_trailing_nul(&[0, 0]), Vec::<u8>::new());
}

#[test]
fn cursor_reads_and_advances() {
    let src = [1u8, 2, 3, 4, 5];
    let mut buf = [0u8; 2];
    let mut acc = 1u64;
    assert_eq!(read_mmap_bytes(&mut buf, &src, &mut acc), Ok(()));
    assert_eq!((buf, acc), ([2, 3], 3));
    let mut big = [0u8; 3];
    assert_eq!(read_mmap_bytes(&mut big, &src, &mut acc), Err(LasError::UnexpectedEof));
    assert_eq!((big, acc), ([0, 0, 0], 3));
    let mut cursor = 0u64;
    let mut rec = record(20, 8, 9, 10, 0);
    rec.extend([0u8; 4]);
    assert!(PointRaw::read_from_cursor(&rec, &mut cursor).is_ok());
    assert_eq!(cursor, 20);
    let h = decode_header(&header(1, 2, 0, 20, 1, 0)).unwrap();
    let mut at = 0u64;
    let p: Point = Point::new_from_buf(&rec, &mut at, &h).unwrap();
    assert_eq!((p.raw_x, at), (8, 20));
    assert_eq!(Point::new_from_buf(&rec, &mut at, &h), Err(LasError::UnexpectedEof));
}
