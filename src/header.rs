//! The public header block: its on-disk layout and its decoded form.

use vstd::prelude::*;

use crate::bytes::{
    le_u16, le_u32, le_u32_run, le_u64, le_u64_run, padded, read_mmap_bytes, read_mmap_bytes_or_zero, spec_u16_le, spec_u32_le,
    spec_u64_le, trim_nul, trim_trailing_nul,
};
use crate::error::LasError;

verus! {

/// Number of bytes that the header fields below occupy, in LAS 1.4 layout.
pub const HEADER_LEN: usize = 375;

/// Number of bytes of the fields that every version has; the fields after
/// them exist from version 1.4 on.
pub const LEGACY_HEADER_LEN: usize = 227;

/// The version bytes of the header at the start of `b` read 1.4.
pub open spec fn is_las14(b: Seq<u8>) -> bool {
    b[24] == 1 && b[25] == 4
}

/// Number of header bytes that the fields of version `major.minor` occupy.
pub open spec fn consumed_len(major: u8, minor: u8) -> int {
    if major == 1 && minor == 4 {
        HEADER_LEN as int
    } else {
        LEGACY_HEADER_LEN as int
    }
}

/// `b` is too short for the header of the version it declares.
pub open spec fn header_too_short(b: Seq<u8>) -> bool {
    b.len() < LEGACY_HEADER_LEN || (is_las14(b) && b.len() < HEADER_LEN)
}

/// A zero-initialised block of 120 bytes.
#[derive(Debug, PartialEq, Eq)]
pub struct Array120(pub [u8; 120]);

impl Default for Array120 {
    fn default() -> (r: Self)
        ensures
            r.0@ == Seq::new(120, |i: int| 0u8),
    {
        Array120([0u8; 120])
    }
}

/// The public header block as it lies on disk: one little-endian byte array
/// per field, in file order.
#[derive(Debug, PartialEq, Eq)]
pub struct PublicHeaderBlockRaw {
    /// File signature, `LASF` in a valid file.
    pub file_signature: [u8; 4],
    pub source_id: [u8; 2],
    pub global_encoding: [u8; 2],
    /// First component of the project GUID.
    pub guid_data_1: [u8; 4],
    pub guid_data_2: [u8; 2],
    pub guid_data_3: [u8; 2],
    /// Last eight bytes of the project GUID.
    pub guid_data_4: [u8; 8],
    pub version_major: [u8; 1],
    pub version_minor: [u8; 1],
    /// System identifier, NUL padded.
    pub system_id: [u8; 32],
    /// Generating software, NUL padded.
    pub generating_software: [u8; 32],
    pub creation_day_of_year: [u8; 2],
    pub creation_year: [u8; 2],
    pub header_size: [u8; 2],
    /// Offset from the start of the file to the first point record.
    pub offset_point: [u8; 4],
    pub number_of_vlrs: [u8; 4],
    /// Point data record format code.
    pub point_data_record_format: [u8; 1],
    /// Length in bytes of one point record.
    pub point_data_record_length: [u8; 2],
    /// Legacy 32-bit number of point records.
    pub legacy_point_count: [u8; 4],
    /// Legacy 32-bit point counts for returns one to five.
    pub legacy_points_by_return: [u8; 20],
    pub x_scale_factor: [u8; 8],
    pub y_scale_factor: [u8; 8],
    pub z_scale_factor: [u8; 8],
    pub x_offset: [u8; 8],
    pub y_offset: [u8; 8],
    pub z_offset: [u8; 8],
    pub max_x: [u8; 8],
    pub min_x: [u8; 8],
    pub max_y: [u8; 8],
    pub min_y: [u8; 8],
    pub max_z: [u8; 8],
    pub min_z: [u8; 8],
    pub start_of_waveform_data: [u8; 8],
    pub start_of_first_evlr: [u8; 8],
    pub number_of_evlrs: [u8; 4],
    /// 64-bit number of point records (LAS 1.4).
    pub point_count: [u8; 8],
    /// 64-bit point counts for returns one to fifteen (LAS 1.4).
    pub points_by_return: Array120,
}

impl PublicHeaderBlockRaw {
    /// Every field holds the bytes of `b` at the field's place in the layout;
    /// where `b` ends before a field does, the field holds zero there.
    pub open spec fn read_from(&self, b: Seq<u8>) -> bool {
        &&& self.file_signature@ == b.subrange(0, 4)
        &&& self.source_id@ == b.subrange(4, 6)
        &&& self.global_encoding@ == b.subrange(6, 8)
        &&& self.guid_data_1@ == b.subrange(8, 12)
        &&& self.guid_data_2@ == b.subrange(12, 14)
        &&& self.guid_data_3@ == b.subrange(14, 16)
        &&& self.guid_data_4@ == b.subrange(16, 24)
        &&& self.version_major@ == b.subrange(24, 25)
        &&& self.version_minor@ == b.subrange(25, 26)
        &&& self.system_id@ == b.subrange(26, 58)
        &&& self.generating_software@ == b.subrange(58, 90)
        &&& self.creation_day_of_year@ == b.subrange(90, 92)
        &&& self.creation_year@ == b.subrange(92, 94)
        &&& self.header_size@ == b.subrange(94, 96)
        &&& self.offset_point@ == b.subrange(96, 100)
        &&& self.number_of_vlrs@ == b.subrange(100, 104)
        &&& self.point_data_record_format@ == b.subrange(104, 105)
        &&& self.point_data_record_length@ == b.subrange(105, 107)
        &&& self.legacy_point_count@ == b.subrange(107, 111)
        &&& self.legacy_points_by_return@ == b.subrange(111, 131)
        &&& self.x_scale_factor@ == b.subrange(131, 139)
        &&& self.y_scale_factor@ == b.subrange(139, 147)
        &&& self.z_scale_factor@ == b.subrange(147, 155)
        &&& self.x_offset@ == b.subrange(155, 163)
        &&& self.y_offset@ == b.subrange(163, 171)
        &&& self.z_offset@ == b.subrange(171, 179)
        &&& self.max_x@ == b.subrange(179, 187)
        &&& self.min_x@ == b.subrange(187, 195)
        &&& self.max_y@ == b.subrange(195, 203)
        &&& self.min_y@ == b.subrange(203, 211)
        &&& self.max_z@ == b.subrange(211, 219)
        &&& self.min_z@ == b.subrange(219, 227)
        &&& self.start_of_waveform_data@ == padded(b, 227, 235)
        &&& self.start_of_first_evlr@ == padded(b, 235, 243)
        &&& self.number_of_evlrs@ == padded(b, 243, 247)
        &&& self.point_count@ == padded(b, 247, 255)
        &&& self.points_by_return.0@ == padded(b, 255, 375)
    }

    /// The fields' bytes laid end to end.
    pub open spec fn spec_bytes(&self) -> Seq<u8> {
        self.file_signature@
            + self.source_id@
            + self.global_encoding@
            + self.guid_data_1@
            + self.guid_data_2@
            + self.guid_data_3@
            + self.guid_data_4@
            + self.version_major@
            + self.version_minor@
            + self.system_id@
            + self.generating_software@
            + self.creation_day_of_year@
            + self.creation_year@
            + self.header_size@
            + self.offset_point@
            + self.number_of_vlrs@
            + self.point_data_record_format@
            + self.point_data_record_length@
            + self.legacy_point_count@
            + self.legacy_points_by_return@
            + self.x_scale_factor@
            + self.y_scale_factor@
            + self.z_scale_factor@
            + self.x_offset@
            + self.y_offset@
            + self.z_offset@
            + self.max_x@
            + self.min_x@
            + self.max_y@
            + self.min_y@
            + self.max_z@
            + self.min_z@
            + self.start_of_waveform_data@
            + self.start_of_first_evlr@
            + self.number_of_evlrs@
            + self.point_count@
            + self.points_by_return.0@
    }

    /// Reads the header fields one after another from the start of `file`,
    /// with a running offset. The input must hold the fields of the version
    /// it declares; the fields that only later versions define are read as
    /// far as the input goes and are zero past its end.
    pub fn new_from_reader(file: &[u8]) -> (r: Result<Self, LasError>)
        ensures
            match r {
                Ok(raw) => !header_too_short(file@) && raw.read_from(file@),
                Err(e) => header_too_short(file@) && e == LasError::UnexpectedEof,
            },
    {
        let mut raw = PublicHeaderBlockRaw {
            file_signature: [0u8; 4],
            source_id: [0u8; 2],
            global_encoding: [0u8; 2],
            guid_data_1: [0u8; 4],
            guid_data_2: [0u8; 2],
            guid_data_3: [0u8; 2],
            guid_data_4: [0u8; 8],
            version_major: [0u8; 1],
            version_minor: [0u8; 1],
            system_id: [0u8; 32],
            generating_software: [0u8; 32],
            creation_day_of_year: [0u8; 2],
            creation_year: [0u8; 2],
            header_size: [0u8; 2],
            offset_point: [0u8; 4],
            number_of_vlrs: [0u8; 4],
            point_data_record_format: [0u8; 1],
            point_data_record_length: [0u8; 2],
            legacy_point_count: [0u8; 4],
            legacy_points_by_return: [0u8; 20],
            x_scale_factor: [0u8; 8],
            y_scale_factor: [0u8; 8],
            z_scale_factor: [0u8; 8],
            x_offset: [0u8; 8],
            y_offset: [0u8; 8],
            z_offset: [0u8; 8],
            max_x: [0u8; 8],
            min_x: [0u8; 8],
            max_y: [0u8; 8],
            min_y: [0u8; 8],
            max_z: [0u8; 8],
            min_z: [0u8; 8],
            start_of_waveform_data: [0u8; 8],
            start_of_first_evlr: [0u8; 8],
            number_of_evlrs: [0u8; 4],
            point_count: [0u8; 8],
            points_by_return: Array120::default(),
        };
        let len = file.len();
        if len < LEGACY_HEADER_LEN || (file[24] == 1 && file[25] == 4 && len < HEADER_LEN) {
            return Err(LasError::UnexpectedEof);
        }
        let mut acc: u64 = 0;
        read_mmap_bytes(&mut raw.file_signature, file, &mut acc)?;
        read_mmap_bytes(&mut raw.source_id, file, &mut acc)?;
        read_mmap_bytes(&mut raw.global_encoding, file, &mut acc)?;
        read_mmap_bytes(&mut raw.guid_data_1, file, &mut acc)?;
        read_mmap_bytes(&mut raw.guid_data_2, file, &mut acc)?;
        read_mmap_bytes(&mut raw.guid_data_3, file, &mut acc)?;
        read_mmap_bytes(&mut raw.guid_data_4, file, &mut acc)?;
        read_mmap_bytes(&mut raw.version_major, file, &mut acc)?;
        read_mmap_bytes(&mut raw.version_minor, file, &mut acc)?;
        read_mmap_bytes(&mut raw.system_id, file, &mut acc)?;
        read_mmap_bytes(&mut raw.generating_software, file, &mut acc)?;
        read_mmap_bytes(&mut raw.creation_day_of_year, file, &mut acc)?;
        read_mmap_bytes(&mut raw.creation_year, file, &mut acc)?;
        read_mmap_bytes(&mut raw.header_size, file, &mut acc)?;
        read_mmap_bytes(&mut raw.offset_point, file, &mut acc)?;
        read_mmap_bytes(&mut raw.number_of_vlrs, file, &mut acc)?;
        read_mmap_bytes(&mut raw.point_data_record_format, file, &mut acc)?;
        read_mmap_bytes(&mut raw.point_data_record_length, file, &mut acc)?;
        read_mmap_bytes(&mut raw.legacy_point_count, file, &mut acc)?;
        read_mmap_bytes(&mut raw.legacy_points_by_return, file, &mut acc)?;
        read_mmap_bytes(&mut raw.x_scale_factor, file, &mut acc)?;
        read_mmap_bytes(&mut raw.y_scale_factor, file, &mut acc)?;
        read_mmap_bytes(&mut raw.z_scale_factor, file, &mut acc)?;
        read_mmap_bytes(&mut raw.x_offset, file, &mut acc)?;
        read_mmap_bytes(&mut raw.y_offset, file, &mut acc)?;
        read_mmap_bytes(&mut raw.z_offset, file, &mut acc)?;
        read_mmap_bytes(&mut raw.max_x, file, &mut acc)?;
        read_mmap_bytes(&mut raw.min_x, file, &mut acc)?;
        read_mmap_bytes(&mut raw.max_y, file, &mut acc)?;
        read_mmap_bytes(&mut raw.min_y, file, &mut acc)?;
        read_mmap_bytes(&mut raw.max_z, file, &mut acc)?;
        read_mmap_bytes(&mut raw.min_z, file, &mut acc)?;
        read_mmap_bytes_or_zero(&mut raw.start_of_waveform_data, file, &mut acc);
        read_mmap_bytes_or_zero(&mut raw.start_of_first_evlr, file, &mut acc);
        read_mmap_bytes_or_zero(&mut raw.number_of_evlrs, file, &mut acc);
        read_mmap_bytes_or_zero(&mut raw.point_count, file, &mut acc);
        read_mmap_bytes_or_zero(&mut raw.points_by_return.0, file, &mut acc);
        Ok(raw)
    }

    /// The fields' bytes laid end to end, ready to be read again.
    pub fn to_bytes(&self) -> (r: Vec<u8>)
        ensures
            r@ == self.spec_bytes(),
    {
        let mut r: Vec<u8> = Vec::new();
        r.extend_from_slice(&self.file_signature);
        r.extend_from_slice(&self.source_id);
        r.extend_from_slice(&self.global_encoding);
        r.extend_from_slice(&self.guid_data_1);
        r.extend_from_slice(&self.guid_data_2);
        r.extend_from_slice(&self.guid_data_3);
        r.extend_from_slice(&self.guid_data_4);
        r.extend_from_slice(&self.version_major);
        r.extend_from_slice(&self.version_minor);
        r.extend_from_slice(&self.system_id);
        r.extend_from_slice(&self.generating_software);
        r.extend_from_slice(&self.creation_day_of_year);
        r.extend_from_slice(&self.creation_year);
        r.extend_from_slice(&self.header_size);
        r.extend_from_slice(&self.offset_point);
        r.extend_from_slice(&self.number_of_vlrs);
        r.extend_from_slice(&self.point_data_record_format);
        r.extend_from_slice(&self.point_data_record_length);
        r.extend_from_slice(&self.legacy_point_count);
        r.extend_from_slice(&self.legacy_points_by_return);
        r.extend_from_slice(&self.x_scale_factor);
        r.extend_from_slice(&self.y_scale_factor);
        r.extend_from_slice(&self.z_scale_factor);
        r.extend_from_slice(&self.x_offset);
        r.extend_from_slice(&self.y_offset);
        r.extend_from_slice(&self.z_offset);
        r.extend_from_slice(&self.max_x);
        r.extend_from_slice(&self.min_x);
        r.extend_from_slice(&self.max_y);
        r.extend_from_slice(&self.min_y);
        r.extend_from_slice(&self.max_z);
        r.extend_from_slice(&self.min_z);
        r.extend_from_slice(&self.start_of_waveform_data);
        r.extend_from_slice(&self.start_of_first_evlr);
        r.extend_from_slice(&self.number_of_evlrs);
        r.extend_from_slice(&self.point_count);
        r.extend_from_slice(&self.points_by_return.0);
        r
    }
}

/// The LAS signature `LASF`.
pub open spec fn las_signature() -> Seq<u8> {
    seq![76u8, 65u8, 83u8, 70u8]
}

/// The decoded public header block.
///
/// Floating-point fields (scales, offsets, bounds) are kept as the bit
/// patterns of their IEEE 754 doubles.
#[derive(Debug, PartialEq, Eq)]
pub struct PublicHeaderBlock {
    pub file_signature: [u8; 4],
    pub source_id: u16,
    pub global_encoding: u16,
    /// The project GUID, as its four components.
    pub guid_data_1: u32,
    pub guid_data_2: u16,
    pub guid_data_3: u16,
    pub guid_data_4: [u8; 8],
    pub version_major: u8,
    pub version_minor: u8,
    /// System identifier without its trailing NUL padding.
    pub system_id: Vec<u8>,
    /// Generating software without its trailing NUL padding.
    pub generating_software: Vec<u8>,
    pub creation_day_of_year: u16,
    pub creation_year: u16,
    pub header_size: u16,
    /// Offset from the start of the file to the first point record.
    pub offset_point: u32,
    pub number_of_vlrs: u32,
    pub point_format: u8,
    /// Length in bytes of one point record.
    pub point_length: u16,
    /// Number of point records: the 64-bit count for version 1.4, the legacy
    /// 32-bit count otherwise.
    pub point_records: u64,
    pub legacy_points_by_return: Vec<u32>,
    pub x_scale_factor_bits: u64,
    pub y_scale_factor_bits: u64,
    pub z_scale_factor_bits: u64,
    pub x_offset_bits: u64,
    pub y_offset_bits: u64,
    pub z_offset_bits: u64,
    pub max_x_bits: u64,
    pub min_x_bits: u64,
    pub max_y_bits: u64,
    pub min_y_bits: u64,
    pub max_z_bits: u64,
    pub min_z_bits: u64,
    /// This field and the ones after it are defined from version 1.4 on
    /// (this one from 1.3); they are decoded from their place in any case,
    /// and are zero where the input ends before them.
    pub start_of_waveform_data: u64,
    pub start_of_first_evlr: u64,
    pub number_of_evlrs: u32,
    pub points_by_return: Vec<u64>,
}

impl PublicHeaderBlock {
    /// `self` holds the decoded values of the fields of `raw`.
    pub open spec fn decoded_from(&self, raw: &PublicHeaderBlockRaw) -> bool {
        &&& self.file_signature@ == raw.file_signature@
        &&& self.source_id == spec_u16_le(raw.source_id@, 0)
        &&& self.global_encoding == spec_u16_le(raw.global_encoding@, 0)
        &&& self.guid_data_1 == spec_u32_le(raw.guid_data_1@, 0)
        &&& self.guid_data_2 == spec_u16_le(raw.guid_data_2@, 0)
        &&& self.guid_data_3 == spec_u16_le(raw.guid_data_3@, 0)
        &&& self.guid_data_4@ == raw.guid_data_4@
        &&& self.version_major == raw.version_major@[0]
        &&& self.version_minor == raw.version_minor@[0]
        &&& self.system_id@ == trim_nul(raw.system_id@)
        &&& self.generating_software@ == trim_nul(raw.generating_software@)
        &&& self.creation_day_of_year == spec_u16_le(raw.creation_day_of_year@, 0)
        &&& self.creation_year == spec_u16_le(raw.creation_year@, 0)
        &&& self.header_size == spec_u16_le(raw.header_size@, 0)
        &&& self.offset_point == spec_u32_le(raw.offset_point@, 0)
        &&& self.number_of_vlrs == spec_u32_le(raw.number_of_vlrs@, 0)
        &&& self.point_format == raw.point_data_record_format@[0]
        &&& self.point_length == spec_u16_le(raw.point_data_record_length@, 0)
        &&& self.point_records == if raw.version_major@[0] == 1 && raw.version_minor@[0] == 4 {
            spec_u64_le(raw.point_count@, 0)
        } else {
            spec_u32_le(raw.legacy_point_count@, 0)
        }
        &&& self.legacy_points_by_return@ == Seq::new(
            5,
            |k: int| spec_u32_le(raw.legacy_points_by_return@, 4 * k) as u32,
        )
        &&& self.x_scale_factor_bits == spec_u64_le(raw.x_scale_factor@, 0)
        &&& self.y_scale_factor_bits == spec_u64_le(raw.y_scale_factor@, 0)
        &&& self.z_scale_factor_bits == spec_u64_le(raw.z_scale_factor@, 0)
        &&& self.x_offset_bits == spec_u64_le(raw.x_offset@, 0)
        &&& self.y_offset_bits == spec_u64_le(raw.y_offset@, 0)
        &&& self.z_offset_bits == spec_u64_le(raw.z_offset@, 0)
        &&& self.max_x_bits == spec_u64_le(raw.max_x@, 0)
        &&& self.min_x_bits == spec_u64_le(raw.min_x@, 0)
        &&& self.max_y_bits == spec_u64_le(raw.max_y@, 0)
        &&& self.min_y_bits == spec_u64_le(raw.min_y@, 0)
        &&& self.max_z_bits == spec_u64_le(raw.max_z@, 0)
        &&& self.min_z_bits == spec_u64_le(raw.min_z@, 0)
        &&& self.start_of_waveform_data == spec_u64_le(raw.start_of_waveform_data@, 0)
        &&& self.start_of_first_evlr == spec_u64_le(raw.start_of_first_evlr@, 0)
        &&& self.number_of_evlrs == spec_u32_le(raw.number_of_evlrs@, 0)
        &&& self.points_by_return@ == Seq::new(
            15,
            |k: int| spec_u64_le(raw.points_by_return.0@, 8 * k) as u64,
        )
    }

    /// `r` is what decoding `raw` gives: `BadSignature` unless the signature
    /// is `LASF`, then `InconsistentHeader` when the declared header size is
    /// smaller than the fields its version has or the points would start
    /// inside the header, else the decoded header.
    pub open spec fn decoding_of(raw: &PublicHeaderBlockRaw, r: Result<Self, LasError>) -> bool {
        if raw.file_signature@ != las_signature() {
            r == Err::<Self, LasError>(LasError::BadSignature)
        } else if spec_u16_le(raw.header_size@, 0) < consumed_len(raw.version_major@[0], raw.version_minor@[0])
            || spec_u32_le(raw.offset_point@, 0) < spec_u16_le(raw.header_size@, 0) {
            r == Err::<Self, LasError>(LasError::InconsistentHeader)
        } else {
            r is Ok && r->Ok_0.decoded_from(raw)
        }
    }

    /// Decodes the fields of `raw`.
    pub fn new_from_raw(raw: &PublicHeaderBlockRaw) -> (r: Result<Self, LasError>)
        ensures
            Self::decoding_of(raw, r),
    {
        let sig = raw.file_signature;
        if !(sig[0] == 76 && sig[1] == 65 && sig[2] == 83 && sig[3] == 70) {
            assert(sig@ != las_signature()) by {
                if sig@ == las_signature() {
                    assert(sig@[0] == 76 && sig@[1] == 65 && sig@[2] == 83 && sig@[3] == 70);
                }
            }
            return Err(LasError::BadSignature);
        }
        assert(sig@ =~= las_signature());
        let header_size = le_u16(&raw.header_size, 0);
        let offset_point = le_u32(&raw.offset_point, 0);
        let version_major = raw.version_major[0];
        let version_minor = raw.version_minor[0];
        let consumed: u16 = if version_major == 1 && version_minor == 4 {
            HEADER_LEN as u16
        } else {
            LEGACY_HEADER_LEN as u16
        };
        if header_size < consumed || (offset_point as u64) < (header_size as u64) {
            return Err(LasError::InconsistentHeader);
        }
        let point_records = if version_major == 1 && version_minor == 4 {
            le_u64(&raw.point_count, 0)
        } else {
            le_u32(&raw.legacy_point_count, 0) as u64
        };
        Ok(PublicHeaderBlock {
            file_signature: sig,
            source_id: le_u16(&raw.source_id, 0),
            global_encoding: le_u16(&raw.global_encoding, 0),
            guid_data_1: le_u32(&raw.guid_data_1, 0),
            guid_data_2: le_u16(&raw.guid_data_2, 0),
            guid_data_3: le_u16(&raw.guid_data_3, 0),
            guid_data_4: raw.guid_data_4,
            version_major,
            version_minor,
            system_id: trim_trailing_nul(&raw.system_id),
            generating_software: trim_trailing_nul(&raw.generating_software),
            creation_day_of_year: le_u16(&raw.creation_day_of_year, 0),
            creation_year: le_u16(&raw.creation_year, 0),
            header_size,
            offset_point,
            number_of_vlrs: le_u32(&raw.number_of_vlrs, 0),
            point_format: raw.point_data_record_format[0],
            point_length: le_u16(&raw.point_data_record_length, 0),
            point_records,
            legacy_points_by_return: le_u32_run(&raw.legacy_points_by_return, 5),
            x_scale_factor_bits: le_u64(&raw.x_scale_factor, 0),
            y_scale_factor_bits: le_u64(&raw.y_scale_factor, 0),
            z_scale_factor_bits: le_u64(&raw.z_scale_factor, 0),
            x_offset_bits: le_u64(&raw.x_offset, 0),
            y_offset_bits: le_u64(&raw.y_offset, 0),
            z_offset_bits: le_u64(&raw.z_offset, 0),
            max_x_bits: le_u64(&raw.max_x, 0),
            min_x_bits: le_u64(&raw.min_x, 0),
            max_y_bits: le_u64(&raw.max_y, 0),
            min_y_bits: le_u64(&raw.min_y, 0),
            max_z_bits: le_u64(&raw.max_z, 0),
            min_z_bits: le_u64(&raw.min_z, 0),
            start_of_waveform_data: le_u64(&raw.start_of_waveform_data, 0),
            start_of_first_evlr: le_u64(&raw.start_of_first_evlr, 0),
            number_of_evlrs: le_u32(&raw.number_of_evlrs, 0),
            points_by_return: le_u64_run(&raw.points_by_return.0, 15),
        })
    }
}

/// The lowercase hexadecimal digit for `n`, which lies in 0..16.
pub open spec fn hex_digit(n: int) -> u8 {
    if n < 10 {
        (48 + n) as u8
    } else {
        (87 + n) as u8
    }
}

/// The last `width` hexadecimal digits of `v`, most significant first.
pub open spec fn hex_of(v: nat, width: nat) -> Seq<u8>
    decreases width,
{
    if width == 0 {
        Seq::empty()
    } else {
        hex_of(v / 16, (width - 1) as nat).push(hex_digit((v % 16) as int))
    }
}

/// Two hexadecimal digits for each byte of `b`.
pub open spec fn hex_of_bytes(b: Seq<u8>) -> Seq<u8>
    decreases b.len(),
{
    if b.len() == 0 {
        Seq::empty()
    } else {
        hex_of_bytes(b.drop_last()) + hex_of(b.last() as nat, 2)
    }
}

/// The project GUID as text: `xxxxxxxx-xxxx-xxxx-` followed by the eight
/// bytes of its last component, two digits each.
pub open spec fn project_id_text(h: &PublicHeaderBlock) -> Seq<u8> {
    hex_of(h.guid_data_1 as nat, 8) + seq![45u8] + hex_of(h.guid_data_2 as nat, 4) + seq![45u8]
        + hex_of(h.guid_data_3 as nat, 4) + seq![45u8] + hex_of_bytes(h.guid_data_4@)
}

fn push_hex(out: &mut Vec<u8>, value: u64, width: usize)
    ensures
        final(out)@ == old(out)@ + hex_of(value as nat, width as nat),
    decreases width,
{
    if width > 0 {
        push_hex(out, value / 16, width - 1);
        let d = value % 16;
        let c: u8 = if d < 10 {
            48 + d as u8
        } else {
            87 + d as u8
        };
        out.push(c);
        assert(out@ =~= old(out)@ + hex_of(value as nat, width as nat));
    } else {
        assert(out@ =~= old(out)@ + hex_of(value as nat, width as nat));
    }
}

impl PublicHeaderBlock {
    /// The project GUID rendered as ASCII text.
    pub fn project_id(&self) -> (r: Vec<u8>)
        ensures
            r@ == project_id_text(self),
    {
        let mut r: Vec<u8> = Vec::new();
        push_hex(&mut r, self.guid_data_1 as u64, 8);
        r.push(45);
        push_hex(&mut r, self.guid_data_2 as u64, 4);
        r.push(45);
        push_hex(&mut r, self.guid_data_3 as u64, 4);
        r.push(45);
        let ghost prefix = r@;
        let mut i: usize = 0;
        while i < 8
            invariant
                i <= 8,
                r@ == prefix + hex_of_bytes(self.guid_data_4@.subrange(0, i as int)),
            decreases 8 - i,
        {
            push_hex(&mut r, self.guid_data_4[i] as u64, 2);
            assert(self.guid_data_4@.subrange(0, i + 1).drop_last() =~= self.guid_data_4@.subrange(
                0,
                i as int,
            ));
            i = i + 1;
            assert(r@ =~= prefix + hex_of_bytes(self.guid_data_4@.subrange(0, i as int)));
        }
        assert(self.guid_data_4@.subrange(0, 8) =~= self.guid_data_4@);
        assert(r@ =~= project_id_text(self));
        r
    }
}

/// Rewrapping: the fields read back from a header's own bytes
/// decode exactly as the header does.
pub proof fn lemma_header_rewrap(
    raw: PublicHeaderBlockRaw,
    again: PublicHeaderBlockRaw,
    r: Result<PublicHeaderBlock, LasError>,
)
    requires
        again.read_from(raw.spec_bytes()),
    ensures
        PublicHeaderBlock::decoding_of(&again, r) == PublicHeaderBlock::decoding_of(&raw, r),
{
    let b = raw.spec_bytes();
    assert(b.subrange(0, 4) =~= raw.file_signature@);
    assert(b.subrange(4, 6) =~= raw.source_id@);
    assert(b.subrange(6, 8) =~= raw.global_encoding@);
    assert(b.subrange(8, 12) =~= raw.guid_data_1@);
    assert(b.subrange(12, 14) =~= raw.guid_data_2@);
    assert(b.subrange(14, 16) =~= raw.guid_data_3@);
    assert(b.subrange(16, 24) =~= raw.guid_data_4@);
    assert(b.subrange(24, 25) =~= raw.version_major@);
    assert(b.subrange(25, 26) =~= raw.version_minor@);
    assert(b.subrange(26, 58) =~= raw.system_id@);
    assert(b.subrange(58, 90) =~= raw.generating_software@);
    assert(b.subrange(90, 92) =~= raw.creation_day_of_year@);
    assert(b.subrange(92, 94) =~= raw.creation_year@);
    assert(b.subrange(94, 96) =~= raw.header_size@);
    assert(b.subrange(96, 100) =~= raw.offset_point@);
    assert(b.subrange(100, 104) =~= raw.number_of_vlrs@);
    assert(b.subrange(104, 105) =~= raw.point_data_record_format@);
    assert(b.subrange(105, 107) =~= raw.point_data_record_length@);
    assert(b.subrange(107, 111) =~= raw.legacy_point_count@);
    assert(b.subrange(111, 131) =~= raw.legacy_points_by_return@);
    assert(b.subrange(131, 139) =~= raw.x_scale_factor@);
    assert(b.subrange(139, 147) =~= raw.y_scale_factor@);
    assert(b.subrange(147, 155) =~= raw.z_scale_factor@);
    assert(b.subrange(155, 163) =~= raw.x_offset@);
    assert(b.subrange(163, 171) =~= raw.y_offset@);
    assert(b.subrange(171, 179) =~= raw.z_offset@);
    assert(b.subrange(179, 187) =~= raw.max_x@);
    assert(b.subrange(187, 195) =~= raw.min_x@);
    assert(b.subrange(195, 203) =~= raw.max_y@);
    assert(b.subrange(203, 211) =~= raw.min_y@);
    assert(b.subrange(211, 219) =~= raw.max_z@);
    assert(b.subrange(219, 227) =~= raw.min_z@);
    assert(padded(b, 227, 235) =~= raw.start_of_waveform_data@);
    assert(padded(b, 235, 243) =~= raw.start_of_first_evlr@);
    assert(padded(b, 243, 247) =~= raw.number_of_evlrs@);
    assert(padded(b, 247, 255) =~= raw.point_count@);
    assert(padded(b, 255, 375) =~= raw.points_by_return.0@);
}

} // verus!
