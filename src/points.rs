//! Point data records: the per-format layout and the decoder.

use vstd::prelude::*;

use crate::bytes::{
    byte_i8, le_i32, le_u16, le_u32, le_u64, read_mmap_bytes, spec_i32_le, spec_i8, spec_u16_le,
    spec_u32_le, spec_u64_le,
};
use crate::error::LasError;
use crate::header::PublicHeaderBlock;

verus! {

/// GPS time of a point, as the bit pattern of its IEEE 754 double.
#[derive(Debug, Clone, Copy, PartialEq, Eq)]
pub struct GpsTime(pub u64);

/// Red, green and blue channels of a point.
#[derive(Debug, Clone, Copy, PartialEq, Eq)]
pub struct Color {
    pub r: u16,
    pub g: u16,
    pub b: u16,
}

/// Waveform packet descriptor of a point; the four single-precision floats
/// are kept as their bit patterns.
#[derive(Debug, Clone, Copy, PartialEq, Eq)]
pub struct WavePacket {
    pub desc_index: u8,
    pub byte_offset_wave_data: u64,
    pub wave_size: u32,
    pub point_wave_location_bits: u32,
    pub parametric_dx_bits: u32,
    pub parametric_dy_bits: u32,
    pub parametric_dz_bits: u32,
}

/// The optional fields that follow the common prefix of a record.
#[derive(Debug, Clone, Copy, PartialEq, Eq)]
pub struct Addons {
    pub gps_time: Option<GpsTime>,
    pub color: Option<Color>,
    pub wave_packet: Option<WavePacket>,
}

/// The common 20-byte prefix of a point record, field by field.
#[derive(Debug, PartialEq, Eq)]
pub struct PointRaw {
    pub x: [u8; 4],
    pub y: [u8; 4],
    pub z: [u8; 4],
    pub intensity: [u8; 2],
    pub returns_vars: [u8; 1],
    pub classification: [u8; 1],
    pub scan_angle_rank: [u8; 1],
    pub user_data: [u8; 1],
    pub point_source_id: [u8; 2],
}

/// A decoded point record. Coordinates are the stored integers; the world
/// coordinate on an axis is `raw * scale + offset` with the header's values.
#[derive(Debug, Clone, Copy, PartialEq, Eq)]
pub struct Point {
    pub raw_x: i32,
    pub raw_y: i32,
    pub raw_z: i32,
    pub intensity: u16,
    pub return_number: u8,
    pub number_of_returns: u8,
    pub scan_direction_flag: bool,
    pub edge_of_flight_line: bool,
    pub classification: u8,
    pub scan_angle_rank: i8,
    pub user_data: u8,
    pub point_source_id: u16,
    pub addons: Addons,
}

/// The points of a file, in file order.
#[derive(Debug, PartialEq, Eq)]
pub struct PointCloud {
    pub v: Vec<Point>,
}

/// Length of the fields that a record of `format` holds, for the formats
/// this decoder implements (0 to 5).
pub open spec fn spec_min_record_length(format: u8) -> Option<nat> {
    if format == 0 {
        Some(20)
    } else if format == 1 {
        Some(28)
    } else if format == 2 {
        Some(26)
    } else if format == 3 {
        Some(34)
    } else if format == 4 {
        Some(57)
    } else if format == 5 {
        Some(63)
    } else {
        None
    }
}

pub open spec fn has_gps_time(format: u8) -> bool {
    format == 1 || format == 3 || format == 4 || format == 5
}

pub open spec fn has_color(format: u8) -> bool {
    format == 2 || format == 3 || format == 5
}

pub open spec fn has_wave_packet(format: u8) -> bool {
    format == 4 || format == 5
}

/// Place of the color fields within a record.
pub open spec fn color_at(format: u8) -> int {
    if format == 2 {
        20
    } else {
        28
    }
}

/// Place of the wave packet within a record.
pub open spec fn wave_packet_at(format: u8) -> int {
    if format == 4 {
        28
    } else {
        34
    }
}

/// The point that the record of `format` starting at `at` in `b` holds.
pub open spec fn spec_point(b: Seq<u8>, at: int, format: u8) -> Point {
    let c = b[at + 14];
    let ca = at + color_at(format);
    let wa = at + wave_packet_at(format);
    Point {
        raw_x: spec_i32_le(b, at) as i32,
        raw_y: spec_i32_le(b, at + 4) as i32,
        raw_z: spec_i32_le(b, at + 8) as i32,
        intensity: spec_u16_le(b, at + 12) as u16,
        return_number: c & 0b0000_0111u8,
        number_of_returns: (c >> 3u8) & 0b0000_0111u8,
        scan_direction_flag: c & 0b0100_0000u8 != 0,
        edge_of_flight_line: c & 0b1000_0000u8 != 0,
        classification: b[at + 15],
        scan_angle_rank: spec_i8(b[at + 16]) as i8,
        user_data: b[at + 17],
        point_source_id: spec_u16_le(b, at + 18) as u16,
        addons: Addons {
            gps_time: if has_gps_time(format) {
                Some(GpsTime(spec_u64_le(b, at + 20) as u64))
            } else {
                None
            },
            color: if has_color(format) {
                Some(
                    Color {
                        r: spec_u16_le(b, ca) as u16,
                        g: spec_u16_le(b, ca + 2) as u16,
                        b: spec_u16_le(b, ca + 4) as u16,
                    },
                )
            } else {
                None
            },
            wave_packet: if has_wave_packet(format) {
                Some(
                    WavePacket {
                        desc_index: b[wa],
                        byte_offset_wave_data: spec_u64_le(b, wa + 1) as u64,
                        wave_size: spec_u32_le(b, wa + 9) as u32,
                        point_wave_location_bits: spec_u32_le(b, wa + 13) as u32,
                        parametric_dx_bits: spec_u32_le(b, wa + 17) as u32,
                        parametric_dy_bits: spec_u32_le(b, wa + 21) as u32,
                        parametric_dz_bits: spec_u32_le(b, wa + 25) as u32,
                    },
                )
            } else {
                None
            },
        },
    }
}

/// The record length of `format`, or `None` for a format this decoder does
/// not implement.
pub fn min_record_length(format: u8) -> (r: Option<u16>)
    ensures
        match r {
            Some(n) => spec_min_record_length(format) == Some(n as nat),
            None => spec_min_record_length(format) is None,
        },
{
    match format {
        0 => Some(20),
        1 => Some(28),
        2 => Some(26),
        3 => Some(34),
        4 => Some(57),
        5 => Some(63),
        _ => None,
    }
}

/// Why a single record of `h`'s format at `at` in `b` cannot be decoded, if
/// it cannot.
pub open spec fn record_error(b: Seq<u8>, h: &PublicHeaderBlock, at: int) -> Option<LasError> {
    match spec_min_record_length(h.point_format) {
        None => Some(LasError::UnsupportedPointFormat(h.point_format)),
        Some(m) => if h.point_length < m {
            Some(LasError::InconsistentHeader)
        } else if at + h.point_length > b.len() {
            Some(LasError::UnexpectedEof)
        } else {
            None
        },
    }
}

impl PointRaw {
    /// Reads the common prefix of a record at the cursor `*acc`.
    pub fn read_from_cursor(file: &[u8], acc: &mut u64) -> (r: Result<PointRaw, LasError>)
        ensures
            r is Ok <==> *old(acc) + 20 <= file@.len(),
            r is Err ==> r == Err::<PointRaw, LasError>(LasError::UnexpectedEof),
            r is Ok ==> *final(acc) == *old(acc) + 20 && r->Ok_0.read_from(
                file@,
                *old(acc) as int,
            ),
    {
        let start = *acc;
        if start > file.len() as u64 || (file.len() as u64 - start) < 20 {
            return Err(LasError::UnexpectedEof);
        }
        let mut raw = PointRaw {
            x: [0u8; 4],
            y: [0u8; 4],
            z: [0u8; 4],
            intensity: [0u8; 2],
            returns_vars: [0u8; 1],
            classification: [0u8; 1],
            scan_angle_rank: [0u8; 1],
            user_data: [0u8; 1],
            point_source_id: [0u8; 2],
        };
        read_mmap_bytes(&mut raw.x, file, acc)?;
        read_mmap_bytes(&mut raw.y, file, acc)?;
        read_mmap_bytes(&mut raw.z, file, acc)?;
        read_mmap_bytes(&mut raw.intensity, file, acc)?;
        read_mmap_bytes(&mut raw.returns_vars, file, acc)?;
        read_mmap_bytes(&mut raw.classification, file, acc)?;
        read_mmap_bytes(&mut raw.scan_angle_rank, file, acc)?;
        read_mmap_bytes(&mut raw.user_data, file, acc)?;
        read_mmap_bytes(&mut raw.point_source_id, file, acc)?;
        Ok(raw)
    }

    /// Every field holds the bytes of `b` at its place in a record starting
    /// at `at`.
    pub open spec fn read_from(&self, b: Seq<u8>, at: int) -> bool {
        &&& self.x@ == b.subrange(at, at + 4)
        &&& self.y@ == b.subrange(at + 4, at + 8)
        &&& self.z@ == b.subrange(at + 8, at + 12)
        &&& self.intensity@ == b.subrange(at + 12, at + 14)
        &&& self.returns_vars@ == b.subrange(at + 14, at + 15)
        &&& self.classification@ == b.subrange(at + 15, at + 16)
        &&& self.scan_angle_rank@ == b.subrange(at + 16, at + 17)
        &&& self.user_data@ == b.subrange(at + 17, at + 18)
        &&& self.point_source_id@ == b.subrange(at + 18, at + 20)
    }
}

impl Point {
    /// Decodes the record that starts at the cursor `*acc` and advances the
    /// cursor by the header's record length, padding included.
    pub fn new_from_buf(file: &[u8], acc: &mut u64, header: &PublicHeaderBlock) -> (r: Result<
        Point,
        LasError,
    >)
        ensures
            match r {
                Ok(p) => record_error(file@, header, *old(acc) as int) is None && p == spec_point(
                    file@,
                    *old(acc) as int,
                    header.point_format,
                ) && *final(acc) == *old(acc) + header.point_length,
                Err(e) => record_error(file@, header, *old(acc) as int) == Some(e) && *final(acc)
                    == *old(acc),
            },
    {
        let format = header.point_format;
        let len = header.point_length;
        let min = match min_record_length(format) {
            Some(m) => m,
            None => return Err(LasError::UnsupportedPointFormat(format)),
        };
        if len < min {
            return Err(LasError::InconsistentHeader);
        }
        let start = *acc;
        if start > file.len() as u64 || (file.len() as u64 - start) < len as u64 {
            return Err(LasError::UnexpectedEof);
        }
        let mut cursor = start;
        let raw = match PointRaw::read_from_cursor(file, &mut cursor) {
            Ok(raw) => raw,
            Err(e) => return Err(e),
        };
        let at = start as usize;
        let c = raw.returns_vars[0];
        let gps_time = if format == 1 || format == 3 || format == 4 || format == 5 {
            Some(GpsTime(le_u64(file, at + 20)))
        } else {
            None
        };
        let color = if format == 2 || format == 3 || format == 5 {
            let ca = if format == 2 {
                at + 20
            } else {
                at + 28
            };
            Some(Color { r: le_u16(file, ca), g: le_u16(file, ca + 2), b: le_u16(file, ca + 4) })
        } else {
            None
        };
        let wave_packet = if format == 4 || format == 5 {
            let wa = if format == 4 {
                at + 28
            } else {
                at + 34
            };
            Some(
                WavePacket {
                    desc_index: file[wa],
                    byte_offset_wave_data: le_u64(file, wa + 1),
                    wave_size: le_u32(file, wa + 9),
                    point_wave_location_bits: le_u32(file, wa + 13),
                    parametric_dx_bits: le_u32(file, wa + 17),
                    parametric_dy_bits: le_u32(file, wa + 21),
                    parametric_dz_bits: le_u32(file, wa + 25),
                },
            )
        } else {
            None
        };
        let p = Point {
            raw_x: le_i32(&raw.x, 0),
            raw_y: le_i32(&raw.y, 0),
            raw_z: le_i32(&raw.z, 0),
            intensity: le_u16(&raw.intensity, 0),
            return_number: c & 0b0000_0111,
            number_of_returns: (c >> 3) & 0b0000_0111,
            scan_direction_flag: c & 0b0100_0000 != 0,
            edge_of_flight_line: c & 0b1000_0000 != 0,
            classification: raw.classification[0],
            scan_angle_rank: byte_i8(raw.scan_angle_rank[0]),
            user_data: raw.user_data[0],
            point_source_id: le_u16(&raw.point_source_id, 0),
            addons: Addons { gps_time, color, wave_packet },
        };
        *acc = start + len as u64;
        Ok(p)
    }
}

/// Offset in the file of the `i`-th record.
pub open spec fn record_start(h: &PublicHeaderBlock, i: int) -> int {
    h.offset_point + i * h.point_length
}

/// Why the first `n` records that `h` declares cannot be decoded from `b`,
/// if they cannot. The format is checked first, then the record length
/// against it, then that the region holds `n` whole records.
pub open spec fn cloud_error(b: Seq<u8>, h: &PublicHeaderBlock, n: int) -> Option<LasError> {
    match spec_min_record_length(h.point_format) {
        None => Some(LasError::UnsupportedPointFormat(h.point_format)),
        Some(m) => if h.point_length < m {
            Some(LasError::InconsistentHeader)
        } else if n > 0 && record_start(h, n) > b.len() {
            Some(LasError::UnexpectedEof)
        } else {
            None
        },
    }
}

/// The first `n` points that `h` declares in `b`, in file order.
pub open spec fn spec_points(b: Seq<u8>, h: &PublicHeaderBlock, n: nat) -> Seq<Point> {
    Seq::new(n, |i: int| spec_point(b, record_start(h, i), h.point_format))
}

/// `r` is what decoding the first `n` points of `b` under `h` gives.
pub open spec fn cloud_outcome(
    b: Seq<u8>,
    h: &PublicHeaderBlock,
    n: nat,
    r: Result<PointCloud, LasError>,
) -> bool {
    match r {
        Ok(pc) => cloud_error(b, h, n as int) is None && pc.v@ == spec_points(b, h, n),
        Err(e) => cloud_error(b, h, n as int) == Some(e),
    }
}

impl PointCloud {
    /// Decodes every point that the header declares.
    pub fn parse_all(file: &[u8], header: &PublicHeaderBlock) -> (r: Result<PointCloud, LasError>)
        ensures
            cloud_outcome(file@, header, header.point_records as nat, r),
    {
        Self::parse_number(file, header, header.point_records)
    }

    /// Decodes the first `number` points, reading sequentially from the
    /// header's offset to the points.
    pub fn parse_number(file: &[u8], header: &PublicHeaderBlock, number: u64) -> (r: Result<
        PointCloud,
        LasError,
    >)
        ensures
            cloud_outcome(file@, header, number as nat, r),
    {
        let format = header.point_format;
        let len = header.point_length;
        let min = match min_record_length(format) {
            Some(m) => m,
            None => return Err(LasError::UnsupportedPointFormat(format)),
        };
        if len < min {
            return Err(LasError::InconsistentHeader);
        }
        if number > 0 {
            assert(number * len <= 0xffff_ffff_ffff_ffffu64 * 0xffffu16) by (nonlinear_arith)
                requires
                    number <= 0xffff_ffff_ffff_ffffu64,
                    len <= 0xffffu16,
            ;
            let end: u128 = header.offset_point as u128 + number as u128 * len as u128;
            if end > file.len() as u128 {
                return Err(LasError::UnexpectedEof);
            }
        }
        let mut acc: u64 = header.offset_point as u64;
        let mut v: Vec<Point> = Vec::new();
        let mut i: u64 = 0;
        while i < number
            invariant
                i <= number,
                len == header.point_length,
                cloud_error(file@, header, number as int) is None,
                acc == record_start(header, i as int),
                v@ == spec_points(file@, header, i as nat),
            decreases number - i,
        {
            assert((i + 1) * len <= number * len) by (nonlinear_arith)
                requires
                    i + 1 <= number,
            ;
            assert(record_start(header, i + 1) == acc + len) by (nonlinear_arith)
                requires
                    acc == header.offset_point + i * len,
                    len == header.point_length,
            ;
            assert(record_error(file@, header, acc as int) is None);
            let p = match Point::new_from_buf(file, &mut acc, header) {
                Ok(p) => p,
                Err(e) => return Err(e),
            };
            v.push(p);
            i = i + 1;
            assert(acc == record_start(header, i as int)) by (nonlinear_arith)
                requires
                    acc == header.offset_point + (i - 1) * len + len,
                    len == header.point_length,
            ;
            assert(v@ =~= spec_points(file@, header, i as nat));
        }
        Ok(PointCloud { v })
    }

    /// Decodes the `index`-th record directly from its offset, without
    /// reading the records before it.
    pub fn parse_at(file: &[u8], header: &PublicHeaderBlock, index: u64) -> (r: Result<
        Point,
        LasError,
    >)
        ensures
            match r {
                Ok(p) => record_error(file@, header, record_start(header, index as int)) is None
                    && p == spec_point(
                    file@,
                    record_start(header, index as int),
                    header.point_format,
                ),
                Err(e) => record_error(file@, header, record_start(header, index as int)) == Some(
                    e,
                ),
            },
    {
        let format = header.point_format;
        let len = header.point_length;
        let min = match min_record_length(format) {
            Some(m) => m,
            None => return Err(LasError::UnsupportedPointFormat(format)),
        };
        if len < min {
            return Err(LasError::InconsistentHeader);
        }
        assert(index * len <= 0xffff_ffff_ffff_ffffu64 * 0xffffu16) by (nonlinear_arith)
            requires
                index <= 0xffff_ffff_ffff_ffffu64,
                len <= 0xffffu16,
        ;
        let start: u128 = header.offset_point as u128 + index as u128 * len as u128;
        if start + len as u128 > file.len() as u128 {
            return Err(LasError::UnexpectedEof);
        }
        let mut acc: u64 = start as u64;
        Point::new_from_buf(file, &mut acc, header)
    }
}

/// A file whose point records can all be decoded yields exactly as many
/// points as were asked for; asked for the header's count, that count.
pub proof fn lemma_point_count(
    b: Seq<u8>,
    h: &PublicHeaderBlock,
    n: nat,
    r: Result<PointCloud, LasError>,
)
    requires
        cloud_error(b, h, n as int) is None,
        cloud_outcome(b, h, n, r),
    ensures
        r is Ok,
        r->Ok_0.v@.len() == n,
{
}

/// The return number is the low three bits of the composite byte and the
/// number of returns the next three, so both lie between 0 and 7.
pub proof fn lemma_return_fields(b: Seq<u8>, at: int, format: u8)
    ensures
        spec_point(b, at, format).return_number == b[at + 14] % 8,
        spec_point(b, at, format).number_of_returns == (b[at + 14] / 8) % 8,
        0 <= spec_point(b, at, format).return_number <= 7,
        0 <= spec_point(b, at, format).number_of_returns <= 7,
{
    let c = b[at + 14];
    assert(c & 7u8 == c % 8u8) by (bit_vector);
    assert((c >> 3u8) & 7u8 == (c / 8u8) % 8u8) by (bit_vector);
}

/// The scan direction flag is bit 6 of the composite byte and the edge of
/// flight line flag is bit 7.
pub proof fn lemma_flag_bits(b: Seq<u8>, at: int, format: u8)
    ensures
        spec_point(b, at, format).scan_direction_flag == ((b[at + 14] >> 6u8) & 1u8 == 1u8),
        spec_point(b, at, format).edge_of_flight_line == ((b[at + 14] >> 7u8) & 1u8 == 1u8),
{
    let c = b[at + 14];
    assert((c & 0x40u8 != 0u8) == ((c >> 6u8) & 1u8 == 1u8)) by (bit_vector);
    assert((c & 0x80u8 != 0u8) == ((c >> 7u8) & 1u8 == 1u8)) by (bit_vector);
}

/// Decoding is pure: two decodings of the same bytes under the same header
/// agree, in success and failure alike.
pub proof fn lemma_decoding_is_pure(
    b: Seq<u8>,
    h: &PublicHeaderBlock,
    n: nat,
    r1: Result<PointCloud, LasError>,
    r2: Result<PointCloud, LasError>,
)
    requires
        cloud_outcome(b, h, n, r1),
        cloud_outcome(b, h, n, r2),
    ensures
        r1 is Ok <==> r2 is Ok,
        r1 is Ok ==> r1->Ok_0.v@ == r2->Ok_0.v@,
        r1 is Err ==> r1 == r2,
{
}

/// Random access agrees with sequential decoding: where the first `n`
/// records decode, the `i`-th of them decodes on its own at its offset, to
/// the same point.
pub proof fn lemma_random_access_agrees(b: Seq<u8>, h: &PublicHeaderBlock, n: nat, i: int)
    requires
        cloud_error(b, h, n as int) is None,
        0 <= i < n,
    ensures
        record_error(b, h, record_start(h, i)) is None,
        spec_points(b, h, n)[i] == spec_point(b, record_start(h, i), h.point_format),
{
    let len = h.point_length as int;
    assert((i + 1) * len <= n * len) by (nonlinear_arith)
        requires
            i + 1 <= n,
            0 <= len,
    ;
    assert(record_start(h, i) + len == record_start(h, i + 1)) by (nonlinear_arith)
        requires
            len == h.point_length,
    ;
}

/// A header that declares no points yields an empty cloud, with no error,
/// whenever its format and record length are usable.
pub proof fn lemma_empty_cloud(b: Seq<u8>, h: &PublicHeaderBlock, r: Result<PointCloud, LasError>)
    requires
        spec_min_record_length(h.point_format) is Some,
        h.point_length >= spec_min_record_length(h.point_format)->Some_0,
        cloud_outcome(b, h, 0, r),
    ensures
        r is Ok,
        r->Ok_0.v@.len() == 0,
{
}

/// A region shorter than the declared records fails with `UnexpectedEof`.
pub proof fn lemma_truncated_region(
    b: Seq<u8>,
    h: &PublicHeaderBlock,
    n: nat,
    r: Result<PointCloud, LasError>,
)
    requires
        spec_min_record_length(h.point_format) is Some,
        h.point_length >= spec_min_record_length(h.point_format)->Some_0,
        n > 0,
        b.len() < h.offset_point + n * h.point_length,
        cloud_outcome(b, h, n, r),
    ensures
        r == Err::<PointCloud, LasError>(LasError::UnexpectedEof),
{
}

/// A format outside the implemented set fails with `UnsupportedPointFormat`,
/// whatever else the file holds.
pub proof fn lemma_unsupported_format(
    b: Seq<u8>,
    h: &PublicHeaderBlock,
    n: nat,
    r: Result<PointCloud, LasError>,
)
    requires
        spec_min_record_length(h.point_format) is None,
        cloud_outcome(b, h, n, r),
    ensures
        r == Err::<PointCloud, LasError>(LasError::UnsupportedPointFormat(h.point_format)),
{
}

/// Padding after a format's fields is ignored: records that agree on the
/// format's fields decode to the same point, whatever follows them.
pub proof fn lemma_padding_ignored(b1: Seq<u8>, b2: Seq<u8>, at: int, format: u8)
    requires
        spec_min_record_length(format) is Some,
        0 <= at,
        at + spec_min_record_length(format)->Some_0 <= b1.len(),
        at + spec_min_record_length(format)->Some_0 <= b2.len(),
        b1.subrange(at, at + spec_min_record_length(format)->Some_0) == b2.subrange(
            at,
            at + spec_min_record_length(format)->Some_0,
        ),
    ensures
        spec_point(b1, at, format) == spec_point(b2, at, format),
{
    let m = spec_min_record_length(format)->Some_0 as int;
    assert forall|j: int| at <= j < at + m implies b1[j] == b2[j] by {
        assert(b1.subrange(at, at + m)[j - at] == b2.subrange(at, at + m)[j - at]);
    }
}

} // verus!
