//! A LAS file's decoded header together with its decoded points.

use vstd::prelude::*;

use crate::error::LasError;
use crate::header::{header_too_short, PublicHeaderBlock, PublicHeaderBlockRaw};
use crate::points::{cloud_error, spec_points, PointCloud};

verus! {

/// `r` is what decoding the header at the start of `b` gives.
pub open spec fn header_outcome(b: Seq<u8>, r: Result<PublicHeaderBlock, LasError>) -> bool {
    if header_too_short(b) {
        r == Err::<PublicHeaderBlock, LasError>(LasError::UnexpectedEof)
    } else {
        forall|raw: PublicHeaderBlockRaw| #[trigger]
            raw.read_from(b) ==> PublicHeaderBlock::decoding_of(&raw, r)
    }
}

/// A LAS file: its header, and its points once they have been read.
#[derive(Debug, PartialEq, Eq)]
pub struct LasFile {
    pub header: PublicHeaderBlock,
    pub cloud: Option<PointCloud>,
}

impl LasFile {
    /// Decodes the header at the start of `file`; no point is read yet.
    pub fn new_from_bytes(file: &[u8]) -> (r: Result<LasFile, LasError>)
        ensures
            match r {
                Ok(las) => las.cloud is None && header_outcome(
                    file@,
                    Ok::<PublicHeaderBlock, LasError>(las.header),
                ),
                Err(e) => header_outcome(file@, Err::<PublicHeaderBlock, LasError>(e)),
            },
    {
        let raw = match PublicHeaderBlockRaw::new_from_reader(file) {
            Ok(raw) => raw,
            Err(e) => return Err(e),
        };
        let decoded = PublicHeaderBlock::new_from_raw(&raw);
        assert forall|other: PublicHeaderBlockRaw| #[trigger]
            other.read_from(file@) implies PublicHeaderBlock::decoding_of(&other, decoded) by {
            assert(PublicHeaderBlock::decoding_of(&raw, decoded));
        }
        match decoded {
            Ok(header) => Ok(LasFile { header, cloud: None }),
            Err(e) => Err(e),
        }
    }

    /// Decodes every point that the header declares from `file`, the whole
    /// file's bytes, and keeps them; on failure nothing changes.
    pub fn read_point_cloud(&mut self, file: &[u8]) -> (r: Result<(), LasError>)
        ensures
            final(self).header == old(self).header,
            match r {
                Ok(_) => cloud_error(file@, &old(self).header, old(self).header.point_records as int)
                    is None && final(self).cloud is Some && final(self).cloud->Some_0.v@
                    == spec_points(file@, &old(self).header, old(self).header.point_records as nat),
                Err(e) => cloud_error(
                    file@,
                    &old(self).header,
                    old(self).header.point_records as int,
                ) == Some(e) && final(self).cloud == old(self).cloud,
            },
    {
        match PointCloud::parse_all(file, &self.header) {
            Ok(cloud) => {
                self.cloud = Some(cloud);
                Ok(())
            },
            Err(e) => Err(e),
        }
    }
}

} // verus!
