//! The whole volume image: zero bytes, with the superblock at its offset and
//! the index area at the end.

use vstd::prelude::*;

use crate::bytes::{filled, push_fill};
use crate::geometry::{
    encode_superblock, lemma_superblock_len, superblock_spec, Geometry, INDEX_AREA_SIZE,
    SUPERBLOCK_LEN, SUPERBLOCK_OFFSET,
};
use crate::index::{
    lemma_starter_marker_len, lemma_volume_entry_len, name_fits, new_index_volume,
    new_starter_marker, starter_marker_spec, volume_entry_spec, MAX_NAME_LEN,
};

verus! {

/// Why a volume name cannot be written.
#[derive(Debug, Clone, Copy, PartialEq, Eq, Structural)]
pub enum ImageError {
    /// The name leaves no room for its terminator in the 52-byte field.
    NameTooLong,
    /// The name holds a zero byte, so it would not read back whole.
    NameContainsNul,
}

/// The error reported for a name that does not fit.
pub open spec fn name_error(name: Seq<u8>) -> ImageError {
    if name.len() > MAX_NAME_LEN {
        ImageError::NameTooLong
    } else {
        ImageError::NameContainsNul
    }
}

/// The image of a volume with geometry `g`, created at `time_stamp` and
/// named `name`.
pub open spec fn image_spec(g: Geometry, time_stamp: u64, name: Seq<u8>) -> Seq<u8> {
    filled(0, SUPERBLOCK_OFFSET as nat)
        + superblock_spec(g, time_stamp)
        + filled(0, (g.media_size - SUPERBLOCK_OFFSET - SUPERBLOCK_LEN - INDEX_AREA_SIZE) as nat)
        + starter_marker_spec()
        + volume_entry_spec(time_stamp, name)
}

pub proof fn lemma_image_len(g: Geometry, time_stamp: u64, name: Seq<u8>)
    requires
        g.wf(),
        name.len() <= MAX_NAME_LEN,
    ensures
        image_spec(g, time_stamp, name).len() == g.media_size,
{
    lemma_superblock_len(g, time_stamp);
    lemma_starter_marker_len();
    lemma_volume_entry_len(time_stamp, name);
}

/// Checks that `name` can stand in the volume identifier entry.
pub fn check_name(name: &[u8]) -> (r: Result<(), ImageError>)
    ensures
        r is Ok <==> name_fits(name@),
        r matches Err(e) ==> e == name_error(name@),
{
    if name.len() > MAX_NAME_LEN as usize {
        return Err(ImageError::NameTooLong);
    }
    let mut i: usize = 0;
    while i < name.len()
        invariant
            i <= name@.len(),
            name@.len() <= MAX_NAME_LEN,
            forall|j: int| 0 <= j < i ==> #[trigger] name@[j] != 0,
        decreases name@.len() - i,
    {
        if name[i] == 0 {
            return Err(ImageError::NameContainsNul);
        }
        i = i + 1;
    }
    Ok(())
}

/// Encodes the image of a fresh volume with geometry `g`, named `name` and
/// created at `time_stamp` (see `get_timestamp`).
pub fn create_image(g: &Geometry, name: &[u8], time_stamp: u64) -> (r: Result<Vec<u8>, ImageError>)
    requires
        g.wf(),
    ensures
        r is Ok <==> name_fits(name@),
        r matches Ok(image) ==> image@ == image_spec(*g, time_stamp, name@),
        r matches Err(e) ==> e == name_error(name@),
{
    match check_name(name) {
        Err(e) => {
            return Err(e);
        },
        Ok(()) => {},
    }
    let mut image: Vec<u8> = Vec::with_capacity(g.media_size as usize);
    push_fill(&mut image, 0, SUPERBLOCK_OFFSET as usize);
    let mut superblock = encode_superblock(g, time_stamp);
    image.append(&mut superblock);
    let gap = (g.media_size - SUPERBLOCK_OFFSET - SUPERBLOCK_LEN - INDEX_AREA_SIZE) as usize;
    push_fill(&mut image, 0, gap);
    let mut starter_marker = new_starter_marker();
    image.append(&mut starter_marker);
    let mut volume_identifier = new_index_volume(time_stamp, name);
    image.append(&mut volume_identifier);
    Ok(image)
}

/// The volume's creation time in the format's own unit: nanoseconds since
/// the Unix epoch, divided by 15259 and then by 65536, each time rounding
/// down, and kept to 64 bits.
pub open spec fn spec_timestamp(nanos_since_epoch: u128) -> u64 {
    (nanos_since_epoch as nat / 15259 / 65536) as u64
}

/// Converts nanoseconds since the Unix epoch to the format's timestamp.
pub fn get_timestamp(nanos_since_epoch: u128) -> (r: u64)
    ensures
        r == spec_timestamp(nanos_since_epoch),
{
    (nanos_since_epoch / 15259 / 65536) as u64
}

} // verus!
