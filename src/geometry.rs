//! Volume geometry and the superblock that describes it.

use vstd::prelude::*;

use crate::bytes::{le_bytes, lemma_le_bytes_len, push_le};

verus! {

/// Byte offset of the superblock within the image.
pub const SUPERBLOCK_OFFSET: u64 = 0x194;

/// Number of bytes the superblock occupies.
pub const SUPERBLOCK_LEN: u64 = 42;

/// Offset of the superblock's magic within the image.
pub const MAGIC_OFFSET: u64 = 0x1AC;

/// Offset of the superblock's version byte within the image.
pub const VERSION_OFFSET: u64 = 0x1AF;

/// Offset of the superblock's total block count within the image.
pub const TOTAL_BLOCKS_OFFSET: u64 = 0x1B0;

/// Offset of the superblock's reserved block count within the image.
pub const RESERVED_BLOCKS_OFFSET: u64 = 0x1B8;

/// Offset of the superblock's block size byte within the image.
pub const BLOCK_SIZE_OFFSET: u64 = 0x1BC;

/// Offset of the superblock's checksum byte within the image.
pub const CHECKSUM_OFFSET: u64 = 0x1BD;

/// Size of the index area at the end of the image, in bytes.
pub const INDEX_AREA_SIZE: u64 = 128;

/// Size of the data area of a freshly formatted volume, in blocks.
pub const DATA_AREA_SIZE: u64 = 0;

/// Sector size of a high-density floppy, in bytes.
pub const FLOPPY_SECTOR_SIZE: u64 = 512;

/// Size of a high-density floppy, in bytes.
pub const FLOPPY_MEDIA_SIZE: u64 = 1440 * 1024;

/// Blocks reserved for the superblock and index region.
pub const RESERVED_BLOCKS: u32 = 5;

/// Format version written by this encoder.
pub const FORMAT_VERSION: u8 = 0x10;

/// The fixed parameters of a volume: its geometry and format identifiers.
pub struct Geometry {
    pub sector_size: u64,
    pub media_size: u64,
    pub reserved_blocks: u32,
    pub version: u8,
    pub magic: [u8; 3],
}

impl Geometry {
    /// The medium is a whole number of sectors, and it is large enough that
    /// the superblock and the index area do not overlap.
    pub open spec fn wf(&self) -> bool {
        &&& self.sector_size > 0
        &&& self.media_size % self.sector_size == 0
        &&& SUPERBLOCK_OFFSET + SUPERBLOCK_LEN + INDEX_AREA_SIZE <= self.media_size
        &&& self.media_size <= usize::MAX
    }

    pub open spec fn spec_total_blocks(&self) -> nat {
        (self.media_size / self.sector_size) as nat
    }

    /// The sector size in units of 256 bytes, kept to its low byte.
    pub open spec fn spec_block_size(&self) -> u8 {
        ((self.sector_size / 256) % 256) as u8
    }

    /// The geometry of a high-density floppy with the SFS identifiers.
    pub open spec fn is_floppy(&self) -> bool {
        &&& self.sector_size == FLOPPY_SECTOR_SIZE
        &&& self.media_size == FLOPPY_MEDIA_SIZE
        &&& self.reserved_blocks == RESERVED_BLOCKS
        &&& self.version == FORMAT_VERSION
        &&& self.magic@ == sfs_magic()
    }

    /// A high-density floppy (1440 KiB in 512-byte sectors) with the SFS
    /// magic, format version 0x10 and five reserved blocks.
    pub fn floppy() -> (g: Geometry)
        ensures
            g.is_floppy(),
            g.wf(),
    {
        let g = Geometry {
            sector_size: FLOPPY_SECTOR_SIZE,
            media_size: FLOPPY_MEDIA_SIZE,
            reserved_blocks: RESERVED_BLOCKS,
            version: FORMAT_VERSION,
            magic: [0x53, 0x46, 0x53],
        };
        assert(g.magic@ =~= sfs_magic());
        g
    }

    /// A geometry with the given parameters, or `None` where they are not
    /// well formed.
    pub fn new(sector_size: u64, media_size: u64, reserved_blocks: u32, version: u8, magic: [u8; 3]) -> (r: Option<Geometry>)
        ensures
            r is Some <==> (sector_size > 0 && media_size % sector_size == 0
                && SUPERBLOCK_OFFSET + SUPERBLOCK_LEN + INDEX_AREA_SIZE <= media_size
                && media_size <= usize::MAX),
            r matches Some(g) ==> g.wf() && g.sector_size == sector_size && g.media_size == media_size
                && g.reserved_blocks == reserved_blocks && g.version == version && g.magic == magic,
    {
        if sector_size == 0 || media_size % sector_size != 0
            || media_size < SUPERBLOCK_OFFSET + SUPERBLOCK_LEN + INDEX_AREA_SIZE
            || media_size > usize::MAX as u64 {
            None
        } else {
            Some(Geometry { sector_size, media_size, reserved_blocks, version, magic })
        }
    }

    /// Number of blocks on the medium: the media size divided by the sector size.
    pub fn total_blocks(&self) -> (r: u64)
        requires
            self.sector_size > 0,
        ensures
            r == self.spec_total_blocks(),
    {
        self.media_size / self.sector_size
    }

    /// The sector size expressed in 256-byte units, as one byte.
    pub fn block_size(&self) -> (r: u8)
        ensures
            r == self.spec_block_size(),
    {
        ((self.sector_size / 256) % 256) as u8
    }
}

/// The format identifier "SFS".
pub open spec fn sfs_magic() -> Seq<u8> {
    seq![0x53u8, 0x46u8, 0x53u8]
}

/// The sum that the checksum keeps the low byte of, taken over integers.
pub open spec fn checksum_sum(magic: Seq<u8>, version: u8, total_blocks: nat, reserved_blocks: nat) -> int {
    magic[0] + magic[1] + magic[2] + version + total_blocks / 64 + total_blocks / 16
        + total_blocks / 4 + total_blocks + reserved_blocks / 4 + reserved_blocks / 64
}

/// The superblock's 8-bit additive checksum.
pub open spec fn spec_checksum(magic: Seq<u8>, version: u8, total_blocks: nat, reserved_blocks: nat) -> u8 {
    (checksum_sum(magic, version, total_blocks, reserved_blocks) % 256) as u8
}

/// Computes the superblock checksum: the whole sum first, then its low byte.
pub fn checksum(magic: &[u8; 3], version: u8, total_blocks: u64, reserved_blocks: u32) -> (r: u8)
    ensures
        r == spec_checksum(magic@, version, total_blocks as nat, reserved_blocks as nat),
{
    let tb = total_blocks as u128;
    let rb = reserved_blocks as u128;
    let sum: u128 = magic[0] as u128 + magic[1] as u128 + magic[2] as u128 + version as u128
        + tb / 64 + tb / 16 + tb / 4 + tb + rb / 4 + rb / 64;
    (sum % 256) as u8
}

/// The superblock's 42 bytes, fields in order, each little-endian.
pub open spec fn superblock_spec(g: Geometry, time_stamp: u64) -> Seq<u8> {
    le_bytes(time_stamp as nat, 8)
        + le_bytes(DATA_AREA_SIZE as nat, 8)
        + le_bytes(INDEX_AREA_SIZE as nat, 8)
        + g.magic@
        + seq![g.version]
        + le_bytes(g.spec_total_blocks(), 8)
        + le_bytes(g.reserved_blocks as nat, 4)
        + seq![g.spec_block_size()]
        + seq![spec_checksum(g.magic@, g.version, g.spec_total_blocks(), g.reserved_blocks as nat)]
}

pub proof fn lemma_superblock_len(g: Geometry, time_stamp: u64)
    ensures
        superblock_spec(g, time_stamp).len() == SUPERBLOCK_LEN,
{
    lemma_le_bytes_len(time_stamp as nat, 8);
    lemma_le_bytes_len(DATA_AREA_SIZE as nat, 8);
    lemma_le_bytes_len(INDEX_AREA_SIZE as nat, 8);
    lemma_le_bytes_len(g.spec_total_blocks(), 8);
    lemma_le_bytes_len(g.reserved_blocks as nat, 4);
}

/// Encodes the superblock of a volume with the given geometry and creation time.
pub fn encode_superblock(g: &Geometry, time_stamp: u64) -> (r: Vec<u8>)
    requires
        g.sector_size > 0,
    ensures
        r@ == superblock_spec(*g, time_stamp),
        r@.len() == SUPERBLOCK_LEN,
{
    let mut buf: Vec<u8> = Vec::new();
    push_le(&mut buf, time_stamp, 8);
    push_le(&mut buf, DATA_AREA_SIZE, 8);
    push_le(&mut buf, INDEX_AREA_SIZE, 8);
    buf.push(g.magic[0]);
    buf.push(g.magic[1]);
    buf.push(g.magic[2]);
    buf.push(g.version);
    let total_blocks = g.total_blocks();
    push_le(&mut buf, total_blocks, 8);
    push_le(&mut buf, g.reserved_blocks as u64, 4);
    buf.push(g.block_size());
    buf.push(checksum(&g.magic, g.version, total_blocks, g.reserved_blocks));
    proof {
        lemma_superblock_len(*g, time_stamp);
        assert(buf@ =~= superblock_spec(*g, time_stamp));
    }
    buf
}

} // verus!
