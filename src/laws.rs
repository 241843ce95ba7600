//! Properties of the encoded image, stated over `image_spec`, the exact
//! result of `create_image`.

use vstd::prelude::*;

use crate::bytes::{
    filled, from_le, le_bytes, lemma_byte_range_4_8, lemma_from_le_bytes, lemma_le_bytes_len,
};
use crate::geometry::{
    lemma_superblock_len, sfs_magic, spec_checksum, superblock_spec, Geometry, CHECKSUM_OFFSET,
    DATA_AREA_SIZE, FLOPPY_MEDIA_SIZE, FORMAT_VERSION, INDEX_AREA_SIZE, MAGIC_OFFSET,
    RESERVED_BLOCKS_OFFSET, SUPERBLOCK_LEN, SUPERBLOCK_OFFSET, TOTAL_BLOCKS_OFFSET,
    VERSION_OFFSET,
};
use crate::image::{image_spec, lemma_image_len};
use crate::index::{
    c_string, lemma_c_string_of_terminated, lemma_starter_marker_len, lemma_volume_entry_len,
    name_fits, starter_marker_spec, volume_entry_spec, NAME_FIELD_LEN, STARTER_MARKER_TAG,
    VOLUME_IDENTIFIER_TAG,
};

verus! {

/// Where the superblock and the two entries stand in the image.
proof fn lemma_image_parts(g: Geometry, time_stamp: u64, name: Seq<u8>)
    requires
        g.wf(),
        name_fits(name),
    ensures
        image_spec(g, time_stamp, name).len() == g.media_size,
        image_spec(g, time_stamp, name).subrange(
            SUPERBLOCK_OFFSET as int,
            SUPERBLOCK_OFFSET + SUPERBLOCK_LEN,
        ) == superblock_spec(g, time_stamp),
        image_spec(g, time_stamp, name).subrange(g.media_size - 128, g.media_size - 64)
            == starter_marker_spec(),
        image_spec(g, time_stamp, name).subrange(g.media_size - 64, g.media_size as int)
            == volume_entry_spec(time_stamp, name),
{
    lemma_image_len(g, time_stamp, name);
    lemma_superblock_len(g, time_stamp);
    lemma_starter_marker_len();
    lemma_volume_entry_len(time_stamp, name);
    let img = image_spec(g, time_stamp, name);
    assert(img.subrange(SUPERBLOCK_OFFSET as int, SUPERBLOCK_OFFSET + SUPERBLOCK_LEN)
        =~= superblock_spec(g, time_stamp));
    assert(img.subrange(g.media_size - 128, g.media_size - 64) =~= starter_marker_spec());
    assert(img.subrange(g.media_size - 64, g.media_size as int) =~= volume_entry_spec(
        time_stamp,
        name,
    ));
}

/// On a high-density floppy the volume has 2880 blocks.
pub proof fn law_floppy_total_blocks(g: Geometry)
    requires
        g.is_floppy(),
    ensures
        g.spec_total_blocks() == 2880,
{
    assert(FLOPPY_MEDIA_SIZE == 1_474_560);
    assert(1_474_560nat / 512 == 2880) by (nonlinear_arith);
}

/// The image is exactly as long as the medium: 1,474,560 bytes on a floppy.
pub proof fn law_image_length(g: Geometry, time_stamp: u64, name: Seq<u8>)
    requires
        g.wf(),
        name_fits(name),
    ensures
        image_spec(g, time_stamp, name).len() == g.media_size,
        g.is_floppy() ==> image_spec(g, time_stamp, name).len() == 1_474_560,
{
    lemma_image_len(g, time_stamp, name);
    assert(FLOPPY_MEDIA_SIZE == 1_474_560);
}

/// The superblock carries the geometry's magic and version at their
/// offsets: "SFS" and 0x10 on a floppy.
pub proof fn law_magic_and_version(g: Geometry, time_stamp: u64, name: Seq<u8>)
    requires
        g.wf(),
        name_fits(name),
    ensures
        image_spec(g, time_stamp, name).subrange(MAGIC_OFFSET as int, MAGIC_OFFSET + 3)
            == g.magic@,
        image_spec(g, time_stamp, name)[VERSION_OFFSET as int] == g.version,
        g.is_floppy() ==> image_spec(g, time_stamp, name).subrange(
            MAGIC_OFFSET as int,
            MAGIC_OFFSET + 3,
        ) == sfs_magic() && image_spec(g, time_stamp, name)[VERSION_OFFSET as int]
            == FORMAT_VERSION,
{
    lemma_image_parts(g, time_stamp, name);
    let img = image_spec(g, time_stamp, name);
    let sb = superblock_spec(g, time_stamp);
    lemma_le_bytes_len(time_stamp as nat, 8);
    lemma_le_bytes_len(DATA_AREA_SIZE as nat, 8);
    lemma_le_bytes_len(INDEX_AREA_SIZE as nat, 8);
    assert(sb[27] == g.version);
    assert(img[VERSION_OFFSET as int] == sb[27]);
    assert(img.subrange(MAGIC_OFFSET as int, MAGIC_OFFSET + 3) =~= g.magic@) by {
        assert forall|i: int| 0 <= i < 3 implies img[MAGIC_OFFSET + i] == g.magic@[i] by {
            assert(img[MAGIC_OFFSET + i] == sb[24 + i]);
        }
    }
}

/// A reader that recomputes the checksum from the magic, version, total
/// block count and reserved block count as they stand in the image finds
/// the checksum byte that was written.
pub proof fn law_checksum_round_trip(g: Geometry, time_stamp: u64, name: Seq<u8>)
    requires
        g.wf(),
        name_fits(name),
    ensures
        ({
            let img = image_spec(g, time_stamp, name);
            img[CHECKSUM_OFFSET as int] == spec_checksum(
                img.subrange(MAGIC_OFFSET as int, MAGIC_OFFSET + 3),
                img[VERSION_OFFSET as int],
                from_le(img.subrange(TOTAL_BLOCKS_OFFSET as int, TOTAL_BLOCKS_OFFSET + 8)),
                from_le(img.subrange(RESERVED_BLOCKS_OFFSET as int, RESERVED_BLOCKS_OFFSET + 4)),
            )
        }),
{
    law_magic_and_version(g, time_stamp, name);
    lemma_image_parts(g, time_stamp, name);
    let img = image_spec(g, time_stamp, name);
    let sb = superblock_spec(g, time_stamp);
    lemma_le_bytes_len(time_stamp as nat, 8);
    lemma_le_bytes_len(DATA_AREA_SIZE as nat, 8);
    lemma_le_bytes_len(INDEX_AREA_SIZE as nat, 8);
    lemma_le_bytes_len(g.spec_total_blocks(), 8);
    lemma_le_bytes_len(g.reserved_blocks as nat, 4);
    lemma_byte_range_4_8();
    assert(g.spec_total_blocks() <= g.media_size);
    lemma_from_le_bytes(g.spec_total_blocks(), 8);
    lemma_from_le_bytes(g.reserved_blocks as nat, 4);
    assert(img.subrange(TOTAL_BLOCKS_OFFSET as int, TOTAL_BLOCKS_OFFSET + 8) =~= le_bytes(
        g.spec_total_blocks(),
        8,
    )) by {
        assert forall|i: int| 0 <= i < 8 implies img[TOTAL_BLOCKS_OFFSET + i] == le_bytes(
            g.spec_total_blocks(),
            8,
        )[i] by {
            assert(img[TOTAL_BLOCKS_OFFSET + i] == sb[28 + i]);
        }
    }
    assert(img.subrange(RESERVED_BLOCKS_OFFSET as int, RESERVED_BLOCKS_OFFSET + 4) =~= le_bytes(
        g.reserved_blocks as nat,
        4,
    )) by {
        assert forall|i: int| 0 <= i < 4 implies img[RESERVED_BLOCKS_OFFSET + i] == le_bytes(
            g.reserved_blocks as nat,
            4,
        )[i] by {
            assert(img[RESERVED_BLOCKS_OFFSET + i] == sb[36 + i]);
        }
    }
    assert(img[CHECKSUM_OFFSET as int] == sb[41]);
}

/// The last 128 bytes of the image are the starter marker entry, tagged
/// 0x02, then the volume identifier entry, tagged 0x01.
pub proof fn law_index_entries(g: Geometry, time_stamp: u64, name: Seq<u8>)
    requires
        g.wf(),
        name_fits(name),
    ensures
        image_spec(g, time_stamp, name).subrange(g.media_size - 128, g.media_size - 64)
            == starter_marker_spec(),
        image_spec(g, time_stamp, name).subrange(g.media_size - 64, g.media_size as int)
            == volume_entry_spec(time_stamp, name),
        image_spec(g, time_stamp, name)[g.media_size - 128] == STARTER_MARKER_TAG,
        image_spec(g, time_stamp, name)[g.media_size - 64] == VOLUME_IDENTIFIER_TAG,
{
    lemma_image_parts(g, time_stamp, name);
    let img = image_spec(g, time_stamp, name);
    assert(img[g.media_size - 128] == starter_marker_spec()[0]);
    assert(img[g.media_size - 64] == volume_entry_spec(time_stamp, name)[0]);
}

/// The name field of the volume identifier entry, read as a zero-terminated
/// string from the entry's byte 12, is the volume's name.
pub proof fn law_volume_name(g: Geometry, time_stamp: u64, name: Seq<u8>)
    requires
        g.wf(),
        name_fits(name),
    ensures
        c_string(image_spec(g, time_stamp, name).subrange(g.media_size - 52, g.media_size as int))
            == name,
{
    lemma_image_parts(g, time_stamp, name);
    lemma_le_bytes_len(time_stamp as nat, 8);
    let img = image_spec(g, time_stamp, name);
    let entry = volume_entry_spec(time_stamp, name);
    let rest = filled(0, (NAME_FIELD_LEN - name.len() - 1) as nat);
    assert(img.subrange(g.media_size - 52, g.media_size as int) =~= entry.subrange(12, 64));
    assert(entry.subrange(12, 64) =~= name + seq![0u8] + rest);
    lemma_c_string_of_terminated(name, rest);
}

/// Two images of one volume created at different times differ at most in
/// the two timestamp fields: the superblock's first eight bytes and bytes
/// 4 to 11 of the volume identifier entry.
pub proof fn law_only_timestamp_varies(g: Geometry, t1: u64, t2: u64, name: Seq<u8>)
    requires
        g.wf(),
        name_fits(name),
    ensures
        image_spec(g, t1, name).len() == image_spec(g, t2, name).len(),
        forall|i: int|
            0 <= i < g.media_size && !(SUPERBLOCK_OFFSET <= i < SUPERBLOCK_OFFSET + 8) && !(
            g.media_size - 60 <= i < g.media_size - 52) ==> #[trigger] image_spec(g, t1, name)[i]
                == image_spec(g, t2, name)[i],
{
    lemma_image_len(g, t1, name);
    lemma_image_len(g, t2, name);
    lemma_le_bytes_len(t1 as nat, 8);
    lemma_le_bytes_len(t2 as nat, 8);
    let gap = filled(0, (g.media_size - SUPERBLOCK_OFFSET - SUPERBLOCK_LEN - INDEX_AREA_SIZE) as nat);
    let sb_rest = le_bytes(DATA_AREA_SIZE as nat, 8) + le_bytes(INDEX_AREA_SIZE as nat, 8) + g.magic@
        + seq![g.version] + le_bytes(g.spec_total_blocks(), 8) + le_bytes(g.reserved_blocks as nat, 4)
        + seq![g.spec_block_size()] + seq![
        spec_checksum(g.magic@, g.version, g.spec_total_blocks(), g.reserved_blocks as nat),
    ];
    let before = filled(0, SUPERBLOCK_OFFSET as nat);
    let middle = sb_rest + gap + starter_marker_spec() + seq![VOLUME_IDENTIFIER_TAG] + filled(0, 3);
    let after = name + filled(0, (NAME_FIELD_LEN - name.len()) as nat);
    assert(image_spec(g, t1, name) =~= before + le_bytes(t1 as nat, 8) + middle + le_bytes(
        t1 as nat,
        8,
    ) + after);
    assert(image_spec(g, t2, name) =~= before + le_bytes(t2 as nat, 8) + middle + le_bytes(
        t2 as nat,
        8,
    ) + after);
}

} // verus!
