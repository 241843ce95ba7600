//! The two 64-byte entries of the index area.

use vstd::prelude::*;

use crate::bytes::{filled, le_bytes, lemma_le_bytes_len, push_fill, push_le};

verus! {

/// Size of one index entry, in bytes.
pub const ENTRY_SIZE: u64 = 64;

/// Size of the volume entry's name field, terminator included.
pub const NAME_FIELD_LEN: u64 = 52;

/// The longest volume name that fits with its terminator.
pub const MAX_NAME_LEN: u64 = 51;

/// Type tag of the starter marker entry.
pub const STARTER_MARKER_TAG: u8 = 0x02;

/// Type tag of the volume identifier entry.
pub const VOLUME_IDENTIFIER_TAG: u8 = 0x01;

/// Byte that fills the starter marker after its tag.
pub const STARTER_MARKER_FILL: u8 = 0x10;

/// A name that can stand in the name field: it leaves room for the
/// terminator and holds no zero byte, so it reads back whole.
pub open spec fn name_fits(name: Seq<u8>) -> bool {
    &&& name.len() <= MAX_NAME_LEN
    &&& forall|i: int| 0 <= i < name.len() ==> #[trigger] name[i] != 0
}

/// The starter marker entry: its tag, then 63 bytes of 0x10.
pub open spec fn starter_marker_spec() -> Seq<u8> {
    seq![STARTER_MARKER_TAG] + filled(STARTER_MARKER_FILL, 63)
}

/// The volume identifier entry: its tag, three reserved zero bytes, the
/// creation time, then the name with its terminator, zero-filled to the end.
pub open spec fn volume_entry_spec(time_stamp: u64, name: Seq<u8>) -> Seq<u8> {
    seq![VOLUME_IDENTIFIER_TAG] + filled(0, 3) + le_bytes(time_stamp as nat, 8) + name
        + filled(0, (NAME_FIELD_LEN - name.len()) as nat)
}

/// The bytes of `s` before its first zero byte (all of `s` if it has none).
pub open spec fn c_string(s: Seq<u8>) -> Seq<u8>
    decreases s.len(),
{
    if s.len() == 0 || s[0] == 0 {
        Seq::empty()
    } else {
        seq![s[0]] + c_string(s.drop_first())
    }
}

/// A name without zero bytes, followed by a zero byte, reads back as itself.
pub proof fn lemma_c_string_of_terminated(name: Seq<u8>, rest: Seq<u8>)
    requires
        forall|i: int| 0 <= i < name.len() ==> #[trigger] name[i] != 0,
    ensures
        c_string(name + seq![0u8] + rest) == name,
    decreases name.len(),
{
    let s = name + seq![0u8] + rest;
    if name.len() == 0 {
        assert(s[0] == 0);
    } else {
        let tail = name.drop_first();
        assert(s.drop_first() =~= tail + seq![0u8] + rest);
        assert forall|i: int| 0 <= i < tail.len() implies #[trigger] tail[i] != 0 by {
            assert(tail[i] == name[i + 1]);
        }
        lemma_c_string_of_terminated(tail, rest);
        assert(s[0] == name[0]);
        assert(seq![name[0]] + tail =~= name);
    }
}

pub proof fn lemma_starter_marker_len()
    ensures
        starter_marker_spec().len() == ENTRY_SIZE,
{
}

pub proof fn lemma_volume_entry_len(time_stamp: u64, name: Seq<u8>)
    requires
        name.len() <= MAX_NAME_LEN,
    ensures
        volume_entry_spec(time_stamp, name).len() == ENTRY_SIZE,
{
    lemma_le_bytes_len(time_stamp as nat, 8);
}

/// Builds the starter marker entry.
pub fn new_starter_marker() -> (r: Vec<u8>)
    ensures
        r@ == starter_marker_spec(),
        r@.len() == ENTRY_SIZE,
{
    let mut buffer: Vec<u8> = Vec::new();
    buffer.push(STARTER_MARKER_TAG);
    push_fill(&mut buffer, STARTER_MARKER_FILL, 63);
    assert(buffer@ =~= starter_marker_spec());
    buffer
}

/// Builds the volume identifier entry for a volume created at `time_stamp`
/// and named `name`.
pub fn new_index_volume(time_stamp: u64, name: &[u8]) -> (r: Vec<u8>)
    requires
        name@.len() <= MAX_NAME_LEN,
    ensures
        r@ == volume_entry_spec(time_stamp, name@),
        r@.len() == ENTRY_SIZE,
{
    let mut buffer: Vec<u8> = Vec::new();
    buffer.push(VOLUME_IDENTIFIER_TAG);
    push_fill(&mut buffer, 0, 3);
    push_le(&mut buffer, time_stamp, 8);
    let ghost before_name = buffer@;
    let mut i: usize = 0;
    while i < name.len()
        invariant
            i <= name@.len(),
            buffer@ =~= before_name + name@.subrange(0, i as int),
        decreases name@.len() - i,
    {
        buffer.push(name[i]);
        i = i + 1;
        assert(buffer@ =~= before_name + name@.subrange(0, i as int));
    }
    push_fill(&mut buffer, 0, (NAME_FIELD_LEN as usize) - name.len());
    proof {
        assert(name@.subrange(0, name@.len() as int) =~= name@);
        assert(buffer@ =~= volume_entry_spec(time_stamp, name@));
        lemma_volume_entry_len(time_stamp, name@);
    }
    buffer
}

} // verus!
