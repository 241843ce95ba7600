//! Little-endian integer encoding and byte filling.

use vstd::prelude::*;

verus! {

/// The `n` least significant bytes of `v`, lowest first.
pub open spec fn le_bytes(v: nat, n: nat) -> Seq<u8>
    decreases n,
{
    if n == 0 {
        Seq::empty()
    } else {
        seq![(v % 256) as u8] + le_bytes(v / 256, (n - 1) as nat)
    }
}

/// The number that the bytes of `s` encode, least significant first.
pub open spec fn from_le(s: Seq<u8>) -> nat
    decreases s.len(),
{
    if s.len() == 0 {
        0
    } else {
        s[0] as nat + 256 * from_le(s.drop_first())
    }
}

/// The number of values that `n` bytes can hold.
pub open spec fn byte_range(n: nat) -> nat
    decreases n,
{
    if n == 0 {
        1
    } else {
        256 * byte_range((n - 1) as nat)
    }
}

/// Reading back `n` encoded bytes gives the value, where it fits in them.
pub proof fn lemma_from_le_bytes(v: nat, n: nat)
    requires
        v < byte_range(n),
    ensures
        from_le(le_bytes(v, n)) == v,
    decreases n,
{
    if n > 0 {
        let p = byte_range((n - 1) as nat);
        assert(v / 256 < p) by (nonlinear_arith)
            requires
                v < 256 * p,
        ;
        lemma_from_le_bytes(v / 256, (n - 1) as nat);
        assert(le_bytes(v, n).drop_first() =~= le_bytes(v / 256, (n - 1) as nat));
    }
}

pub proof fn lemma_byte_range_4_8()
    ensures
        byte_range(4) == 0x1_0000_0000,
        byte_range(8) == 0x1_0000_0000_0000_0000,
{
    reveal_with_fuel(byte_range, 9);
}

/// `n` copies of `b`.
pub open spec fn filled(b: u8, n: nat) -> Seq<u8> {
    Seq::new(n, |_i: int| b)
}

pub proof fn lemma_le_bytes_len(v: nat, n: nat)
    ensures
        le_bytes(v, n).len() == n,
    decreases n,
{
    if n > 0 {
        lemma_le_bytes_len(v / 256, (n - 1) as nat);
    }
}

/// Appends the `width` low bytes of `v` to `buf`, least significant first.
pub fn push_le(buf: &mut Vec<u8>, v: u64, width: usize)
    requires
        width <= 8,
    ensures
        final(buf)@ == old(buf)@ + le_bytes(v as nat, width as nat),
{
    let mut cur: u64 = v;
    let mut i: usize = 0;
    while i < width
        invariant
            i <= width,
            buf@ + le_bytes(cur as nat, (width - i) as nat) == old(buf)@ + le_bytes(
                v as nat,
                width as nat,
            ),
        decreases width - i,
    {
        let ghost before = buf@;
        let ghost rest = le_bytes(cur as nat / 256, (width - i - 1) as nat);
        buf.push((cur % 256) as u8);
        assert(before + le_bytes(cur as nat, (width - i) as nat) == buf@ + rest) by {
            assert(le_bytes(cur as nat, (width - i) as nat) == seq![(cur % 256) as u8] + rest);
            assert(before + (seq![(cur % 256) as u8] + rest) =~= buf@ + rest);
        }
        cur = cur / 256;
        i = i + 1;
    }
    assert(buf@ + le_bytes(cur as nat, 0) =~= buf@);
}

/// Appends `count` copies of `b` to `buf`.
pub fn push_fill(buf: &mut Vec<u8>, b: u8, count: usize)
    ensures
        final(buf)@ == old(buf)@ + filled(b, count as nat),
{
    let mut i: usize = 0;
    while i < count
        invariant
            i <= count,
            buf@ =~= old(buf)@ + filled(b, i as nat),
        decreases count - i,
    {
        buf.push(b);
        i = i + 1;
        assert(buf@ =~= old(buf)@ + filled(b, i as nat));
    }
}

} // verus!
