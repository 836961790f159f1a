use vstd::prelude::*;

pub mod codec;
pub mod endpoint;
pub mod event_mgr;
pub mod master_port;
pub mod media_types;
pub mod packet_buf;
pub mod port;
pub mod rtcp;
pub mod rtp;
pub mod sdp;
pub mod signatures;
pub mod stream;
pub mod transport;
pub mod wav_streamer;
pub mod wave;

verus! {

/// A four-character code, such as a RIFF chunk tag or a port signature.
pub type Fourcc = &'static [u8; 4];

/// The number that a four-character code packs into: its first byte is the
/// lowest, as a little-endian 32-bit read of the four bytes gives it.
pub open spec fn fourcc_value(sig: Seq<u8>) -> u32 {
    (sig[0] as int + sig[1] as int * 256 + sig[2] as int * 65536 + sig[3] as int
        * 16777216) as u32
}

/// Packs a four-character code into a `u32`, byte `i` into bits `8 * i`.
pub fn fourcc_to_int(sig: &[u8; 4]) -> (s: u32)
    ensures
        s == fourcc_value(sig@),
{
    let mut s = 0u32;
    let mut i: usize = 0;
    while i < 4
        invariant
            0 <= i <= 4,
            sig@.len() == 4,
            s as int == fourcc_partial(sig@, i as int),
            s as int <= pow256(i as int) - 1,
        decreases 4 - i,
    {
        let c = sig[i];
        let shift: u32 = (i * 8) as u32;
        proof {
            lemma_or_shift(s, c, i as int);
        }
        s = s | ((c as u32) << shift);
        i = i + 1;
    }
    proof {
        reveal_with_fuel(fourcc_partial, 5);
    }
    s
}

/// The value of the first `n` bytes of a four-character code.
pub open spec fn fourcc_partial(sig: Seq<u8>, n: int) -> int
    decreases n,
{
    if n <= 0 {
        0
    } else {
        fourcc_partial(sig, n - 1) + sig[n - 1] as int * pow256(n - 1)
    }
}

pub open spec fn pow256(n: int) -> int {
    if n == 0 {
        1
    } else if n == 1 {
        256
    } else if n == 2 {
        65536
    } else if n == 3 {
        16777216
    } else {
        4294967296
    }
}

proof fn lemma_or_shift(s: u32, c: u8, i: int)
    requires
        0 <= i < 4,
        s < pow256(i),
    ensures
        s | ((c as u32) << ((i * 8) as u32)) == s + c as int * pow256(i),
{
    if i == 0 {
        assert(s == 0);
        assert(0u32 | ((c as u32) << 0u32) == c) by (bit_vector);
    } else if i == 1 {
        assert(s < 256 ==> s | ((c as u32) << 8u32) == s + c * 256) by (bit_vector)
            requires
                c < 256,
        ;
    } else if i == 2 {
        assert(s < 65536 ==> s | ((c as u32) << 16u32) == s + c * 65536) by (bit_vector)
            requires
                c < 256,
        ;
    } else {
        assert(s < 16777216 ==> s | ((c as u32) << 24u32) == s + c * 16777216) by (bit_vector)
            requires
                c < 256,
        ;
    }
}

/// Different four-character codes pack into different numbers: the packing
/// loses nothing.
pub proof fn lemma_fourcc_injective(a: Seq<u8>, b: Seq<u8>)
    requires
        a.len() == 4,
        b.len() == 4,
        fourcc_value(a) == fourcc_value(b),
    ensures
        a == b,
{
    let x = a[0] as int + a[1] as int * 256 + a[2] as int * 65536 + a[3] as int * 16777216;
    let y = b[0] as int + b[1] as int * 256 + b[2] as int * 65536 + b[3] as int * 16777216;
    assert(x == y);
    assert(a[3] == b[3]);
    assert(a[2] == b[2]);
    assert(a[1] == b[1]);
    assert(a[0] == b[0]);
    assert(a =~= b);
}

/// A code packs its first byte into the lowest 8 bits and each later byte
/// 8 bits higher.
pub proof fn lemma_fourcc_byte_order(sig: Seq<u8>)
    requires
        sig.len() == 4,
    ensures
        fourcc_value(sig) % 256 == sig[0],
        (fourcc_value(sig) / 256) % 256 == sig[1],
        (fourcc_value(sig) / 65536) % 256 == sig[2],
        fourcc_value(sig) / 16777216 == sig[3],
{
}

} // verus!
