use vstd::prelude::*;

use crate::crypto::{aes128_encrypt_block, spec_aes128_block};

verus! {

/// The four big-endian bytes of a 32-bit counter.
pub open spec fn spec_be32(x: u32) -> Seq<u8> {
    seq![
        ((x >> 24) & 0xff) as u8,
        ((x >> 16) & 0xff) as u8,
        ((x >> 8) & 0xff) as u8,
        (x & 0xff) as u8,
    ]
}

/// The input block of counter `i`: the 12-byte nonce followed by the counter.
pub open spec fn spec_block_input(nonce: Seq<u8>, i: nat) -> Seq<u8> {
    nonce + spec_be32(i as u32)
}

/// Byte `j` of the keystream: byte `j % 16` of the encrypted input block
/// `j / 16`.
pub open spec fn spec_keystream_byte(key: Seq<u8>, nonce: Seq<u8>, j: nat) -> u8 {
    spec_aes128_block(key, spec_block_input(nonce, j / 16))[(j % 16) as int]
}

/// Counter-mode output: each data byte combined with its keystream byte.
pub open spec fn spec_ctr_xor(key: Seq<u8>, nonce: Seq<u8>, data: Seq<u8>) -> Seq<u8> {
    Seq::new(data.len(), |j: int| data[j] ^ spec_keystream_byte(key, nonce, j as nat))
}

/// Applying the keystream twice gives the data back: counter-mode encryption
/// and decryption are the same operation.
pub proof fn lemma_ctr_xor_involution(key: Seq<u8>, nonce: Seq<u8>, data: Seq<u8>)
    ensures
        spec_ctr_xor(key, nonce, spec_ctr_xor(key, nonce, data)) == data,
{
    let once = spec_ctr_xor(key, nonce, data);
    assert forall|i: int| 0 <= i < data.len() implies spec_ctr_xor(key, nonce, once)[i]
        == data[i] by {
        let a = data[i];
        let k = spec_keystream_byte(key, nonce, i as nat);
        assert((a ^ k) ^ k == a) by (bit_vector);
    }
    assert(spec_ctr_xor(key, nonce, once) =~= data);
}

/// The 16-byte input block for one counter value.
fn block_input(nonce: &[u8], counter: u32) -> (r: Vec<u8>)
    requires
        nonce@.len() == 12,
    ensures
        r@ == spec_block_input(nonce@, counter as nat),
        r@.len() == 16,
    {
    let mut v: Vec<u8> = Vec::new();
    v.extend_from_slice(nonce);
    proof {
        assert(((counter >> 24) & 0xff) <= 0xff) by (bit_vector);
        assert(((counter >> 16) & 0xff) <= 0xff) by (bit_vector);
        assert(((counter >> 8) & 0xff) <= 0xff) by (bit_vector);
        assert((counter & 0xff) <= 0xff) by (bit_vector);
        assert(counter as nat as u32 == counter);
    }
    v.push(((counter >> 24) & 0xff) as u8);
    v.push(((counter >> 16) & 0xff) as u8);
    v.push(((counter >> 8) & 0xff) as u8);
    v.push((counter & 0xff) as u8);
    proof {
        assert(v@ =~= spec_block_input(nonce@, counter as nat));
    }
    v
}

/// Encrypts or decrypts `data` in counter mode under `key` and `nonce`.
pub fn ctr_xor(key: &[u8], nonce: &[u8], data: &[u8]) -> (r: Vec<u8>)
    requires
        key@.len() == 16,
        nonce@.len() == 12,
        data@.len() < 0x1000_0000,
    ensures
        r@ == spec_ctr_xor(key@, nonce@, data@),
{
    let n = data.len();
    let mut out: Vec<u8> = Vec::new();
    let mut start: usize = 0;
    while start < n
        invariant
            key@.len() == 16,
            nonce@.len() == 12,
            n == data@.len(),
            n < 0x1000_0000,
            start % 16 == 0 || start == n,
            start <= n,
            out@.len() == start,
            forall|t: int| 0 <= t < out@.len() ==> out@[t] == (data@[t] ^ spec_keystream_byte(
                key@,
                nonce@,
                t as nat,
            )),
        decreases n - start,
    {
        let input = block_input(nonce, (start / 16) as u32);
        let ks = aes128_encrypt_block(key, input.as_slice());
        let mut j: usize = 0;
        while j < 16 && start + j < n
            invariant
                key@.len() == 16,
                nonce@.len() == 12,
                n == data@.len(),
                start % 16 == 0,
                start < n,
                n < 0x1000_0000,
                j <= 16,
                start + j <= n,
                out@.len() == start + j,
                ks@ == spec_aes128_block(key@, spec_block_input(nonce@, (start / 16) as nat)),
                ks@.len() == 16,
                forall|t: int| 0 <= t < out@.len() ==> out@[t] == (data@[t]
                    ^ spec_keystream_byte(key@, nonce@, t as nat)),
            decreases 16 - j,
        {
            let idx = start + j;
            proof {
                assert(idx / 16 == start / 16 && idx % 16 == j as int) by (nonlinear_arith)
                    requires
                        start % 16 == 0,
                        0 <= j < 16,
                        idx == start + j,
                ;
            }
            out.push(data[idx] ^ ks[j]);
            j = j + 1;
        }
        proof {
            assert(j >= 1);
        }
        start = start + j;
    }
    proof {
        assert(out@ =~= spec_ctr_xor(key@, nonce@, data@));
    }
    out
}

} // verus!
