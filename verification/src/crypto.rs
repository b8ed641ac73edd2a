use aes::cipher::{BlockEncrypt, KeyInit};
use hmac::Mac;
use vstd::prelude::*;

verus! {

/// The tag that HMAC-SHA1 computes for a key and a message. The primitive is
/// provided by an outside library; the tag is a function of the two byte
/// strings alone, so it only gets a name here.
pub uninterp spec fn hmac_sha1_of(key: Seq<u8>, msg: Seq<u8>) -> Seq<u8>;

/// The HMAC-SHA1 tag as a sequence of exactly the tag length, 20 bytes, so
/// that specifications built on it know its length.
pub open spec fn spec_hmac_sha1(key: Seq<u8>, msg: Seq<u8>) -> Seq<u8> {
    let raw = hmac_sha1_of(key, msg);
    Seq::new(20, |i: int| if 0 <= i < raw.len() { raw[i] } else { 0u8 })
}

/// Relies on hmac's `Hmac<Sha1>` (`Mac::new_from_slice`, `update`,
/// `finalize`): a 20-byte tag determined by the key and message bytes alone.
/// HMAC accepts keys of any length, so `new_from_slice` cannot fail.
#[verifier::external_body]
pub(crate) fn hmac_sha1(key: &[u8], msg: &[u8]) -> (r: Vec<u8>)
    ensures
        r@ == hmac_sha1_of(key@, msg@),
        r@ == spec_hmac_sha1(key@, msg@),
{
    let mut mac = <hmac::Hmac<sha1::Sha1> as Mac>::new_from_slice(key)
        .expect("HMAC accepts any key length");
    mac.update(msg);
    mac.finalize().into_bytes().to_vec()
}

/// The block that AES-128 produces for a key and an input block. The block
/// cipher is provided by an outside library; the output is a function of the
/// two byte strings alone, so it only gets a name here.
pub uninterp spec fn aes128_block_of(key: Seq<u8>, block: Seq<u8>) -> Seq<u8>;

/// The AES-128 output as a sequence of exactly the block length, 16 bytes,
/// so that specifications built on it know its length.
pub open spec fn spec_aes128_block(key: Seq<u8>, block: Seq<u8>) -> Seq<u8> {
    let raw = aes128_block_of(key, block);
    Seq::new(16, |i: int| if 0 <= i < raw.len() { raw[i] } else { 0u8 })
}

/// Relies on aes's `Aes128` (`KeyInit::new_from_slice`, `encrypt_block`): a
/// 16-byte output block determined by the key and input block alone.
/// `new_from_slice` fails only for a key length other than 16.
#[verifier::external_body]
pub(crate) fn aes128_encrypt_block(key: &[u8], block: &[u8]) -> (r: Vec<u8>)
    requires
        key@.len() == 16,
        block@.len() == 16,
    ensures
        r@ == aes128_block_of(key@, block@),
        r@ == spec_aes128_block(key@, block@),
{
    let cipher = aes::Aes128::new_from_slice(key).expect("key length is 16");
    let mut b = aes::cipher::generic_array::GenericArray::clone_from_slice(block);
    cipher.encrypt_block(&mut b);
    b.to_vec()
}

} // verus!
