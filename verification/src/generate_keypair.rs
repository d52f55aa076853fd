use vstd::prelude::*;
use crate::address::Address;
use solana_sdk::signer::Signer;

verus! {

/// The API form of a freshly generated keypair: the public key as an
/// address, the secret key as base-58 text of the keypair's 64-byte form.
pub struct GeneratedKeypairApiResponse {
    pub pubkey: Address,
    pub secret_key: String,
}

/// The base-58 text that a byte string encodes to. A fixed function of the
/// bytes alone.
pub uninterp spec fn base58_encoded(b: Seq<u8>) -> Seq<char>;

/// Relies on bs58::encode: the standard base-58 text of the bytes, a
/// function of the bytes alone.
#[verifier::external_body]
fn bs58_encode(b: &[u8]) -> (r: String)
    ensures
        r@ == base58_encoded(b@),
{
    bs58::encode(b).into_string()
}

/// Relies on solana_sdk::signature::Keypair::new and Keypair::to_bytes: a
/// fresh random signing keypair as its 64-byte form (the secret half first,
/// the public key as the last 32 bytes), with that public key. Nothing is
/// promised of random bytes beyond their length and that layout.
#[verifier::external_body]
fn new_keypair() -> (r: (Address, Vec<u8>))
    ensures
        r.1@.len() == 64,
        r.0@ == r.1@.subrange(32, 64),
{
    let keypair = solana_sdk::signature::Keypair::new();
    let pubkey = keypair.pubkey();
    (Address { bytes: pubkey.to_bytes() }, keypair.to_bytes().to_vec())
}

/// Assembles the API response for an already generated keypair: the public
/// key passes through, the secret bytes are base-58 encoded.
pub fn make_keypair_response(pubkey: Address, secret: &Vec<u8>) -> (r:
    GeneratedKeypairApiResponse)
    ensures
        r.pubkey@ == pubkey@,
        r.secret_key@ == base58_encoded(secret@),
{
    GeneratedKeypairApiResponse { pubkey, secret_key: bs58_encode(secret.as_slice()) }
}

/// Generates a fresh random keypair and returns its API form. The secret
/// key is the base-58 text of some 64-byte keypair form whose last 32 bytes
/// are the returned public key; which form is the generator's choice.
pub fn generate_keypair() -> (r: GeneratedKeypairApiResponse)
    ensures
        exists|b: Seq<u8>|
            b.len() == 64 && r.secret_key@ == base58_encoded(b) && r.pubkey@ == b.subrange(
                32,
                64,
            ),
{
    let (pubkey, secret) = new_keypair();
    let r = make_keypair_response(pubkey, &secret);
    proof {
        assert(secret@.len() == 64 && r.secret_key@ == base58_encoded(secret@) && r.pubkey@
            == secret@.subrange(32, 64));
    }
    r
}

} // verus!
