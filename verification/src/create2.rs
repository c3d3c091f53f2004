//! CREATE2 address derivation.
//!
//! The address a CREATE2 deployment assigns is the low-order 20 bytes of the
//! Keccak-256 digest of `0xFF ++ deployer ++ salt ++ init-code hash`. The
//! deployer address and init-code hash are parameters of the derivation; the
//! defaults below are the constants of the mining target.

use vstd::prelude::*;
use sha3::{Digest, Keccak256};

verus! {

/// The 32-byte Keccak-256 digest of a byte string. The digest is a function
/// of the input bytes alone; its value is not modelled here.
pub uninterp spec fn keccak256_of(data: Seq<u8>) -> Seq<u8>;

/// Relies on sha3's Keccak256 (through the Digest trait): the result is the
/// 32-byte Keccak-256 digest of the input, a function of the input alone.
#[verifier::external_body]
fn keccak256(data: &Vec<u8>) -> (r: [u8; 32])
    ensures
        r@ == keccak256_of(data@),
{
    let mut hasher = Keccak256::new();
    hasher.update(data.as_slice());
    hasher.finalize().into()
}

/// The default deployer address of the mining target.
pub open spec fn deployer_spec() -> Seq<u8> {
    seq![
        0x48u8,
        0xE5,
        0x16,
        0xB3,
        0x4A,
        0x12,
        0x74,
        0xf4,
        0x94,
        0x57,
        0xb9,
        0xC6,
        0x18,
        0x20,
        0x97,
        0x79,
        0x6D,
        0x04,
        0x98,
        0xCb,
    ]
}

/// The default init-code hash of the mining target.
pub open spec fn init_code_hash_spec() -> Seq<u8> {
    seq![
        0x94u8,
        0xd1,
        0x14,
        0x29,
        0x6a,
        0x5a,
        0xf8,
        0x5c,
        0x1f,
        0xd2,
        0xdc,
        0x03,
        0x9c,
        0xda,
        0xa3,
        0x2f,
        0x1e,
        0xd4,
        0xb0,
        0xfe,
        0x08,
        0x68,
        0xf0,
        0x2d,
        0x88,
        0x8b,
        0xfc,
        0x91,
        0xfe,
        0xb6,
        0x45,
        0xd9,
    ]
}

/// The default deployer address, as bytes.
pub fn deployer_address() -> (r: [u8; 20])
    ensures
        r@ == deployer_spec(),
{
    let r: [u8; 20] = [
        0x48, 0xE5, 0x16, 0xB3, 0x4A, 0x12, 0x74, 0xf4, 0x94, 0x57, 0xb9, 0xC6, 0x18, 0x20, 0x97,
        0x79, 0x6D, 0x04, 0x98, 0xCb,
    ];
    proof {
        assert(r@ =~= deployer_spec());
    }
    r
}

/// The default init-code hash, as bytes.
pub fn init_code_hash() -> (r: [u8; 32])
    ensures
        r@ == init_code_hash_spec(),
{
    let r: [u8; 32] = [
        0x94, 0xd1, 0x14, 0x29, 0x6a, 0x5a, 0xf8, 0x5c, 0x1f, 0xd2, 0xdc, 0x03, 0x9c, 0xda, 0xa3,
        0x2f, 0x1e, 0xd4, 0xb0, 0xfe, 0x08, 0x68, 0xf0, 0x2d, 0x88, 0x8b, 0xfc, 0x91, 0xfe, 0xb6,
        0x45, 0xd9,
    ];
    proof {
        assert(r@ =~= init_code_hash_spec());
    }
    r
}

/// The 85-byte preimage hashed by the CREATE2 scheme.
pub open spec fn create2_preimage(deployer: Seq<u8>, init_code_hash: Seq<u8>, salt: Seq<u8>) -> Seq<
    u8,
> {
    seq![0xFFu8] + deployer + salt + init_code_hash
}

/// The address the CREATE2 scheme assigns: bytes 12 through 31 of the
/// Keccak-256 digest of the preimage.
pub open spec fn create2_address(deployer: Seq<u8>, init_code_hash: Seq<u8>, salt: Seq<u8>) -> Seq<
    u8,
> {
    keccak256_of(create2_preimage(deployer, init_code_hash, salt)).subrange(12, 32)
}

fn push_all(dst: &mut Vec<u8>, src: &[u8])
    ensures
        final(dst)@ == old(dst)@ + src@,
{
    let mut i: usize = 0;
    proof {
        assert(dst@ =~= dst@ + src@.subrange(0, 0));
    }
    while i < src.len()
        invariant
            i <= src@.len(),
            dst@ == old(dst)@ + src@.subrange(0, i as int),
        decreases src@.len() - i,
    {
        dst.push(src[i]);
        proof {
            assert(dst@ =~= old(dst)@ + src@.subrange(0, i + 1));
        }
        i = i + 1;
    }
    proof {
        assert(src@.subrange(0, src@.len() as int) =~= src@);
    }
}

/// Derives the CREATE2 address for the given deployer address, init-code
/// hash and salt.
pub fn derive_address(deployer: &[u8; 20], init_code_hash: &[u8; 32], salt: &[u8; 32]) -> (r: [u8;
    20])
    ensures
        r@ == create2_address(deployer@, init_code_hash@, salt@),
{
    let mut preimage: Vec<u8> = Vec::new();
    preimage.push(0xFF);
    push_all(&mut preimage, deployer.as_slice());
    push_all(&mut preimage, salt.as_slice());
    push_all(&mut preimage, init_code_hash.as_slice());
    proof {
        assert(preimage@ =~= create2_preimage(deployer@, init_code_hash@, salt@));
    }
    let digest = keccak256(&preimage);
    let mut address: [u8; 20] = [0u8; 20];
    let mut i: usize = 0;
    while i < 20
        invariant
            i <= 20,
            forall|j: int| 0 <= j < i ==> address@[j] == digest@[12 + j],
        decreases 20 - i,
    {
        address[i] = digest[12 + i];
        i = i + 1;
    }
    proof {
        assert(address@ =~= create2_address(deployer@, init_code_hash@, salt@));
    }
    address
}

/// Derives the CREATE2 address of `salt` for the default deployer and
/// init-code hash of the mining target.
pub fn compute_address(salt: &[u8; 32]) -> (r: [u8; 20])
    ensures
        r@ == create2_address(deployer_spec(), init_code_hash_spec(), salt@),
{
    let deployer = deployer_address();
    let hash = init_code_hash();
    derive_address(&deployer, &hash, salt)
}

/// Address derivation is a pure function of the deployer address, the
/// init-code hash and the salt: identical inputs always yield an identical
/// address.
pub proof fn lemma_derivation_deterministic(
    d1: Seq<u8>,
    h1: Seq<u8>,
    s1: Seq<u8>,
    d2: Seq<u8>,
    h2: Seq<u8>,
    s2: Seq<u8>,
)
    requires
        d1 == d2,
        h1 == h2,
        s1 == s2,
    ensures
        create2_address(d1, h1, s1) == create2_address(d2, h2, s2),
{
}

} // verus!
