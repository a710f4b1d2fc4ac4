use vstd::prelude::*;
use rand::Rng;

verus! {

/// The Argon2 digest of a password under a salt, with the library's
/// fixed (default) cost parameters; it depends on the password and the
/// salt alone.
pub uninterp spec fn hash_of(password: Seq<char>, salt: Seq<u8>) -> Seq<u8>;

/// Relies on rand's thread_rng and Rng::gen: 32 freshly drawn bytes.
/// Nothing is assumed of their values.
#[verifier::external_body]
pub fn generate_salt() -> (r: Vec<u8>)
    ensures
        r@.len() == 32,
{
    let salt: [u8; 32] = rand::thread_rng().gen();
    salt.to_vec()
}

/// Relies on argon2::hash_raw with argon2::Config::default(): the digest
/// depends on the password and the salt alone.  The call fails only for
/// a salt shorter than 8 bytes or inputs whose byte length exceeds
/// u32::MAX, which the preconditions keep out (a character encodes to at
/// most 4 bytes).
#[verifier::external_body]
pub fn generate_hash(password: &str, salt: &Vec<u8>) -> (r: Vec<u8>)
    requires
        8 <= salt@.len() <= 0xFFFF_FFFF,
        password@.len() <= 0x3FFF_FFFF,
    ensures
        r@ == hash_of(password@, salt@),
{
    argon2::hash_raw(password.as_bytes(), salt.as_slice(), &argon2::Config::default())
        .expect("argon2 rejected its inputs")
}

/// Equality of two byte strings, compared without an early exit so that
/// the running time does not reveal where two digests first differ.
fn bytes_equal(a: &Vec<u8>, b: &Vec<u8>) -> (r: bool)
    ensures
        r == (a@ == b@),
{
    if a.len() != b.len() {
        return false;
    }
    let n = a.len();
    let mut diff: u8 = 0;
    let mut i: usize = 0;
    while i < n
        invariant
            0 <= i <= n,
            n == a@.len(),
            n == b@.len(),
            (diff == 0) == (forall|j: int| 0 <= j < i ==> a@[j] == b@[j]),
        decreases n - i,
    {
        let x = a[i];
        let y = b[i];
        let d0 = diff;
        diff = d0 | (x ^ y);
        proof {
            assert((d0 | (x ^ y)) == 0 <==> d0 == 0 && x == y) by (bit_vector);
        }
        i = i + 1;
    }
    proof {
        if diff == 0 {
            assert(a@ =~= b@);
        }
    }
    diff == 0
}

/// Does the stored digest match this password under the stored salt?
pub fn verify_hash(hash: &Vec<u8>, salt: &Vec<u8>, password: &str) -> (r: bool)
    requires
        8 <= salt@.len() <= 0xFFFF_FFFF,
        password@.len() <= 0x3FFF_FFFF,
    ensures
        r == (hash@ == hash_of(password@, salt@)),
{
    let fresh = generate_hash(password, salt);
    bytes_equal(hash, &fresh)
}

} // verus!
