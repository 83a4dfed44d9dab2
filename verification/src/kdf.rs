use vstd::prelude::*;

verus! {

/// The Argon2 key derived from a password and a salt.
pub uninterp spec fn argon2_key_of(password: Seq<u8>, salt: Seq<u8>) -> Seq<u8>;

/// The fixed salt under which every key of this log is derived.
pub open spec fn kdf_salt() -> Seq<u8> {
    seq![115u8, 107u8, 105u8, 98u8, 105u8, 100u8, 105u8, 102u8, 105u8, 108u8, 101u8, 115u8]
}

/// The 256-bit key a password derives to.
pub open spec fn derived_key(password: Seq<u8>) -> Seq<u8> {
    argon2_key_of(password, kdf_salt())
}

/// Relies on argon2::Argon2::hash_password_into with the default parameters:
/// the derived key is a function of the password and salt alone. The call can
/// fail, for instance when its working memory cannot be allocated, so
/// success is not promised.
#[verifier::external_body]
fn argon2_hash(password: &Vec<u8>, salt: &[u8; 12]) -> (r: Option<[u8; 32]>)
    ensures
        r matches Some(k) ==> k@ == argon2_key_of(password@, salt@),
{
    let mut out = [0u8; 32];
    match argon2::Argon2::default().hash_password_into(password.as_slice(), salt, &mut out) {
        Ok(()) => Some(out),
        Err(_) => None,
    }
}

/// Derives the 256-bit encryption key from a password, with Argon2 under the
/// log's fixed salt. Returns None only when the derivation itself failed.
pub fn derive_key(password: &Vec<u8>) -> (r: Option<[u8; 32]>)
    ensures
        r matches Some(k) ==> k@ == derived_key(password@),
{
    let salt: [u8; 12] = [115, 107, 105, 98, 105, 100, 105, 102, 105, 108, 101, 115];
    proof {
        assert(salt@ =~= kdf_salt());
    }
    argon2_hash(password, &salt)
}

} // verus!
