use vstd::prelude::*;

verus! {

use crate::aead::{decrypt, encrypt, gcm_seal};
use crate::coordinator::Coordinator;
use crate::envelope::{hash_encfile, leaf_digest};
use crate::errors::LogError;
use crate::merkle::{check_inclusion, proof_check};
use crate::messages::{RetrieveResponse, RetrieveResponseEnum};

/// Recomputes the envelope's leaf digest and checks the inclusion proof for
/// leaf id - 1 against the supplied root and length. An identifier below 1
/// never verifies.
pub fn verify_retrieval(res: &RetrieveResponse, id: usize) -> (ok: bool)
    ensures
        ok == (1 <= id && proof_check(
            res.proof@,
            res.merkle_root@,
            id - 1,
            leaf_digest(res.file),
            res.merkle_tree_len as int,
        )),
{
    if id == 0 {
        return false;
    }
    let hash = hash_encfile(&res.file);
    check_inclusion(&res.proof, &res.merkle_root, id - 1, &hash, res.merkle_tree_len)
}

/// The client's decision on a retrieval answer: reject a missing blob, an
/// identifier below 1, or a proof that does not verify, and only then
/// decrypt. Tampering (ProofInvalid), a wrong password or corrupted
/// ciphertext (AuthenticationFailure), and a missing blob (NotFound) are
/// reported apart.
pub fn process_retrieval(res: RetrieveResponseEnum, id: usize, key: &[u8; 32]) -> (r: Result<
    Vec<u8>,
    LogError,
>)
    ensures
        res matches RetrieveResponseEnum::Error { .. } ==> (r matches Err(e) && e
            == LogError::NotFound),
        res matches RetrieveResponseEnum::Success(s) ==> (if id < 1 {
            r matches Err(e) && e == LogError::OutOfRange
        } else if !proof_check(
            s.proof@,
            s.merkle_root@,
            id - 1,
            leaf_digest(s.file),
            s.merkle_tree_len as int,
        ) {
            r matches Err(e) && e == LogError::ProofInvalid
        } else {
            (r matches Err(e) ==> e == LogError::AuthenticationFailure) && (forall|p: Seq<u8>|
                #[trigger] gcm_seal(key@, s.file.nonce@, p) == (s.file.data@, s.file.tag@) ==> (
                r matches Ok(out) && out@ == p))
        }),
{
    match res {
        RetrieveResponseEnum::Error { error: _ } => Err(LogError::NotFound),
        RetrieveResponseEnum::Success(s) => {
            if id < 1 {
                Err(LogError::OutOfRange)
            } else if !verify_retrieval(&s, id) {
                Err(LogError::ProofInvalid)
            } else {
                decrypt(&s.file, key)
            }
        },
    }
}

/// End to end: encrypting a blob, appending the envelope, retrieving the
/// identifier it was assigned, then verifying and decrypting the answer
/// returns the original plaintext.
pub fn store_and_fetch(c: &mut Coordinator, data: &Vec<u8>, key: &[u8; 32]) -> (r: Vec<u8>)
    requires
        old(c).wf(),
        old(c).envelopes().len() < usize::MAX,
    ensures
        final(c).wf(),
        r@ == data@,
{
    let env = encrypt(data, key);
    let ghost genv = env;
    let id = c.append_blob(env);
    match c.retrieve_blob(id) {
        RetrieveResponseEnum::Success(res) => {
            proof {
                assert(c.envelopes()[id - 1] == genv);
                assert(res.file.nonce@ == genv.nonce@ && res.file.tag@ == genv.tag@
                    && res.file.data@ == genv.data@);
                assert(gcm_seal(key@, res.file.nonce@, data@) == (res.file.data@, res.file.tag@));
            }
            match process_retrieval(RetrieveResponseEnum::Success(res), id, key) {
                Ok(p) => p,
                Err(_) => unreached(),
            }
        },
        RetrieveResponseEnum::Error { error: _ } => unreached(),
    }
}

} // verus!
