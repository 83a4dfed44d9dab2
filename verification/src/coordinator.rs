use vstd::prelude::*;
use vstd::string::StringExecFns;

verus! {

use crate::envelope::{hash_encfile, leaf_digest, EncFile};
use crate::merkle::{log_leaves, log_pending, merkle_root_of, proof_check, MerkleLog};
use crate::messages::{RetrieveResponse, RetrieveResponseEnum};

/// The server coordinator: the blob store and the Merkle log, owned and
/// updated as one unit.
pub struct Coordinator {
    store: Vec<EncFile>,
    log: MerkleLog,
}

impl Coordinator {
    /// The stored envelopes; the envelope with identifier i stands at
    /// position i - 1.
    pub closed spec fn envelopes(&self) -> Seq<EncFile> {
        self.store@
    }

    /// The committed Merkle leaves.
    pub closed spec fn leaves(&self) -> Seq<Seq<u8>> {
        log_leaves(self.log)
    }

    /// Well-formedness: nothing pending in the tree, one leaf per stored
    /// envelope, and leaf i is the digest of envelope i.
    pub closed spec fn wf(&self) -> bool {
        &&& log_pending(self.log) == Seq::<Seq<u8>>::empty()
        &&& self.leaves().len() == self.envelopes().len()
        &&& forall|i: int|
            0 <= i < self.envelopes().len() ==> #[trigger] self.leaves()[i] == leaf_digest(
                self.envelopes()[i],
            )
    }

    /// A fresh coordinator with nothing stored.
    pub fn new() -> (r: Coordinator)
        ensures
            r.wf(),
            r.envelopes() == Seq::<EncFile>::empty(),
    {
        Coordinator { store: Vec::new(), log: MerkleLog::new() }
    }

    /// The number of stored blobs, which is also the Merkle log's length.
    pub fn blob_count(&self) -> (r: usize)
        ensures
            r == self.envelopes().len(),
    {
        self.store.len()
    }

    /// Appends an envelope as one unit: stores it, hashes it, and grows the
    /// tree by exactly that leaf. Returns the assigned identifier: one past
    /// the previous length, so identifiers start at 1, increase by one, and
    /// leave no gaps.
    pub fn append_blob(&mut self, file: EncFile) -> (id: usize)
        requires
            old(self).wf(),
            old(self).envelopes().len() < usize::MAX,
        ensures
            final(self).wf(),
            id == old(self).envelopes().len() + 1,
            final(self).envelopes() == old(self).envelopes().push(file),
            final(self).envelopes().len() == old(self).envelopes().len() + 1,
            final(self).leaves() == old(self).leaves().push(leaf_digest(file)),
    {
        let hash = hash_encfile(&file);
        self.log.insert(&hash);
        self.log.commit();
        self.store.push(file);
        proof {
            assert(log_leaves(self.log) =~= old(self).leaves().push(leaf_digest(file)));
            assert forall|i: int| 0 <= i < self.envelopes().len() implies #[trigger] self.leaves()[i]
                == leaf_digest(self.envelopes()[i]) by {
                if i < old(self).envelopes().len() {
                    assert(old(self).leaves()[i] == leaf_digest(old(self).envelopes()[i]));
                }
            }
        }
        self.store.len()
    }

    /// Looks an identifier up. When an envelope is stored under it, returns
    /// the envelope, an inclusion proof for leaf id - 1, and the current
    /// root and length, mutually consistent; otherwise the not-found error.
    pub fn retrieve_blob(&self, id: usize) -> (r: RetrieveResponseEnum)
        requires
            self.wf(),
        ensures
            1 <= id <= self.envelopes().len() ==> (r matches RetrieveResponseEnum::Success(res)
                && res.file@ == self.envelopes()[id - 1]@ && res.merkle_tree_len
                == self.envelopes().len() && res.merkle_root@ == merkle_root_of(self.leaves())
                && proof_check(
                res.proof@,
                res.merkle_root@,
                id - 1,
                leaf_digest(res.file),
                res.merkle_tree_len as int,
            )),
            !(1 <= id <= self.envelopes().len()) ==> (r matches RetrieveResponseEnum::Error {
                error,
            } && error@ == "File not found"@),
    {
        if 1 <= id && id <= self.store.len() {
            let file = self.store[id - 1].duplicate();
            let proof = self.log.proof_bytes(id - 1);
            let root = match self.log.root() {
                Some(d) => d,
                None => unreached(),
            };
            proof {
                assert(file.bytes() == self.envelopes()[id - 1].bytes());
                assert(leaf_digest(file) == self.leaves()[id - 1]);
            }
            RetrieveResponseEnum::Success(
                RetrieveResponse {
                    proof,
                    merkle_root: root,
                    merkle_tree_len: self.store.len(),
                    file,
                },
            )
        } else {
            RetrieveResponseEnum::Error { error: String::from_str("File not found") }
        }
    }
}

/// The greeting at the service root.
pub fn index() -> (r: &'static str)
    ensures
        r@ == "Welcome to skibidifiles (tm)!"@,
{
    "Welcome to skibidifiles (tm)!"
}

/// Proof soundness: for every stored identifier of a well-formed
/// coordinator, the retrieved envelope, proof, root and length pass the
/// client-side verification.
pub fn retrieval_verifies(c: &Coordinator, id: usize) -> (ok: bool)
    requires
        c.wf(),
        1 <= id <= c.envelopes().len(),
    ensures
        ok,
{
    match c.retrieve_blob(id) {
        RetrieveResponseEnum::Success(res) => crate::client::verify_retrieval(&res, id),
        RetrieveResponseEnum::Error { error: _ } => unreached(),
    }
}

/// Identifier/leaf alignment: appending an envelope and retrieving the
/// identifier it was assigned yields that same envelope, with a proof that
/// verifies against the new root and new length.
pub fn append_alignment(c: &mut Coordinator, file: EncFile) -> (out: (usize, RetrieveResponseEnum))
    requires
        old(c).wf(),
        old(c).envelopes().len() < usize::MAX,
    ensures
        final(c).wf(),
        out.0 == old(c).envelopes().len() + 1,
        out.1 matches RetrieveResponseEnum::Success(res) && res.file@ == file@
            && res.merkle_tree_len == old(c).envelopes().len() + 1 && proof_check(
            res.proof@,
            res.merkle_root@,
            out.0 - 1,
            leaf_digest(res.file),
            res.merkle_tree_len as int,
        ),
{
    let id = c.append_blob(file);
    let r = c.retrieve_blob(id);
    (id, r)
}

} // verus!
