use vstd::prelude::*;
use rs_merkle::algorithms::Sha256 as MerkleSha256;

verus! {

/// An append-only Merkle tree over 32-byte leaf digests. The tree itself is
/// rs_merkle::MerkleTree; this module states what is relied on of it.
#[verifier::external_body]
pub struct MerkleLog {
    tree: rs_merkle::MerkleTree<MerkleSha256>,
}

/// The committed leaves of the tree, oldest first.
pub uninterp spec fn log_leaves(log: MerkleLog) -> Seq<Seq<u8>>;

/// The inserted leaves that are not yet committed, oldest first.
pub uninterp spec fn log_pending(log: MerkleLog) -> Seq<Seq<u8>>;

/// The Merkle root of a leaf sequence.
pub uninterp spec fn merkle_root_of(leaves: Seq<Seq<u8>>) -> Seq<u8>;

/// Whether a serialized inclusion proof verifies a leaf digest at an index
/// against a root and a total leaf count.
pub uninterp spec fn proof_check(
    proof: Seq<u8>,
    root: Seq<u8>,
    index: int,
    leaf: Seq<u8>,
    total: int,
) -> bool;

impl MerkleLog {
    /// Relies on rs_merkle::MerkleTree::new: a fresh tree holds no leaves.
    #[verifier::external_body]
    pub fn new() -> (r: MerkleLog)
        ensures
            log_leaves(r) == Seq::<Seq<u8>>::empty(),
            log_pending(r) == Seq::<Seq<u8>>::empty(),
    {
        MerkleLog { tree: rs_merkle::MerkleTree::new() }
    }

    /// Relies on rs_merkle::MerkleTree::insert: the leaf joins the pending
    /// batch and the committed leaves stay as they were.
    #[verifier::external_body]
    pub fn insert(&mut self, leaf: &[u8; 32])
        ensures
            log_leaves(*final(self)) == log_leaves(*old(self)),
            log_pending(*final(self)) == log_pending(*old(self)).push(leaf@),
    {
        self.tree.insert(*leaf);
    }

    /// Relies on rs_merkle::MerkleTree::commit: the pending leaves are
    /// appended to the committed leaves in insertion order.
    #[verifier::external_body]
    pub fn commit(&mut self)
        ensures
            log_leaves(*final(self)) == log_leaves(*old(self)) + log_pending(*old(self)),
            log_pending(*final(self)) == Seq::<Seq<u8>>::empty(),
    {
        self.tree.commit();
    }

    /// Relies on rs_merkle::MerkleTree::root: Some root of the committed
    /// leaves when there are any, None on an empty tree.
    #[verifier::external_body]
    pub fn root(&self) -> (r: Option<[u8; 32]>)
        ensures
            match r {
                Some(d) => log_leaves(*self).len() > 0 && d@ == merkle_root_of(log_leaves(*self)),
                None => log_leaves(*self).len() == 0,
            },
    {
        self.tree.root()
    }

    /// Relies on rs_merkle::MerkleTree::proof and MerkleProof::to_bytes: the
    /// serialized proof for one committed leaf verifies that leaf's digest,
    /// at its index, against the tree's root and committed leaf count.
    #[verifier::external_body]
    pub fn proof_bytes(&self, index: usize) -> (r: Vec<u8>)
        requires
            log_pending(*self) == Seq::<Seq<u8>>::empty(),
            index < log_leaves(*self).len(),
        ensures
            proof_check(
                r@,
                merkle_root_of(log_leaves(*self)),
                index as int,
                log_leaves(*self)[index as int],
                log_leaves(*self).len() as int,
            ),
    {
        self.tree.proof(&[index]).to_bytes()
    }
}

/// Relies on rs_merkle::MerkleProof::from_bytes and MerkleProof::verify: the
/// outcome is a function of the proof bytes, root, leaf index, leaf digest
/// and leaf count alone; bytes that do not parse as a proof never verify.
#[verifier::external_body]
pub(crate) fn check_inclusion(
    proof: &Vec<u8>,
    root: &[u8; 32],
    index: usize,
    leaf: &[u8; 32],
    total: usize,
) -> (r: bool)
    ensures
        r == proof_check(proof@, root@, index as int, leaf@, total as int),
{
    match rs_merkle::MerkleProof::<MerkleSha256>::from_bytes(proof.as_slice()) {
        Ok(p) => p.verify(*root, &[index], &[*leaf], total),
        Err(_) => false,
    }
}

} // verus!
