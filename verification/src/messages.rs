use vstd::prelude::*;

verus! {

use crate::envelope::EncFile;

/// The coordinator's answer to an upload: the assigned identifier.
pub struct UploadResponse {
    pub id: usize,
}

/// The coordinator's answer to a successful retrieval: the stored envelope,
/// an inclusion proof for its leaf, and the root and leaf count the proof
/// was generated against.
pub struct RetrieveResponse {
    pub proof: Vec<u8>,
    pub merkle_root: [u8; 32],
    pub merkle_tree_len: usize,
    pub file: EncFile,
}

/// A retrieval either succeeds or reports an error.
pub enum RetrieveResponseEnum {
    Success(RetrieveResponse),
    Error { error: String },
}

} // verus!
