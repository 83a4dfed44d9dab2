use vstd::prelude::*;
use sha2::Digest;

verus! {

/// An encrypted envelope: AES-GCM nonce, authentication tag, and ciphertext.
#[derive(Clone, Debug)]
pub struct EncFile {
    pub nonce: [u8; 12],
    pub tag: [u8; 16],
    pub data: Vec<u8>,
}

impl View for EncFile {
    type V = (Seq<u8>, Seq<u8>, Seq<u8>);

    open spec fn view(&self) -> Self::V {
        (self.nonce@, self.tag@, self.data@)
    }
}

impl EncFile {
    /// Canonical byte serialization: nonce, then tag, then ciphertext.
    pub open spec fn bytes(&self) -> Seq<u8> {
        self.nonce@ + self.tag@ + self.data@
    }

    /// A field-for-field copy of the envelope.
    pub fn duplicate(&self) -> (r: EncFile)
        ensures
            r@ == self@,
    {
        let mut data: Vec<u8> = Vec::new();
        let mut i: usize = 0;
        while i < self.data.len()
            invariant
                i <= self.data.len(),
                data@ =~= self.data@.subrange(0, i as int),
            decreases self.data.len() - i,
        {
            data.push(self.data[i]);
            i += 1;
        }
        proof {
            assert(data@ =~= self.data@);
        }
        EncFile { nonce: self.nonce, tag: self.tag, data }
    }
}

/// The SHA-256 digest of a byte sequence.
pub uninterp spec fn sha256_of(bytes: Seq<u8>) -> Seq<u8>;

/// The leaf digest committing an envelope to the Merkle log.
pub open spec fn leaf_digest(file: EncFile) -> Seq<u8> {
    sha256_of(file.bytes())
}

/// Relies on sha2::Sha256::digest: the digest is 32 bytes and a function of
/// the input bytes alone.
#[verifier::external_body]
fn sha256(bytes: &Vec<u8>) -> (r: [u8; 32])
    ensures
        r@ == sha256_of(bytes@),
{
    sha2::Sha256::digest(bytes.as_slice()).into()
}

/// The leaf digest of an envelope: SHA-256 over nonce, tag, then ciphertext.
pub fn hash_encfile(file: &EncFile) -> (r: [u8; 32])
    ensures
        r@ == leaf_digest(*file),
{
    let mut buf: Vec<u8> = Vec::new();
    let mut i: usize = 0;
    while i < 12
        invariant
            i <= 12,
            buf@ =~= file.nonce@.subrange(0, i as int),
        decreases 12 - i,
    {
        buf.push(file.nonce[i]);
        i += 1;
    }
    let mut j: usize = 0;
    while j < 16
        invariant
            j <= 16,
            buf@ =~= file.nonce@ + file.tag@.subrange(0, j as int),
        decreases 16 - j,
    {
        buf.push(file.tag[j]);
        j += 1;
    }
    let mut k: usize = 0;
    while k < file.data.len()
        invariant
            k <= file.data@.len(),
            buf@ =~= file.nonce@ + file.tag@ + file.data@.subrange(0, k as int),
        decreases file.data@.len() - k,
    {
        buf.push(file.data[k]);
        k += 1;
    }
    proof {
        assert(buf@ =~= file.bytes());
    }
    sha256(&buf)
}

} // verus!
