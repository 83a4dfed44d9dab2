use skibidifiles::merkle::MerkleLog;
use skibidifiles::{
    aead_round_trip, append_alignment, derive_key, encrypt, hash_encfile, index,
    process_retrieval, retrieval_verifies, store_and_fetch, verify_retrieval, Coordinator,
    EncFile, LogError, RetrieveResponse, RetrieveResponseEnum, UploadResponse,
};

fn sample(b: u8) -> EncFile {
    EncFile { nonce: [b; 12], tag: [b.wrapping_add(1); 16], data: vec![b, b, b] }
}

fn success(r: RetrieveResponseEnum) -> RetrieveResponse {
    match r {
        RetrieveResponseEnum::Success(res) => res,
        RetrieveResponseEnum::Error { error } => panic!("unexpected error: {}", error),
    }
}

#[test]
fn index_greets() {
    assert_eq!(index(), "Welcome to skibidifiles (tm)!");
}

#[test]
fn append_assigns_sequential_ids_from_one() {
    let mut c = Coordinator::new();
    assert_eq!(c.append_blob(sample(1)), 1);
    assert_eq!(c.append_blob(sample(2)), 2);
    assert_eq!(c.append_blob(sample(3)), 3);
    let _ = UploadResponse { id: 3 };
}

#[test]
fn append_changes_the_root() {
    let mut log = MerkleLog::new();
    assert!(log.root().is_none());
    log.insert(&[1u8; 32]);
    log.commit();
    let r1 = log.root().unwrap();
    log.insert(&[2u8; 32]);
    log.commit();
    let r2 = log.root().unwrap();
    assert_ne!(r1, r2);
    log.insert(&[3u8; 32]);
    log.commit();
    let r3 = log.root().unwrap();
    assert_ne!(r2, r3);
}

#[test]
fn retrieval_returns_the_stored_envelope() {
    let mut c = Coordinator::new();
    let stored = sample(5);
    let id = c.append_blob(sample(5));
    let res = success(c.retrieve_blob(id));
    assert_eq!(res.file.nonce, stored.nonce);
    assert_eq!(res.file.tag, stored.tag);
    assert_eq!(res.file.data, stored.data);
    assert_eq!(res.merkle_tree_len, 1);
    assert!(verify_retrieval(&res, id));
}

#[test]
fn retrieval_proof_matches_rs_merkle() {
    let mut c = Coordinator::new();
    let id = c.append_blob(sample(8));
    c.append_blob(sample(9));
    let res = success(c.retrieve_blob(id));
    let proof =
        rs_merkle::MerkleProof::<rs_merkle::algorithms::Sha256>::from_bytes(&res.proof).unwrap();
    assert!(proof.verify(
        res.merkle_root,
        &[id - 1],
        &[hash_encfile(&res.file)],
        res.merkle_tree_len,
    ));
}

#[test]
fn proofs_verify_for_every_stored_leaf() {
    let mut c = Coordinator::new();
    for b in 0..7u8 {
        c.append_blob(sample(b));
    }
    for id in 1..=7usize {
        let res = success(c.retrieve_blob(id));
        assert_eq!(res.merkle_tree_len, 7);
        assert!(verify_retrieval(&res, id));
    }
}

#[test]
fn wrong_position_or_root_does_not_verify() {
    let mut c = Coordinator::new();
    c.append_blob(sample(1));
    c.append_blob(sample(2));
    let res = success(c.retrieve_blob(1));
    assert!(verify_retrieval(&res, 1));
    assert!(!verify_retrieval(&res, 2));
    assert!(!verify_retrieval(&res, 0));
    let mut bad_root = success(c.retrieve_blob(1));
    bad_root.merkle_root[0] ^= 0x40;
    assert!(!verify_retrieval(&bad_root, 1));
}

#[test]
fn any_single_bit_flip_breaks_the_proof() {
    let mut c = Coordinator::new();
    c.append_blob(sample(4));
    let res = success(c.retrieve_blob(1));
    assert!(verify_retrieval(&res, 1));
    let mut tampered = success(c.retrieve_blob(1));
    for byte in 0..12 {
        for bit in 0..8 {
            tampered.file.nonce[byte] ^= 1 << bit;
            assert!(!verify_retrieval(&tampered, 1));
            tampered.file.nonce[byte] ^= 1 << bit;
        }
    }
    for byte in 0..16 {
        for bit in 0..8 {
            tampered.file.tag[byte] ^= 1 << bit;
            assert!(!verify_retrieval(&tampered, 1));
            tampered.file.tag[byte] ^= 1 << bit;
        }
    }
    for byte in 0..tampered.file.data.len() {
        for bit in 0..8 {
            tampered.file.data[byte] ^= 1 << bit;
            assert!(!verify_retrieval(&tampered, 1));
            tampered.file.data[byte] ^= 1 << bit;
        }
    }
    assert!(verify_retrieval(&tampered, 1));
}

#[test]
fn missing_id_reports_not_found() {
    let c = Coordinator::new();
    match c.retrieve_blob(999) {
        RetrieveResponseEnum::Error { error } => assert_eq!(error, "File not found"),
        RetrieveResponseEnum::Success(_) => panic!("expected an error"),
    }
    let key = [0u8; 32];
    let r = process_retrieval(c.retrieve_blob(999), 999, &key);
    assert_eq!(r.unwrap_err(), LogError::NotFound);
}

#[test]
fn early_proof_still_verifies_after_later_appends() {
    let key = derive_key(&b"password".to_vec()).unwrap();
    let mut c = Coordinator::new();
    let env_a = encrypt(&Vec::new(), &key);
    let id_a = c.append_blob(env_a);
    assert_eq!(id_a, 1);
    let env_b = encrypt(&b"second blob".to_vec(), &key);
    let id_b = c.append_blob(env_b);
    assert_eq!(id_b, 2);
    let res = success(c.retrieve_blob(1));
    assert_eq!(res.merkle_tree_len, 2);
    assert!(verify_retrieval(&res, 1));
    let plain = process_retrieval(RetrieveResponseEnum::Success(res), 1, &key).unwrap();
    assert_eq!(plain, Vec::<u8>::new());
}

#[test]
fn process_retrieval_decrypts_an_honest_answer() {
    let key = derive_key(&b"pw".to_vec()).unwrap();
    let mut c = Coordinator::new();
    let id = c.append_blob(encrypt(&b"hello merkle".to_vec(), &key));
    let plain = process_retrieval(c.retrieve_blob(id), id, &key).unwrap();
    assert_eq!(plain, b"hello merkle".to_vec());
}

#[test]
fn process_retrieval_rejects_a_tampered_envelope() {
    let key = derive_key(&b"pw".to_vec()).unwrap();
    let mut c = Coordinator::new();
    let id = c.append_blob(encrypt(&b"hello merkle".to_vec(), &key));
    let mut res = success(c.retrieve_blob(id));
    res.file.data[0] ^= 0x02;
    let r = process_retrieval(RetrieveResponseEnum::Success(res), id, &key);
    assert_eq!(r.unwrap_err(), LogError::ProofInvalid);
}

#[test]
fn corrupting_ciphertext_after_verification_fails_authentication() {
    let key = derive_key(&b"pw".to_vec()).unwrap();
    let mut c = Coordinator::new();
    let id = c.append_blob(encrypt(&b"hello merkle".to_vec(), &key));
    let mut res = success(c.retrieve_blob(id));
    assert!(verify_retrieval(&res, id));
    res.file.data[0] ^= 0xff;
    let r = skibidifiles::decrypt(&res.file, &key);
    assert_eq!(r.unwrap_err(), LogError::AuthenticationFailure);
}

#[test]
fn identifier_zero_is_out_of_range() {
    let key = [1u8; 32];
    let mut c = Coordinator::new();
    c.append_blob(sample(1));
    let res = success(c.retrieve_blob(1));
    let r = process_retrieval(RetrieveResponseEnum::Success(res), 0, &key);
    assert_eq!(r.unwrap_err(), LogError::OutOfRange);
}

#[test]
fn law_functions_hold_at_runtime() {
    let key = [9u8; 32];
    let mut c = Coordinator::new();
    let appended = append_alignment(&mut c, sample(1));
    assert_eq!(appended.0, 1);
    assert!(matches!(appended.1, RetrieveResponseEnum::Success(_)));
    assert!(retrieval_verifies(&c, 1));
    let plain = store_and_fetch(&mut c, &b"xyz".to_vec(), &key);
    assert_eq!(plain, b"xyz".to_vec());
    assert_eq!(aead_round_trip(&b"abc".to_vec(), &key), b"abc".to_vec());
}

#[test]
fn duplicate_copies_every_field() {
    let file = sample(11);
    let copy = file.duplicate();
    assert_eq!(copy.nonce, file.nonce);
    assert_eq!(copy.tag, file.tag);
    assert_eq!(copy.data, file.data);
}
