use memsecurity::CsprngArray;
use memsecurity::EncryptedMem;
use memsecurity::MemSecurityErr;
use memsecurity::NoLock;
use memsecurity::SealingKey;
use memsecurity::SealingKeyVault;
use memsecurity::ZeroizeBytes;
use memsecurity::DEFAULT_VAULT_PAGES;
use memsecurity::DEFAULT_VAULT_PAGE_SIZE;
use memsecurity::TAG_LENGTH;
use memsecurity::XNONCE_LENGTH;

type Vault = SealingKey<NoLock, DEFAULT_VAULT_PAGES, DEFAULT_VAULT_PAGE_SIZE>;

fn vault() -> Vault {
    SealingKey::new(NoLock)
}

fn expect_err<T>(outcome: Result<T, MemSecurityErr>) -> MemSecurityErr {
    match outcome {
        Ok(_) => panic!("expected an error"),
        Err(e) => e,
    }
}

#[test]
fn round_trip_various_lengths() {
    let vault = vault();
    for len in [0usize, 1, 4, 16, 31, 32, 33, 1000] {
        let plaintext: Vec<u8> = (0..len).map(|i| (i % 251) as u8).collect();
        let mut container = EncryptedMem::new();
        container.encrypt(&vault, &plaintext).unwrap();
        let decrypted = container.decrypt(&vault).unwrap();
        assert_eq!(decrypted.expose_borrowed().as_ref(), &plaintext[..]);
    }
}

#[test]
fn scenario_default_vault_random_32_bytes() {
    let vault = vault();
    let plaintext = CsprngArray::<32>::gen();
    let mut container = EncryptedMem::new();
    container.encrypt(&vault, plaintext.dangerous_debug()).unwrap();
    let decrypted = container.decrypt(&vault).unwrap();
    assert_eq!(
        decrypted.expose_borrowed().as_ref(),
        &plaintext.expose()[..]
    );
}

#[test]
fn ciphertext_is_plaintext_plus_tag() {
    let vault = vault();
    let plaintext = [0xABu8; 10];
    let mut container = EncryptedMem::new();
    container.encrypt(&vault, &plaintext).unwrap();
    let stored = container.ciphertext_clone();
    assert_eq!(stored.expose_borrowed().len(), plaintext.len() + TAG_LENGTH);
    assert_ne!(&stored.expose_borrowed().as_ref()[..10], &plaintext[..]);
}

#[test]
fn tamper_detection_every_bit() {
    let vault = vault();
    let plaintext = [0x01u8, 0x02, 0x03, 0x04];
    let mut container = EncryptedMem::new();
    container.encrypt(&vault, &plaintext).unwrap();
    let original: Vec<u8> = container.ciphertext().expose_borrowed().as_ref().to_vec();
    for byte_index in 0..original.len() {
        for bit in 0..8 {
            let mut tampered = original.clone();
            tampered[byte_index] ^= 1u8 << bit;
            container.add_ciphertext(ZeroizeBytes::new_with_data(&tampered));
            assert_eq!(
                expect_err(container.decrypt(&vault)),
                MemSecurityErr::DecryptionError
            );
        }
    }
    container.add_ciphertext(ZeroizeBytes::new_with_data(&original));
    assert_eq!(
        container.decrypt(&vault).unwrap().expose_borrowed().as_ref(),
        &plaintext[..]
    );
}

#[test]
fn nonce_is_never_all_zero() {
    for _ in 0..8 {
        let container = EncryptedMem::new();
        assert_ne!(container.nonce().expose_borrowed(), &[0u8; XNONCE_LENGTH]);
        let with_capacity = EncryptedMem::new_with_added_capacity(64);
        assert_ne!(
            with_capacity.xnonce().expose_borrowed(),
            &[0u8; XNONCE_LENGTH]
        );
    }
}

#[test]
fn fresh_nonce_per_encrypt() {
    let vault = vault();
    let mut container = EncryptedMem::new();
    container.encrypt(&vault, &[1u8, 2, 3]).unwrap();
    let first_nonce = container.xnonce_clone();
    container.encrypt(&vault, &[4u8, 5, 6]).unwrap();
    let second_nonce = container.xnonce_clone();
    assert_ne!(
        first_nonce.expose_borrowed(),
        second_nonce.expose_borrowed()
    );
    assert_eq!(
        container.decrypt(&vault).unwrap().expose_borrowed().as_ref(),
        &[4u8, 5, 6][..]
    );
}

#[test]
fn vault_stability_two_kek_calls_agree() {
    let vault = vault();
    let first = vault.kek();
    let second = vault.kek();
    assert_eq!(first.expose_borrowed(), second.expose_borrowed());
    assert!(vault.kek_twice_agrees());
}

#[test]
fn independent_vaults_disagree() {
    let first_vault = vault();
    let second_vault = vault();
    assert_ne!(
        first_vault.kek().expose_borrowed(),
        second_vault.kek().expose_borrowed()
    );
}

#[test]
fn vault_zeroize_erases_pages() {
    let mut first_vault = vault();
    let before = first_vault.kek();
    first_vault.zeroize();
    let after = first_vault.kek();
    assert_ne!(before.expose_borrowed(), after.expose_borrowed());

    let mut second_vault = vault();
    second_vault.zeroize();
    assert_eq!(
        after.expose_borrowed(),
        second_vault.kek().expose_borrowed()
    );
}

#[test]
fn vault_reports_lock_outcome() {
    let vault = vault();
    assert!(vault.pages_locked());
}

#[test]
fn sealing_key_vault_is_stable() {
    let vault = SealingKeyVault::<32, DEFAULT_VAULT_PAGES, DEFAULT_VAULT_PAGE_SIZE>::new();
    let first = vault.sealing_key();
    let second = vault.sealing_key();
    assert!(first == second);
    assert_eq!(first.expose_borrowed().len(), 32);
}

#[test]
fn typed_decrypt_16_enforces_length() {
    let vault = vault();
    let mut container = EncryptedMem::new();
    container.encrypt(&vault, &[9u8; 4]).unwrap();
    assert_eq!(
        expect_err(container.decrypt_16byte(&vault)),
        MemSecurityErr::InvalidArrayLength {
            expected: 16,
            found: 4,
        }
    );
    container.encrypt(&vault, &[9u8; 16]).unwrap();
    let key = container.decrypt_16byte(&vault).unwrap();
    assert_eq!(key.expose_borrowed(), &[9u8; 16]);
}

#[test]
fn scenario_typed_decrypt_32_rejects_4_bytes() {
    let vault = vault();
    let mut container = EncryptedMem::new();
    container.encrypt(&vault, &[0x01u8, 0x02, 0x03, 0x04]).unwrap();
    assert_eq!(
        expect_err(container.decrypt_32byte(&vault)),
        MemSecurityErr::InvalidArrayLength {
            expected: 32,
            found: 4,
        }
    );
    container.encrypt(&vault, &[7u8; 32]).unwrap();
    let key = container.decrypt_32byte(&vault).unwrap();
    assert_eq!(key.expose_borrowed(), &[7u8; 32]);
}

#[test]
fn typed_decrypt_on_tampered_input_is_decryption_error() {
    let vault = vault();
    let mut container = EncryptedMem::new();
    container.encrypt(&vault, &[5u8; 32]).unwrap();
    let mut tampered: Vec<u8> = container.ciphertext().expose_borrowed().as_ref().to_vec();
    tampered[0] ^= 0x80;
    container.add_ciphertext(ZeroizeBytes::new_with_data(&tampered));
    assert_eq!(
        expect_err(container.decrypt_32byte(&vault)),
        MemSecurityErr::DecryptionError
    );
}

#[test]
fn uuid_round_trip_is_16_bytes() {
    let vault = vault();
    let mut container = EncryptedMem::new();
    container.encrypt_uuid(&vault).unwrap();
    assert_eq!(container.ciphertext().expose_borrowed().len(), 16 + TAG_LENGTH);
    let decrypted = container.decrypt_uuid(&vault).unwrap();
    assert_eq!(decrypted.expose_borrowed().len(), 16);
    // Version-4 identifiers carry the version in the high nibble of byte 6
    // and the variant bits at the top of byte 8.
    assert_eq!(decrypted.expose_borrowed()[6] >> 4, 4);
    assert_eq!(decrypted.expose_borrowed()[8] >> 6, 2);
}

#[test]
fn hmac_is_keyed_blake3_of_input() {
    let vault = vault();
    let first = EncryptedMem::blake3_hmac(&vault, b"some data");
    let again = EncryptedMem::blake3_hmac(&vault, b"some data");
    let other = EncryptedMem::blake3_hmac(&vault, b"other data");
    assert!(first == again);
    assert!(!(first == other));
    assert_ne!(first.expose_borrowed().as_slice(), b"some data".as_slice());
}

#[test]
fn keyed_hash_of_array_matches_hmac_of_concatenation() {
    let vault = vault();
    let parts: Vec<Vec<u8>> = vec![b"abc".to_vec(), b"".to_vec(), b"defg".to_vec()];
    let from_parts = EncryptedMem::blake3_keyed_hash_with_array(&vault, &parts);
    let from_concat = EncryptedMem::blake3_hmac(&vault, b"abcdefg");
    assert!(from_parts == from_concat);
}

#[test]
fn hkdf_depends_on_context() {
    let vault = vault();
    let first = EncryptedMem::blake3_hkdf(&vault, "application one");
    let again = EncryptedMem::blake3_hkdf(&vault, "application one");
    let other = EncryptedMem::blake3_hkdf(&vault, "application two");
    assert!(first == again);
    assert!(!(first == other));
    assert!(!(first == EncryptedMem::blake3_hmac(&vault, b"application one")));
}

#[test]
fn decrypt_of_empty_container_fails() {
    let vault = vault();
    let container = EncryptedMem::new();
    assert_eq!(
        expect_err(container.decrypt(&vault)),
        MemSecurityErr::DecryptionError
    );
}

#[test]
fn decrypt_with_wrong_vault_fails() {
    let first_vault = vault();
    let second_vault = vault();
    let mut container = EncryptedMem::new();
    container.encrypt(&first_vault, &[1u8; 8]).unwrap();
    assert_eq!(
        expect_err(container.decrypt(&second_vault)),
        MemSecurityErr::DecryptionError
    );
}

#[test]
fn default_container_behaves_like_new() {
    let vault = vault();
    let mut container = EncryptedMem::default();
    assert_ne!(container.nonce().expose_borrowed(), &[0u8; XNONCE_LENGTH]);
    container.encrypt(&vault, &[42u8; 3]).unwrap();
    assert_eq!(
        container.decrypt(&vault).unwrap().expose_borrowed().as_ref(),
        &[42u8; 3][..]
    );
}
