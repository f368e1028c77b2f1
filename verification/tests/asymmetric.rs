use ed25519_dalek::ed25519::signature::Signer;
use memsecurity::EncryptedMem;
use memsecurity::MemSecurityErr;
use memsecurity::NoLock;
use memsecurity::SealingKey;
use memsecurity::DEFAULT_VAULT_PAGES;
use memsecurity::DEFAULT_VAULT_PAGE_SIZE;

type Vault = SealingKey<NoLock, DEFAULT_VAULT_PAGES, DEFAULT_VAULT_PAGE_SIZE>;

fn vault() -> Vault {
    SealingKey::new(NoLock)
}

fn expect_err<T>(outcome: Result<T, MemSecurityErr>) -> MemSecurityErr {
    match outcome {
        Ok(_) => panic!("expected an error"),
        Err(e) => e,
    }
}

#[test]
fn sign_matches_ed25519_reference() {
    let vault = vault();
    let secret = [0x42u8; 32];
    let mut container = EncryptedMem::new();
    container.encrypt(&vault, &secret).unwrap();

    let signature = container.sign(&vault, b"attested message").unwrap();

    let reference_key = ed25519_dalek::SigningKey::from_bytes(&secret);
    let reference = reference_key.sign(b"attested message").to_bytes();
    assert_eq!(signature.expose_borrowed(), &reference);
}

#[test]
fn sign_rejects_wrong_key_length() {
    let vault = vault();
    let mut container = EncryptedMem::new();
    container.encrypt(&vault, &[1u8; 4]).unwrap();
    assert_eq!(
        expect_err(container.sign(&vault, b"message")),
        MemSecurityErr::InvalidArrayLength {
            expected: 32,
            found: 4,
        }
    );
}

#[test]
fn x25519_public_key_matches_reference() {
    let vault = vault();
    let secret = [0x07u8; 32];
    let mut container = EncryptedMem::new();
    container.encrypt(&vault, &secret).unwrap();

    let public = container.x25519_public_key(&vault).unwrap();

    let reference_secret = x25519_dalek::StaticSecret::from(secret);
    let reference = x25519_dalek::PublicKey::from(&reference_secret);
    assert_eq!(public.expose_borrowed(), reference.as_bytes());
}

#[test]
fn scenario_diffie_hellman_agreement() {
    let vault = vault();

    let mut alice = EncryptedMem::new();
    let alice_secret = memsecurity::CsprngArray::<32>::gen();
    alice.encrypt(&vault, &alice_secret.expose()).unwrap();
    let alice_public = alice.x25519_public_key(&vault).unwrap();

    let mut bob = EncryptedMem::new();
    let bob_secret = memsecurity::CsprngArray::<32>::gen();
    bob.encrypt(&vault, &bob_secret.expose()).unwrap();
    let bob_public = bob.x25519_public_key(&vault).unwrap();

    let alice_shared = alice.x25519_dh(&vault, &bob_public).unwrap();
    let bob_shared = bob.x25519_dh(&vault, &alice_public).unwrap();

    assert_eq!(
        alice_shared.expose_borrowed(),
        bob_shared.expose_borrowed()
    );
    assert_ne!(
        alice_shared.expose_borrowed(),
        &alice_secret.expose()
    );
}

#[test]
fn dh_on_short_secret_reports_length() {
    let vault = vault();
    let mut container = EncryptedMem::new();
    container.encrypt(&vault, &[2u8; 16]).unwrap();
    let public = memsecurity::ZeroizeArray::<32>::new([9u8; 32]);
    assert_eq!(
        expect_err(container.x25519_dh(&vault, &public)),
        MemSecurityErr::InvalidArrayLength {
            expected: 32,
            found: 16,
        }
    );
}
