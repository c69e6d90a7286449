use ed25519_dalek::{Signer, SigningKey};
use identity_registry::auth::Signature;
use identity_registry::codec::build_write_iden_payload;
use identity_registry::errors::Error;
use identity_registry::registry::IdentityContract;
use identity_registry::storage::{Identifier, Identity, Link};

fn generate_keypair() -> SigningKey {
    SigningKey::generate(&mut rand::thread_rng())
}

fn make_identifier(kp: &SigningKey) -> Identifier {
    Identifier { public_key: kp.verifying_key().to_bytes().to_vec() }
}

fn test_network() -> Vec<u8> {
    vec![116, 101, 115, 116]
}

fn make_signature(kp: &SigningKey, network: &[u8], nonce: u64, key: &[u8]) -> Signature {
    let payload = build_write_iden_payload(
        &network.to_vec(),
        &kp.verifying_key().to_bytes().to_vec(),
        nonce,
        &key.to_vec(),
    );
    let sig = kp.sign(payload.as_slice());
    Signature {
        public_key: kp.verifying_key().to_bytes().to_vec(),
        sig_bytes: sig.to_bytes().to_vec(),
    }
}

fn get_record(contract: &IdentityContract, key: Vec<u8>) -> Identity {
    match contract.get_iden(key) {
        Ok(rec) => rec,
        Err(_) => panic!("expected a registered record"),
    }
}

#[test]
fn test_add_identity() {
    let mut contract = IdentityContract::new(test_network());

    let user_kp = generate_keypair();
    let user_id = make_identifier(&user_kp);
    let user_nonce = contract.nonce(user_id);

    let sig = make_signature(&user_kp, &test_network(), user_nonce, &[0; 32]);

    let r = contract.write_iden(
        vec![0; 32],
        vec![116, 100, 101, 112], // "tdep"
        vec![
            65, 32, 100, 101, 118, 101, 108, 111, 112, 101, 114, 32, 116, 104, 97, 116, 32, 98,
            117, 105, 108, 100, 32, 115, 116, 117, 102, 102,
        ], // "A developer that build stuff"
        vec![Link {
            descr: vec![112, 101, 114, 115, 111, 110, 97, 108, 32, 98, 108, 111, 103], // "personal blog"
            link: vec![
                104, 116, 116, 112, 115, 58, 47, 47, 104, 101, 121, 116, 100, 101, 112, 46, 103,
                105, 116, 104, 117, 98, 46, 105, 111, 47,
            ], // "https://heytdep.github.io/"
        }],
        sig,
        user_nonce,
    );
    assert!(r.is_ok());

    let iden = get_record(&contract, vec![0; 32]);
    assert_eq!(iden.name, vec![116, 100, 101, 112]);
}

#[test]
fn fresh_signer_nonce_is_zero() {
    let contract = IdentityContract::new(test_network());
    let kp = generate_keypair();
    assert_eq!(contract.nonce(make_identifier(&kp)), 0);
    let other = generate_keypair();
    assert_eq!(contract.nonce(make_identifier(&other)), 0);
}

#[test]
fn write_advances_nonce_and_replay_fails() {
    let mut contract = IdentityContract::new(test_network());
    let kp = generate_keypair();
    let id = make_identifier(&kp);
    let key = vec![7u8; 32];

    let sig = make_signature(&kp, &test_network(), 0, &key);
    let replay_sig = Signature {
        public_key: sig.public_key.clone(),
        sig_bytes: sig.sig_bytes.clone(),
    };
    let r = contract.write_iden(key.clone(), vec![1], vec![2], vec![], sig, 0);
    assert_eq!(r, Ok(()));
    assert_eq!(contract.nonce(id.clone()), 1);

    // Resubmitting the same signed request with the same nonce must fail.
    let r2 = contract.write_iden(key.clone(), vec![1], vec![2], vec![], replay_sig, 0);
    assert_eq!(r2, Err(Error::AuthenticationFailed));
    assert_eq!(contract.nonce(id), 1);
}

#[test]
fn get_iden_unregistered_fails_then_roundtrips() {
    let mut contract = IdentityContract::new(test_network());
    let key = vec![9u8; 32];

    let e = match contract.get_iden(key.clone()) {
        Ok(_) => panic!("expected no record"),
        Err(e) => e,
    };
    assert_eq!(e, Error::NotFound);

    let kp = generate_keypair();
    let sig = make_signature(&kp, &test_network(), 0, &key);
    let name = vec![110, 97, 109, 101];
    let descr = vec![100, 101, 115, 99];
    let links = vec![Link { descr: vec![97], link: vec![98] }];
    let r = contract.write_iden(key.clone(), name.clone(), descr.clone(), links, sig, 0);
    assert_eq!(r, Ok(()));

    let rec = get_record(&contract, key);
    assert_eq!(rec.name, name);
    assert_eq!(rec.descr, descr);
    assert_eq!(rec.links.len(), 1);
    assert_eq!(rec.links[0].descr, vec![97]);
    assert_eq!(rec.links[0].link, vec![98]);
    assert_eq!(rec.admin.public_key, kp.verifying_key().to_bytes().to_vec());
}

#[test]
fn admin_set_exactly_once() {
    let mut contract = IdentityContract::new(test_network());

    let e = match contract.get_admin() {
        Ok(_) => panic!("expected no admin"),
        Err(e) => e,
    };
    assert_eq!(e, Error::NotFound);

    let first = Identifier { public_key: vec![1u8; 32] };
    assert_eq!(contract.set_admin(first), Ok(()));

    // A second set fails, with the same or a different admin.
    let same = Identifier { public_key: vec![1u8; 32] };
    assert_eq!(contract.set_admin(same), Err(Error::AlreadyInitialized));
    let different = Identifier { public_key: vec![2u8; 32] };
    assert_eq!(contract.set_admin(different), Err(Error::AlreadyInitialized));

    let admin = match contract.get_admin() {
        Ok(a) => a,
        Err(_) => panic!("expected an admin"),
    };
    assert_eq!(admin.public_key, vec![1u8; 32]);
}

#[test]
fn other_signer_overwrites_record() {
    let mut contract = IdentityContract::new(test_network());
    let key = vec![0u8; 32];

    let kp_a = generate_keypair();
    let sig_a = make_signature(&kp_a, &test_network(), 0, &key);
    let r = contract.write_iden(key.clone(), vec![65], vec![], vec![], sig_a, 0);
    assert_eq!(r, Ok(()));

    let kp_b = generate_keypair();
    let sig_b = make_signature(&kp_b, &test_network(), 0, &key);
    let r2 = contract.write_iden(key.clone(), vec![66], vec![], vec![], sig_b, 0);
    assert_eq!(r2, Ok(()));

    let rec = get_record(&contract, key);
    assert_eq!(rec.name, vec![66]);
    assert_eq!(rec.admin.public_key, kp_b.verifying_key().to_bytes().to_vec());
}

#[test]
fn full_write_scenario() {
    let mut contract = IdentityContract::new(test_network());
    let kp = generate_keypair();
    let id = make_identifier(&kp);
    let key = vec![0u8; 32];

    assert_eq!(contract.nonce(id.clone()), 0);
    let sig = make_signature(&kp, &test_network(), 0, &key);
    let r = contract.write_iden(
        key.clone(),
        vec![116, 100, 101, 112],
        vec![
            65, 32, 100, 101, 118, 101, 108, 111, 112, 101, 114, 32, 116, 104, 97, 116, 32, 98,
            117, 105, 108, 100, 32, 115, 116, 117, 102, 102,
        ],
        vec![Link {
            descr: vec![112, 101, 114, 115, 111, 110, 97, 108, 32, 98, 108, 111, 103],
            link: vec![
                104, 116, 116, 112, 115, 58, 47, 47, 104, 101, 121, 116, 100, 101, 112, 46, 103,
                105, 116, 104, 117, 98, 46, 105, 111, 47,
            ],
        }],
        sig,
        0,
    );
    assert_eq!(r, Ok(()));
    assert_eq!(contract.nonce(id), 1);
    assert_eq!(get_record(&contract, key).name, vec![116, 100, 101, 112]);
}

#[test]
fn tampered_nonce_rejected() {
    let mut contract = IdentityContract::new(test_network());
    let kp = generate_keypair();
    let id = make_identifier(&kp);
    let key = vec![3u8; 32];

    // A first write moves the ledger nonce to 1.
    let sig0 = make_signature(&kp, &test_network(), 0, &key);
    assert_eq!(contract.write_iden(key.clone(), vec![1], vec![], vec![], sig0, 0), Ok(()));
    assert_eq!(contract.nonce(id.clone()), 1);

    // A signature whose message encodes nonce 0, submitted with nonce 1:
    // the raw nonce matches the ledger, but the signed payload does not.
    let stale = make_signature(&kp, &test_network(), 0, &key);
    let r = contract.write_iden(key.clone(), vec![2], vec![], vec![], stale, 1);
    assert_eq!(r, Err(Error::AuthenticationFailed));
    assert_eq!(contract.nonce(id), 1);
    assert_eq!(get_record(&contract, key).name, vec![1]);
}

#[test]
fn tampered_key_rejected() {
    let mut contract = IdentityContract::new(test_network());
    let kp = generate_keypair();

    let sig = make_signature(&kp, &test_network(), 0, &[4u8; 32]);
    let r = contract.write_iden(vec![5u8; 32], vec![1], vec![], vec![], sig, 0);
    assert_eq!(r, Err(Error::AuthenticationFailed));
}

#[test]
fn wrong_signer_rejected() {
    let mut contract = IdentityContract::new(test_network());
    let kp = generate_keypair();
    let impostor = generate_keypair();
    let key = vec![6u8; 32];

    // Signed by the impostor's key but asserting the honest signer's identity.
    let honest_pk = kp.verifying_key().to_bytes().to_vec();
    let payload = build_write_iden_payload(&test_network(), &honest_pk, 0, &key);
    let sig = Signature {
        public_key: honest_pk,
        sig_bytes: impostor.sign(payload.as_slice()).to_bytes().to_vec(),
    };
    let r = contract.write_iden(key, vec![1], vec![], vec![], sig, 0);
    assert_eq!(r, Err(Error::AuthenticationFailed));
}

#[test]
fn wrong_network_rejected() {
    let mut contract = IdentityContract::new(test_network());
    let kp = generate_keypair();
    let key = vec![8u8; 32];

    let other_network = vec![111, 116, 104, 101, 114];
    let sig = make_signature(&kp, &other_network, 0, &key);
    let r = contract.write_iden(key, vec![1], vec![], vec![], sig, 0);
    assert_eq!(r, Err(Error::AuthenticationFailed));
}

#[test]
fn empty_fields_roundtrip() {
    let mut contract = IdentityContract::new(test_network());
    let kp = generate_keypair();
    let key = vec![10u8; 32];

    let sig = make_signature(&kp, &test_network(), 0, &key);
    let r = contract.write_iden(key.clone(), vec![], vec![], vec![], sig, 0);
    assert_eq!(r, Ok(()));

    let rec = get_record(&contract, key);
    assert_eq!(rec.name, Vec::<u8>::new());
    assert_eq!(rec.descr, Vec::<u8>::new());
    assert_eq!(rec.links.len(), 0);
}
