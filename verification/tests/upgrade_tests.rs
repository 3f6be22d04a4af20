use bytebeam::appstate::{AppState, UploadError};
use bytebeam::keymanager::KeyManager;
use bytebeam::serveropts::ServerOptions;
use ssh_key::private::{Ed25519Keypair, KeypairData};
use ssh_key::{HashAlg, LineEnding, PrivateKey};

fn test_key(seed: u8) -> PrivateKey {
    let pair = Ed25519Keypair::from_seed(&[seed; 32]);
    PrivateKey::new(KeypairData::Ed25519(pair), "test-key").expect("a private key")
}

fn directory_with(user: &str, key: &PrivateKey) -> KeyManager {
    let mut keys = KeyManager::new(None);
    let line = key.public_key().to_openssh().expect("an OpenSSH line");
    keys.set_user_keys(user.to_string(), vec![line]);
    keys
}

fn sign(key: &PrivateKey, challenge: &str) -> String {
    key.sign("bytebeam", HashAlg::Sha512, challenge.as_bytes())
        .expect("a signature")
        .to_pem(LineEnding::LF)
        .expect("a PEM armor")
}

fn words() -> Vec<String> {
    vec!["crane".to_string(), "slate".to_string(), "quite".to_string()]
}

fn state_for(user: &str, key: &PrivateKey) -> AppState {
    AppState::new(
        ServerOptions::default_public(),
        ServerOptions::default_authenticated(words()),
        directory_with(user, key),
    )
}

#[test]
fn key_manager_verifies_real_signatures() {
    let key = test_key(7);
    let keys = directory_with("alice", &key);
    let challenge = "eeee-challenge".to_string();
    let good = sign(&key, &challenge);
    assert!(keys.verify(&"alice".to_string(), &challenge, &good));
    assert!(!keys.verify(&"bob".to_string(), &challenge, &good));
    assert!(!keys.verify(&"alice".to_string(), &"other".to_string(), &good));
    assert!(!keys.verify(&"alice".to_string(), &challenge, &"not a signature".to_string()));
    let stranger = test_key(9);
    let forged = sign(&stranger, &challenge);
    assert!(!keys.verify(&"alice".to_string(), &challenge, &forged));
}

#[test]
fn key_users_can_be_raw_openssh_lines() {
    let key = test_key(3);
    let line = key.public_key().to_openssh().expect("an OpenSSH line");
    let mut keys = KeyManager::new(None);
    assert!(keys.add_key_user(line.clone()));
    assert!(!keys.add_key_user("just-a-user-name".to_string()));
    let challenge = "c".to_string();
    let good = sign(&key, &challenge);
    assert!(keys.verify(&line, &challenge, &good));
}

#[test]
fn fetched_authorized_keys_bodies_are_parsed() {
    let key = test_key(5);
    let line = key.public_key().to_openssh().expect("an OpenSSH line");
    let body = format!("# a comment\n{}\nnot a key line\n", line);
    let mut keys = KeyManager::new(Some("https://example.test/{}.keys".to_string()));
    keys.add_fetched_user("carol".to_string(), &body);
    let challenge = "c".to_string();
    let good = sign(&key, &challenge);
    assert!(keys.verify(&"carol".to_string(), &challenge, &good));
}

#[test]
fn upgrade_success_rotates_and_invalidates_the_old_path() {
    let key = test_key(11);
    let mut state = state_for("alice", &key);
    let user = "alice".to_string();
    let m1 = state
        .generate_file_upload(&"hello.txt".to_string(), Some(&user), 0)
        .expect("minted");
    assert!(!m1.authenticated());
    let (p1, k1) = m1.get_upload_info();
    let (_, _, challenge) = m1.get_challenge_details().expect("details");
    let response = sign(&key, challenge);

    let m2 = state
        .upgrade(&p1, &vec![response], 50)
        .expect("challenge accepted");
    assert!(m2.authenticated());
    let (p2, k2) = m2.get_upload_info();
    assert_ne!(p1, p2);
    assert_ne!(k1, k2);

    let err = state.begin_upload(&p1, &k1).unwrap_err();
    assert_eq!(err, UploadError::NotFound);
    let (_tx, tier) = state.begin_upload(&p2, &k2).expect("upload under the new path");
    assert!(tier.get_delay_time().is_none());
}

#[test]
fn upgrade_failure_leaves_the_ticket_usable() {
    let key = test_key(11);
    let stranger = test_key(12);
    let mut state = state_for("alice", &key);
    let user = "alice".to_string();
    let m1 = state
        .generate_file_upload(&"hello.txt".to_string(), Some(&user), 0)
        .expect("minted");
    let (p1, k1) = m1.get_upload_info();
    let (_, _, challenge) = m1.get_challenge_details().expect("details");
    let forged = sign(&stranger, challenge);

    assert!(state.upgrade(&p1, &vec![forged], 50).is_none());
    let unchanged = state.get_file_metadata(&p1, 60).expect("still listed");
    assert!(!unchanged.authenticated());
    state.begin_upload(&p1, &k1).expect("old path still works");
}

#[test]
fn upgrade_without_a_user_or_ticket_fails() {
    let key = test_key(11);
    let mut state = state_for("alice", &key);
    let m = state
        .generate_file_upload(&"anon.txt".to_string(), None, 0)
        .expect("minted");
    let (p, _) = m.get_upload_info();
    assert!(state.upgrade(&p, &vec!["anything".to_string()], 1).is_none());
    assert!(state
        .upgrade(&"missing".to_string(), &vec!["anything".to_string()], 1)
        .is_none());
}

#[test]
fn upgrade_tries_every_response() {
    let key = test_key(11);
    let mut state = state_for("alice", &key);
    let user = "alice".to_string();
    let m1 = state
        .generate_file_upload(&"hello.txt".to_string(), Some(&user), 0)
        .expect("minted");
    let (p1, _) = m1.get_upload_info();
    let (_, _, challenge) = m1.get_challenge_details().expect("details");
    let good = sign(&key, challenge);
    let responses = vec!["garbage".to_string(), good];
    let m2 = state.upgrade(&p1, &responses, 50).expect("second response accepted");
    assert!(m2.authenticated());
}

#[test]
fn checking_keyserver_sorts_keys_from_names() {
    let key = test_key(21);
    let line = key.public_key().to_openssh().expect("an OpenSSH line");
    let users = vec![line.clone(), "alice".to_string(), "bob".to_string()];
    let (keys, unresolved) = KeyManager::new_checking_keyserver(None, users);
    assert_eq!(unresolved, vec!["alice".to_string(), "bob".to_string()]);
    let challenge = "c".to_string();
    let good = sign(&key, &challenge);
    assert!(keys.verify(&line, &challenge, &good));
    assert!(!keys.verify(&"alice".to_string(), &challenge, &good));
}
