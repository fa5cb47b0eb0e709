//! The authenticator: token derivation against a known vector, acceptance
//! of the honest answer, and rejection of tampered or foreign tokens.
use bore_tunnel::auth::{ct_bytes_eq, Authenticator};
use bore_tunnel::hexid::uuid_to_ascii;
use bore_tunnel::msg::{ClientMessage, Error};

const NONCE: u128 = 0x00112233_4455_6677_8899_aabbccddeeff;

#[test]
fn canonical_identifier_text() {
    assert_eq!(
        uuid_to_ascii(NONCE),
        b"00112233-4455-6677-8899-aabbccddeeff".to_vec()
    );
    assert_eq!(
        uuid_to_ascii(0),
        b"00000000-0000-0000-0000-000000000000".to_vec()
    );
    assert_eq!(
        uuid_to_ascii(u128::MAX),
        b"ffffffff-ffff-ffff-ffff-ffffffffffff".to_vec()
    );
}

#[test]
fn token_matches_known_vector() {
    // HMAC-SHA256(SHA-256("s3cret"), "00112233-4455-6677-8899-aabbccddeeff"),
    // rendered lowercase hex.
    let auth = Authenticator::new(b"s3cret");
    let token = auth.answer(NONCE);
    assert_eq!(
        token,
        b"e88ec6537dc6dc262ab4d476507ea058381d3cb426142227d033d867c0f02b31".to_vec()
    );
}

#[test]
fn honest_answer_is_accepted() {
    let server = Authenticator::new(b"s3cret");
    let client = Authenticator::new(b"s3cret");
    let token = client.answer(NONCE);
    assert!(server.validate(NONCE, token.as_slice()));
    let reply = ClientMessage::Authenticate(token);
    assert!(matches!(
        server.check_challenge_reply(NONCE, Some(&reply)),
        Ok(())
    ));
}

#[test]
fn tampered_token_is_rejected() {
    let server = Authenticator::new(b"s3cret");
    let mut token = server.answer(NONCE);
    // Flip one bit of one digit.
    token[10] ^= 0x01;
    assert!(!server.validate(NONCE, token.as_slice()));
    let reply = ClientMessage::Authenticate(token);
    assert!(matches!(
        server.check_challenge_reply(NONCE, Some(&reply)),
        Err(Error::AuthFailed)
    ));
}

#[test]
fn wrong_secret_is_rejected() {
    let server = Authenticator::new(b"s3cret");
    let client = Authenticator::new(b"wrong");
    let token = client.answer(NONCE);
    assert!(matches!(
        server.check_challenge_reply(NONCE, Some(&ClientMessage::Authenticate(token))),
        Err(Error::AuthFailed)
    ));
}

#[test]
fn non_authenticate_reply_is_out_of_place() {
    let server = Authenticator::new(b"s3cret");
    assert!(matches!(
        server.check_challenge_reply(NONCE, Some(&ClientMessage::Hello(0))),
        Err(Error::UnexpectedMessage)
    ));
    assert!(matches!(
        server.check_challenge_reply(NONCE, None),
        Err(Error::UnexpectedMessage)
    ));
}

#[test]
fn same_nonce_different_secrets_differ() {
    let a = Authenticator::new(b"alpha");
    let b = Authenticator::new(b"beta");
    assert_ne!(a.answer(NONCE), b.answer(NONCE));
}

#[test]
fn byte_comparison_is_exact() {
    assert!(ct_bytes_eq(b"abc", b"abc"));
    assert!(!ct_bytes_eq(b"abc", b"abd"));
    assert!(!ct_bytes_eq(b"abc", b"abcd"));
    assert!(ct_bytes_eq(b"", b""));
}
