//! The challenge/response authenticator: the key is the SHA-256 digest of
//! the shared secret, a challenge is a fresh 128-bit nonce, and the answer
//! is the HMAC-SHA256 of the nonce's canonical text under that key,
//! rendered as lowercase hex. The comparison does not shortcut on the
//! first differing byte.
use vstd::prelude::*;

use crate::hexid::{hex_of, uuid_ascii, uuid_to_ascii};
use crate::msg::{ClientMessage, ClientMsgView, Error};
use hmac::Mac;
use sha2::Digest;

verus! {

/// The SHA-256 digest of a byte string, as the `sha2` crate computes it.
pub uninterp spec fn sha256_of(data: Seq<u8>) -> Seq<u8>;

/// The HMAC-SHA256 of a message under a key, as the `hmac` crate computes
/// it.
pub uninterp spec fn hmac_sha256_of(key: Seq<u8>, msg: Seq<u8>) -> Seq<u8>;

/// Relies on sha2::Sha256::digest: a 32-byte digest of the input alone.
#[verifier::external_body]
fn sha256(data: &[u8]) -> (r: Vec<u8>)
    ensures
        r@ == sha256_of(data@),
        r@.len() == 32,
{
    sha2::Sha256::digest(data).to_vec()
}

/// Relies on hmac::Hmac over sha2::Sha256: a 32-byte tag of the key and
/// message alone. `new_from_slice` accepts keys of any length for HMAC.
#[verifier::external_body]
fn hmac_sha256(key: &[u8], msg: &[u8]) -> (r: Vec<u8>)
    ensures
        r@ == hmac_sha256_of(key@, msg@),
        r@.len() == 32,
{
    let mut mac = <hmac::Hmac<sha2::Sha256> as hmac::KeyInit>::new_from_slice(key)
        .expect("HMAC accepts keys of any length");
    mac.update(msg);
    mac.finalize().into_bytes().to_vec()
}

/// Relies on uuid::Uuid::new_v4: a fresh random identifier. Nothing is
/// promised of its value.
#[verifier::external_body]
pub fn fresh_id() -> (r: u128) {
    uuid::Uuid::new_v4().as_u128()
}

/// Compare two byte strings without shortcutting on the first differing
/// byte: every byte is folded into the verdict.
pub fn ct_bytes_eq(a: &[u8], b: &[u8]) -> (r: bool)
    ensures
        r == (a@ == b@),
{
    if a.len() != b.len() {
        proof {
            assert(a@ != b@);
        }
        return false;
    }
    let mut diff: u8 = 0;
    let mut i: usize = 0;
    proof {
        assert(a@.take(0) =~= b@.take(0));
    }
    while i < a.len()
        invariant
            i <= a@.len(),
            a@.len() == b@.len(),
            (diff == 0) <==> a@.take(i as int) == b@.take(i as int),
        decreases a@.len() - i,
    {
        let x = a[i] ^ b[i];
        let newdiff = diff | x;
        proof {
            let ai = a@[i as int];
            let bi = b@[i as int];
            assert(((ai ^ bi) == 0) <==> ai == bi) by (bit_vector);
            assert(((diff | (ai ^ bi)) == 0) <==> (diff == 0 && (ai ^ bi) == 0)) by (bit_vector);
            if diff == 0 && ai == bi {
                assert(a@.take(i + 1) =~= b@.take(i + 1));
            }
            if a@.take(i + 1) == b@.take(i + 1) {
                assert(a@.take(i as int) =~= a@.take(i + 1).take(i as int));
                assert(b@.take(i as int) =~= b@.take(i + 1).take(i as int));
                assert(a@.take(i + 1)[i as int] == ai && b@.take(i + 1)[i as int] == bi);
            }
        }
        diff = newdiff;
        i = i + 1;
    }
    proof {
        assert(a@.take(a@.len() as int) =~= a@);
        assert(b@.take(b@.len() as int) =~= b@);
    }
    diff == 0
}

/// The token a holder of this key must present for a nonce: the keyed hash
/// of the nonce's canonical text, in lowercase hex.
pub open spec fn expected_token(key: Seq<u8>, nonce: u128) -> Seq<u8> {
    hex_of(hmac_sha256_of(key, uuid_ascii(nonce)))
}

/// Stateless challenge/response authenticator for a shared secret.
pub struct Authenticator {
    key: Vec<u8>,
}

impl Authenticator {
    /// The derived key: the SHA-256 digest of the secret.
    pub closed spec fn key_view(&self) -> Seq<u8> {
        self.key@
    }

    /// Derive the key from the shared secret.
    pub fn new(secret: &[u8]) -> (r: Authenticator)
        ensures
            r.key_view() == sha256_of(secret@),
    {
        Authenticator { key: sha256(secret) }
    }

    /// The token that answers a challenge carrying this nonce.
    pub fn answer(&self, nonce: u128) -> (t: Vec<u8>)
        ensures
            t@ == expected_token(self.key_view(), nonce),
    {
        let text = uuid_to_ascii(nonce);
        let tag = hmac_sha256(self.key.as_slice(), text.as_slice());
        crate::hexid::hex_bytes(tag.as_slice())
    }

    /// Whether a presented token answers the challenge: true exactly when
    /// it is the expected token for this key and nonce.
    pub fn validate(&self, nonce: u128, token: &[u8]) -> (ok: bool)
        ensures
            ok == (token@ == expected_token(self.key_view(), nonce)),
    {
        let expected = self.answer(nonce);
        ct_bytes_eq(token, expected.as_slice())
    }

    /// Judge the message that answers a server challenge: the token of an
    /// `Authenticate` is accepted exactly when it is the expected token;
    /// a wrong token fails the handshake, and anything but an
    /// `Authenticate` is out of place.
    pub fn check_challenge_reply(&self, nonce: u128, reply: Option<&ClientMessage>) -> (r: Result<
        (),
        Error,
    >)
        ensures
            match reply {
                Some(m) => match m@ {
                    ClientMsgView::Authenticate(t) => if t == expected_token(
                        self.key_view(),
                        nonce,
                    ) {
                        r == Ok::<(), Error>(())
                    } else {
                        r == Err::<(), Error>(Error::AuthFailed)
                    },
                    _ => r == Err::<(), Error>(Error::UnexpectedMessage),
                },
                None => r == Err::<(), Error>(Error::UnexpectedMessage),
            },
    {
        match reply {
            Some(ClientMessage::Authenticate(token)) => {
                if self.validate(nonce, token.as_slice()) {
                    Ok(())
                } else {
                    Err(Error::AuthFailed)
                }
            },
            Some(_) => Err(Error::UnexpectedMessage),
            None => Err(Error::UnexpectedMessage),
        }
    }
}

/// Whether the server-side check of a challenge reply admits this token:
/// the condition under which `validate` answers true and
/// `check_challenge_reply` returns success for an `Authenticate`.
pub open spec fn accepts(key: Seq<u8>, nonce: u128, token: Seq<u8>) -> bool {
    token == expected_token(key, nonce)
}

/// Auth soundness: with a shared secret, the server accepts exactly the
/// tokens equal to the keyed hash of the nonce's canonical text under the
/// key derived from that secret. The answer an honest holder of the same
/// secret computes is accepted, and a token that differs from it anywhere
/// is rejected.
pub proof fn lemma_auth_soundness(secret: Seq<u8>, nonce: u128, token: Seq<u8>)
    ensures
        accepts(sha256_of(secret), nonce, token) <==> token == hex_of(
            hmac_sha256_of(sha256_of(secret), uuid_ascii(nonce)),
        ),
        accepts(sha256_of(secret), nonce, expected_token(sha256_of(secret), nonce)),
        token != expected_token(sha256_of(secret), nonce) ==> !accepts(
            sha256_of(secret),
            nonce,
            token,
        ),
{
}

} // verus!
