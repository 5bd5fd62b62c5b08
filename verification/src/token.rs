//! Token issuing and verification, through the external signer.
//!
//! A token asserts a principal's email (the `sub` claim) and an expiry
//! timestamp (the `exp` claim), signed under a per-kind secret. One claim
//! set has many validly-signed token texts — any serialization of the
//! claims carries the same HMAC — so validity is modeled as a relation,
//! [`jwt_valid`], not as one canonical text: minting yields a valid text,
//! and verification accepts only valid texts. Secrets act through the key
//! HMAC derives from them, [`hmac_key_of`] — a secret zero-padded to the
//! block size derives the same key — so everything verification pins down
//! about the signer is pinned down up to that derived key.

use vstd::prelude::*;

use crate::schema::JWTClaims;

verus! {

/// The token text is a validly-signed carrier of exactly this subject and
/// expiry under this secret: a name for the external signature check,
/// determined by the token text, the secret and the claims alone. The
/// verifier's expiry-against-the-clock step is deliberately not part of
/// it.
pub uninterp spec fn jwt_valid(
    token: Seq<char>,
    secret: Seq<u8>,
    sub: Seq<char>,
    exp: usize,
) -> bool;

/// The working key HMAC derives from a secret — a secret no longer than
/// the block size is zero-padded, a longer one is hashed first — so
/// distinct secrets can derive the same key (one being the other with
/// zero bytes appended), and signatures can only tell secrets apart up to
/// it. A name for that derivation: a function of the secret alone.
pub uninterp spec fn hmac_key_of(secret: Seq<u8>) -> Seq<u8>;

/// The token carries exactly this email under this secret: it is validly
/// signed for this subject under the secret, and every secret it is valid
/// under derives the same HMAC key and carries the same subject. This is
/// the evidence a successful verification gives; with two secrets whose
/// derived keys differ, it can hold under at most one of them.
pub open spec fn token_authorizes(token: Seq<char>, secret: Seq<u8>, email: Seq<char>) -> bool {
    &&& exists|exp: usize| #[trigger] jwt_valid(token, secret, email, exp)
    &&& forall|sub2: Seq<char>, exp2: usize, s2: Seq<u8>|
        #[trigger] jwt_valid(token, s2, sub2, exp2) ==> hmac_key_of(s2) == hmac_key_of(secret)
            && sub2 == email
}

/// Relies on jsonwebtoken's `encode` with the default header (HS256): the
/// claims are serialized and signed with the secret, so the result is a
/// validly-signed carrier of them. For an HMAC secret the signer cannot
/// fail — the RustCrypto provider this library enables accepts any key
/// length, HMAC-SHA256 signing is total, and serializing a string-keyed
/// claim object cannot fail — so a token is always returned.
#[verifier::external_body]
pub fn jwt_encode(claims: &JWTClaims, secret: &[u8]) -> (r: Option<String>)
    ensures
        r is Some,
        r matches Some(t) ==> jwt_valid(t@, secret@, claims.sub@, claims.exp),
{
    let mut m = serde_json::Map::new();
    m.insert("sub".to_owned(), serde_json::Value::from(claims.sub.clone()));
    m.insert("exp".to_owned(), serde_json::Value::from(claims.exp as u64));
    jsonwebtoken::encode(
        &jsonwebtoken::Header::default(),
        &serde_json::Value::Object(m),
        &jsonwebtoken::EncodingKey::from_secret(secret),
    )
        .ok()
}

/// Relies on jsonwebtoken's `decode` with the default validation (HS256,
/// signature checked with the secret, expiry checked against the clock).
/// A token is accepted only if its HMAC signature verifies under this
/// very secret, so an accepted token is validly signed for the returned
/// claims under this secret; and since the signature is a function of the
/// derived HMAC key and the payload determines the claims, any secret the
/// token is valid under derives the same key and carries the same claims
/// — taking the HMAC to be collision-free across distinct derived keys.
/// Nothing is promised of when a token is accepted: an expired one is
/// rejected by the clock.
#[verifier::external_body]
pub fn jwt_decode(token: &str, secret: &[u8]) -> (r: Option<JWTClaims>)
    ensures
        r matches Some(c) ==> jwt_valid(token@, secret@, c.sub@, c.exp),
        r matches Some(c) ==> forall|sub2: Seq<char>, exp2: usize, s2: Seq<u8>|
            #[trigger] jwt_valid(token@, s2, sub2, exp2) ==> hmac_key_of(s2) == hmac_key_of(
                secret@,
            ) && sub2 == c.sub@ && exp2 == c.exp,
{
    let data = jsonwebtoken::decode::<serde_json::Value>(
        token,
        &jsonwebtoken::DecodingKey::from_secret(secret),
        &jsonwebtoken::Validation::default(),
    )
        .ok()?;
    let sub = data.claims.get("sub")?.as_str()?.to_owned();
    let exp = data.claims.get("exp")?.as_u64()?;
    Some(JWTClaims { sub, exp: exp as usize })
}

} // verus!
