//! The signing keys of identity providers and the names they go by.

use vstd::prelude::*;

verus! {

/// The name of a signing key: who issued it, and the key id that the issuer
/// gave it.
#[derive(Debug, PartialEq, Eq)]
pub struct KeyId {
    /// The issuer, as it stands in the `iss` claim of a token.
    pub iss: String,
    /// The key id, as it stands in the `kid` field of a token's header.
    pub kid: String,
}

/// What a `KeyId` is in contracts.
pub struct KeyIdView {
    pub iss: Seq<char>,
    pub kid: Seq<char>,
}

impl View for KeyId {
    type V = KeyIdView;

    open spec fn view(&self) -> KeyIdView {
        KeyIdView { iss: self.iss@, kid: self.kid@ }
    }
}

impl Clone for KeyId {
    fn clone(&self) -> (copy: KeyId)
        ensures
            copy@ == self@,
    {
        KeyId { iss: self.iss.clone(), kid: self.kid.clone() }
    }
}

impl KeyId {
    /// A name made of an issuer and a key id, both taken as they are.
    pub fn new(iss: String, kid: String) -> (id: KeyId)
        ensures
            id@ == (KeyIdView { iss: iss@, kid: kid@ }),
    {
        KeyId { iss, kid }
    }

    /// Whether two names are the same name.
    pub fn same_as(&self, other: &KeyId) -> (same: bool)
        ensures
            same == (self@ == other@),
    {
        self.iss == other.iss && self.kid == other.kid
    }
}

/// The public key material of one signing key.
#[derive(Debug, PartialEq, Eq)]
pub struct Jwk {
    /// Key type.
    pub kty: String,
    /// RSA public exponent.
    pub e: String,
    /// RSA modulus.
    pub n: String,
    /// Algorithm.
    pub alg: String,
}

/// What a `Jwk` is in contracts.
pub struct JwkView {
    pub kty: Seq<char>,
    pub e: Seq<char>,
    pub n: Seq<char>,
    pub alg: Seq<char>,
}

impl View for Jwk {
    type V = JwkView;

    open spec fn view(&self) -> JwkView {
        JwkView { kty: self.kty@, e: self.e@, n: self.n@, alg: self.alg@ }
    }
}

impl Clone for Jwk {
    fn clone(&self) -> (copy: Jwk)
        ensures
            copy@ == self@,
    {
        Jwk {
            kty: self.kty.clone(),
            e: self.e.clone(),
            n: self.n.clone(),
            alg: self.alg.clone(),
        }
    }
}

/// Keys by their names: what a set of keys is in contracts.
pub type KeyMap = Map<KeyIdView, JwkView>;

} // verus!
