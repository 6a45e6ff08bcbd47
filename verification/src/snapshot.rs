//! Key sets in the form that the proof verifier reads them in: a persistent
//! hash map from key names to keys.

use vstd::prelude::*;
use fastcrypto_zkp::bn254::zk_login::{JwkId, JWK};
use im::hashmap::HashMap as ImHashMap;
use crate::jwk::{Jwk, KeyId, KeyMap};

verus! {

/// `im::hashmap::HashMap`, taken as it is.
#[verifier::external_type_specification]
#[verifier::external_body]
#[verifier::reject_recursive_types(K)]
#[verifier::reject_recursive_types(V)]
#[verifier::reject_recursive_types(S)]
pub struct ExImHashMap<K, V, S>(im::hashmap::HashMap<K, V, S>);

/// The verifier's own form of a key name, taken as it is.
#[verifier::external_type_specification]
#[verifier::external_body]
pub struct ExJwkId(fastcrypto_zkp::bn254::zk_login::JwkId);

/// The verifier's own form of a key, taken as it is.
#[verifier::external_type_specification]
#[verifier::external_body]
pub struct ExJWK(fastcrypto_zkp::bn254::zk_login::JWK);

/// The key that each name stands for in a verifier's key set.
pub uninterp spec fn key_set_contents(keys: ImHashMap<JwkId, JWK>) -> KeyMap;

/// `im::hashmap::HashMap::new`: a key set that holds nothing.
#[verifier::external_body]
pub(crate) fn key_set_new() -> (fresh: ImHashMap<JwkId, JWK>)
    ensures
        key_set_contents(fresh) == KeyMap::empty(),
{
    ImHashMap::new()
}

/// `im::hashmap::HashMap::insert`: the name stands for the given key from now
/// on, whether or not it stood for one before, and no other name is touched.
/// The name and the key go in field by field, the issuer as it is written:
/// two names are the same to the key set where both fields are the same.
#[verifier::external_body]
pub(crate) fn key_set_insert(keys: &mut ImHashMap<JwkId, JWK>, id: &KeyId, jwk: &Jwk)
    ensures
        key_set_contents(*final(keys)) == key_set_contents(*old(keys)).insert(id@, jwk@),
{
    keys.insert(
        JwkId { iss: id.iss.clone(), kid: id.kid.clone() },
        JWK { kty: jwk.kty.clone(), e: jwk.e.clone(), n: jwk.n.clone(), alg: jwk.alg.clone() },
    );
}

} // verus!
