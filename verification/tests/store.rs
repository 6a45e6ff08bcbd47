use fastcrypto_zkp::bn254::zk_login::{JwkId, JWK};
use zklogin_verifier::jwk::{Jwk, KeyId};
use zklogin_verifier::store::{AppState, JwkStore};

fn id(iss: &str, kid: &str) -> KeyId {
    KeyId::new(iss.to_string(), kid.to_string())
}

fn key(n: &str) -> Jwk {
    Jwk { kty: "RSA".to_string(), e: "AQAB".to_string(), n: n.to_string(), alg: "RS256".to_string() }
}

#[test]
fn a_new_store_is_empty() {
    let store = JwkStore::new();
    assert_eq!(store.len(), 0);
    assert!(!store.contains_key(&id("https://accounts.google.com", "1")));
    assert!(store.get(&id("https://accounts.google.com", "1")).is_none());
    assert_eq!(AppState::new().jwks.len(), 0);
}

#[test]
fn the_first_key_under_a_name_stays() {
    let mut store = JwkStore::new();
    assert!(store.upsert_if_absent(id("https://id.twitch.tv/oauth2", "1"), key("first")));
    assert!(!store.upsert_if_absent(id("https://id.twitch.tv/oauth2", "1"), key("second")));
    assert_eq!(store.len(), 1);
    assert_eq!(store.get(&id("https://id.twitch.tv/oauth2", "1")), Some(&key("first")));
    assert_eq!(store.read_snapshot().get(&id("https://id.twitch.tv/oauth2", "1")), Some(&key("first")));
}

#[test]
fn names_differ_by_issuer_and_by_key_id() {
    let mut store = JwkStore::new();
    assert!(store.upsert_if_absent(id("a", "1"), key("a1")));
    assert!(store.upsert_if_absent(id("a", "2"), key("a2")));
    assert!(store.upsert_if_absent(id("b", "1"), key("b1")));
    assert_eq!(store.len(), 3);
    assert_eq!(store.get(&id("a", "1")), Some(&key("a1")));
    assert_eq!(store.get(&id("a", "2")), Some(&key("a2")));
    assert_eq!(store.get(&id("b", "1")), Some(&key("b1")));
    assert!(store.get(&id("b", "2")).is_none());
    assert!(store.contains_key(&id("b", "1")));
    assert!(!store.contains_key(&id("", "1")));
}

#[test]
fn absorbing_takes_new_names_only_and_counts_them() {
    let mut store = JwkStore::new();
    store.upsert_if_absent(id("a", "1"), key("old"));
    let offered = vec![
        (id("a", "1"), key("rotated")),
        (id("a", "2"), key("new")),
        (id("a", "2"), key("newer")),
        (id("b", "1"), key("other")),
    ];
    assert_eq!(store.absorb(&offered), 2);
    assert_eq!(store.len(), 3);
    assert_eq!(store.get(&id("a", "1")), Some(&key("old")));
    assert_eq!(store.get(&id("a", "2")), Some(&key("new")));
    assert_eq!(store.get(&id("b", "1")), Some(&key("other")));
    assert_eq!(store.absorb(&Vec::new()), 0);
    assert_eq!(store.len(), 3);
}

#[test]
fn a_snapshot_does_not_follow_the_store() {
    let mut store = JwkStore::new();
    store.upsert_if_absent(id("a", "1"), key("one"));
    let snapshot = store.read_snapshot();
    store.upsert_if_absent(id("a", "2"), key("two"));
    assert_eq!(snapshot.len(), 1);
    assert_eq!(snapshot.get(&id("a", "1")), Some(&key("one")));
    assert!(!snapshot.contains_key(&id("a", "2")));
    assert_eq!(store.len(), 2);
}

#[test]
fn the_key_set_holds_what_the_store_holds() {
    let mut store = JwkStore::new();
    assert_eq!(store.key_set().len(), 0);
    store.upsert_if_absent(id("https://id.twitch.tv/oauth2", "1"), key("one"));
    store.upsert_if_absent(id("https://accounts.google.com", "7"), key("seven"));
    store.upsert_if_absent(id("https://id.twitch.tv/oauth2", "1"), key("late"));
    let keys = store.key_set();
    assert_eq!(keys.len(), 2);
    let twitch = JwkId { iss: "https://id.twitch.tv/oauth2".to_string(), kid: "1".to_string() };
    let google = JwkId { iss: "https://accounts.google.com".to_string(), kid: "7".to_string() };
    let absent = JwkId { iss: "https://accounts.google.com".to_string(), kid: "1".to_string() };
    assert_eq!(
        keys.get(&twitch),
        Some(&JWK {
            kty: "RSA".to_string(),
            e: "AQAB".to_string(),
            n: "one".to_string(),
            alg: "RS256".to_string()
        })
    );
    assert_eq!(keys.get(&google).map(|jwk| jwk.n.clone()), Some("seven".to_string()));
    assert!(keys.get(&absent).is_none());
}

#[test]
fn an_issuer_goes_into_the_key_set_as_it_is() {
    let mut store = JwkStore::new();
    let issuer = "https://login.microsoftonline.com/some-tenant/v2.0";
    store.upsert_if_absent(id(issuer, "k"), key("m"));
    let keys = store.key_set();
    let as_given = JwkId { iss: issuer.to_string(), kid: "k".to_string() };
    assert!(keys.contains_key(&as_given));
    assert_eq!(keys.len(), 1);
}

#[test]
fn key_ids_compare_field_by_field() {
    assert!(id("a", "1").same_as(&id("a", "1")));
    assert!(!id("a", "1").same_as(&id("a", "2")));
    assert!(!id("a", "1").same_as(&id("b", "1")));
    assert_eq!(id("a", "1").clone(), id("a", "1"));
    assert_eq!(key("n").clone(), key("n"));
}
