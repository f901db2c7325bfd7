use base64::engine::general_purpose::URL_SAFE_NO_PAD;
use base64::Engine;
use drago::keys::{is_ed25519_key, AuthState, JwkKey, UnreadableKeySet};
use ed25519_dalek::SigningKey;

fn public_key(seed: u8) -> [u8; 32] {
    SigningKey::from_bytes(&[seed; 32]).verifying_key().to_bytes()
}

fn ed25519_jwk(kid: &str, x: &str) -> JwkKey {
    JwkKey { key_type: "OKP".to_string(), curve: Some("Ed25519".to_string()), x: x.to_string(), kid: kid.to_string() }
}

#[test]
fn new_cache_is_empty_and_knows_where_keys_are_published() {
    let state = AuthState::new("https://auth.example.com");
    assert_eq!(state.len(), 0);
    assert_eq!(state.jwks_url(), "https://auth.example.com/api/auth/jwks");
    assert!(state.get_key("k1").is_none());
}

#[test]
fn merge_caches_ed25519_keys_under_their_key_id() {
    let mut state = AuthState::new("http://issuer.test");
    let keys = vec![
        ed25519_jwk("k1", &URL_SAFE_NO_PAD.encode(public_key(1))),
        ed25519_jwk("k2", &URL_SAFE_NO_PAD.encode(public_key(2))),
    ];
    assert!(state.merge_keys(&keys).is_ok());
    assert_eq!(state.len(), 2);
    assert_eq!(state.get_key("k1").unwrap(), &public_key(1).to_vec());
    assert_eq!(state.get_key("k2").unwrap(), &public_key(2).to_vec());
    assert!(state.get_key("k3").is_none());
}

#[test]
fn merge_never_replaces_a_cached_key() {
    let mut state = AuthState::new("http://issuer.test");
    state.merge_keys(&vec![ed25519_jwk("k1", &URL_SAFE_NO_PAD.encode(public_key(1)))]).unwrap();
    let again = vec![
        ed25519_jwk("k1", &URL_SAFE_NO_PAD.encode(public_key(9))),
        ed25519_jwk("k2", &URL_SAFE_NO_PAD.encode(public_key(2))),
    ];
    state.merge_keys(&again).unwrap();
    assert_eq!(state.len(), 2);
    assert_eq!(state.get_key("k1").unwrap(), &public_key(1).to_vec());
    assert_eq!(state.get_key("k2").unwrap(), &public_key(2).to_vec());
}

#[test]
fn merge_skips_keys_of_other_kinds() {
    let mut state = AuthState::new("http://issuer.test");
    let x = URL_SAFE_NO_PAD.encode(public_key(1));
    let keys = vec![
        JwkKey { key_type: "RSA".to_string(), curve: Some("Ed25519".to_string()), x: x.clone(), kid: "rsa".to_string() },
        JwkKey { key_type: "OKP".to_string(), curve: Some("X25519".to_string()), x: x.clone(), kid: "x".to_string() },
        JwkKey { key_type: "OKP".to_string(), curve: None, x: x.clone(), kid: "none".to_string() },
        JwkKey { key_type: "EC".to_string(), curve: Some("P-256".to_string()), x: "***".to_string(), kid: "ec".to_string() },
        ed25519_jwk("short", &URL_SAFE_NO_PAD.encode([1u8; 31])),
        ed25519_jwk("long", &URL_SAFE_NO_PAD.encode([1u8; 33])),
        ed25519_jwk("good", &x),
    ];
    assert!(state.merge_keys(&keys).is_ok());
    assert_eq!(state.len(), 1);
    assert!(state.get_key("good").is_some());
    assert!(state.get_key("rsa").is_none());
    assert!(state.get_key("short").is_none());
}

#[test]
fn merge_skips_bytes_that_are_no_point_of_the_curve() {
    let mut state = AuthState::new("http://issuer.test");
    let mut found = false;
    for first in 0u8..=255 {
        let mut candidate = [0u8; 32];
        candidate[0] = first;
        candidate[31] = 0x12;
        if ed25519_dalek::VerifyingKey::from_bytes(&candidate).is_err() {
            let keys = vec![ed25519_jwk("off-curve", &URL_SAFE_NO_PAD.encode(candidate))];
            assert!(state.merge_keys(&keys).is_ok());
            assert!(state.get_key("off-curve").is_none());
            found = true;
            break;
        }
    }
    assert!(found);
}

#[test]
fn merge_stops_at_an_undecodable_ed25519_key() {
    let mut state = AuthState::new("http://issuer.test");
    let keys = vec![
        ed25519_jwk("k1", &URL_SAFE_NO_PAD.encode(public_key(1))),
        ed25519_jwk("bad", "not base64url!"),
        ed25519_jwk("k3", &URL_SAFE_NO_PAD.encode(public_key(3))),
    ];
    assert_eq!(state.merge_keys(&keys).unwrap_err(), UnreadableKeySet);
    assert_eq!(state.len(), 1);
    assert!(state.get_key("k1").is_some());
    assert!(state.get_key("k3").is_none());
}

#[test]
fn merge_refuses_padded_coordinates() {
    let mut state = AuthState::new("http://issuer.test");
    let padded = format!("{}=", URL_SAFE_NO_PAD.encode(public_key(1)));
    assert_eq!(state.merge_keys(&vec![ed25519_jwk("k1", &padded)]).unwrap_err(), UnreadableKeySet);
    assert_eq!(state.len(), 0);
}

#[test]
fn ed25519_keys_are_told_by_type_and_curve() {
    assert!(is_ed25519_key(&ed25519_jwk("k", "x")));
    let mut other = ed25519_jwk("k", "x");
    other.key_type = "okp".to_string();
    assert!(!is_ed25519_key(&other));
    let mut other = ed25519_jwk("k", "x");
    other.curve = Some("Ed448".to_string());
    assert!(!is_ed25519_key(&other));
    let mut other = ed25519_jwk("k", "x");
    other.curve = None;
    assert!(!is_ed25519_key(&other));
}
