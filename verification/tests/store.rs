use openconnect_core::crypto::{PassEncryptor, PassEncryptorError};
use openconnect_core::storage::{
    OidcServer, PasswordServer, SharableServer, StoredConfigError, StoredConfigs,
    StoredConfigsJson, StoredServer,
};

fn password_profile(name: &str, password: Option<String>) -> StoredServer {
    StoredServer::Password(PasswordServer {
        name: name.to_string(),
        server: "vpn.example.com".to_string(),
        username: "alice".to_string(),
        password,
        allow_insecure: Some(false),
        updated_at: None,
    })
}

fn oidc_profile(name: &str) -> StoredServer {
    StoredServer::Oidc(OidcServer {
        name: name.to_string(),
        server: "https://example.com".to_string(),
        issuer: "https://example.com".to_string(),
        client_id: "client_id".to_string(),
        client_secret: Some("client_secret".to_string()),
        allow_insecure: Some(true),
        updated_at: None,
    })
}

#[test]
fn test_pass_enc() {
    let encryptor = PassEncryptor::default();
    let password = "password";
    let encrypted = encryptor.encrypt(password).unwrap();
    let decrypted = encryptor.decrypt(&encrypted).unwrap();
    assert_eq!(password, decrypted);
}

#[test]
fn encrypt_twice_differs() {
    let encryptor = PassEncryptor::default();
    let a = encryptor.encrypt("secret").unwrap();
    let b = encryptor.encrypt("secret").unwrap();
    assert_ne!(a, b);
    assert_eq!(encryptor.decrypt(&a).unwrap(), "secret");
    assert_eq!(encryptor.decrypt(&b).unwrap(), "secret");
}

#[test]
fn decrypt_rejects_bad_payloads() {
    let encryptor = PassEncryptor::default();
    // Not hex at all.
    assert!(matches!(
        encryptor.decrypt("zz not hex"),
        Err(PassEncryptorError::CipherError(_))
    ));
    // Valid hex but shorter than one nonce.
    assert!(matches!(
        encryptor.decrypt("00ff00ff"),
        Err(PassEncryptorError::CipherError(_))
    ));
    // Tampered ciphertext: flip one hex digit.
    let good = encryptor.encrypt("secret").unwrap();
    let mut tampered: Vec<char> = good.chars().collect();
    let last = *tampered.last().unwrap();
    let flipped = if last == '0' { '1' } else { '0' };
    let n = tampered.len();
    tampered[n - 1] = flipped;
    let tampered: String = tampered.into_iter().collect();
    assert!(matches!(
        encryptor.decrypt(&tampered),
        Err(PassEncryptorError::CipherError(_))
    ));
}

#[test]
fn decrypt_with_other_key_fails() {
    let a = PassEncryptor::new(Some("first key".to_string()));
    let b = PassEncryptor::new(Some("second key".to_string()));
    let encrypted = a.encrypt("secret").unwrap();
    assert!(b.decrypt(&encrypted).is_err());
    assert_eq!(a.decrypt(&encrypted).unwrap(), "secret");
}

#[test]
fn duplicate_names_are_refused() {
    let json = StoredConfigsJson {
        default: None,
        servers: vec![password_profile("corp", None), oidc_profile("corp")],
    };
    assert!(matches!(
        StoredConfigs::from_json(json),
        Err(StoredConfigError::ParseError(_))
    ));
}

#[test]
fn unique_names_are_kept_whole() {
    let json = StoredConfigsJson {
        default: Some("corp".to_string()),
        servers: vec![password_profile("corp", None), oidc_profile("lab")],
    };
    let store = StoredConfigs::from_json(json).unwrap();
    assert_eq!(store.servers.len(), 2);
    assert!(store.get_server("corp").is_some());
    assert!(store.get_server("lab").is_some());
    assert!(store.get_server("absent").is_none());
    assert!(store.default_server().is_some());
}

#[test]
fn removing_the_default_is_refused() {
    let json = StoredConfigsJson {
        default: Some("corp".to_string()),
        servers: vec![password_profile("corp", None), oidc_profile("lab")],
    };
    let mut store = StoredConfigs::from_json(json).unwrap();
    let result = store.remove_server("corp");
    assert!(matches!(result, Err(StoredConfigError::BadInput(_))));
    // The store is unchanged.
    assert_eq!(store.servers.len(), 2);
    assert!(store.get_server("corp").is_some());
    assert_eq!(store.default.as_deref(), Some("corp"));
}

#[test]
fn removing_another_profile_works() {
    let json = StoredConfigsJson {
        default: Some("corp".to_string()),
        servers: vec![password_profile("corp", None), oidc_profile("lab")],
    };
    let mut store = StoredConfigs::from_json(json).unwrap();
    store.remove_server("lab").unwrap();
    assert_eq!(store.servers.len(), 1);
    assert!(store.get_server("lab").is_none());
    // Removing an absent profile is a quiet no-op.
    store.remove_server("ghost").unwrap();
    assert_eq!(store.servers.len(), 1);
}

#[test]
fn set_default_requires_a_known_name() {
    let mut store = StoredConfigs::new(None);
    assert!(matches!(
        store.set_default_server("corp"),
        Err(StoredConfigError::ParseError(_))
    ));
    store.upsert_server(password_profile("corp", None));
    store.set_default_server("corp").unwrap();
    assert_eq!(store.default.as_deref(), Some("corp"));
}

#[test]
fn upsert_stamps_and_encrypts() {
    let mut store = StoredConfigs::new(Some("unit test key".to_string()));
    store.upsert_server(password_profile("corp", Some("hunter2".to_string())));
    assert_eq!(store.servers.len(), 1);
    let stored = match store.get_server_as_password_server("corp") {
        Ok(p) => p,
        Err(_) => panic!("profile must be stored"),
    };
    assert!(stored.updated_at.is_some());
    let at_rest = stored.password.clone().unwrap();
    // What rests in the store is not the plain password, but decrypts to it.
    assert_ne!(at_rest, "hunter2");
    assert_eq!(store.cipher.decrypt(&at_rest).unwrap(), "hunter2");
    let decrypted = stored.decrypted_by(&store.cipher);
    assert_eq!(decrypted.password.as_deref(), Some("hunter2"));

    // Upserting the same name replaces, never duplicates.
    store.upsert_server(password_profile("corp", Some("new pass".to_string())));
    assert_eq!(store.servers.len(), 1);
    let stored = store.get_server_as_password_server("corp").unwrap();
    let decrypted = stored.decrypted_by(&store.cipher);
    assert_eq!(decrypted.password.as_deref(), Some("new pass"));
}

#[test]
fn typed_getters_check_the_variant() {
    let mut store = StoredConfigs::new(None);
    store.upsert_server(oidc_profile("sso"));
    assert!(store.get_server_as_oidc_server("sso").is_ok());
    assert!(matches!(
        store.get_server_as_password_server("sso"),
        Err(StoredConfigError::ParseError(_))
    ));
    assert!(matches!(
        store.get_server_as_oidc_server("missing"),
        Err(StoredConfigError::ParseError(_))
    ));
}

#[test]
fn sharable_round_trip_drops_secrets() {
    let shared = SharableServer::from_stored(&password_profile(
        "corp",
        Some("hunter2".to_string()),
    ));
    match &shared {
        SharableServer::Password { server, allow_insecure } => {
            assert_eq!(server, "vpn.example.com");
            assert_eq!(*allow_insecure, Some(false));
        },
        _ => panic!("password profile must share as a password profile"),
    }
    let imported = shared.into_stored(
        "imported".to_string(),
        Some("bob".to_string()),
        Some("pw".to_string()),
    );
    match imported {
        StoredServer::Password(p) => {
            assert_eq!(p.name, "imported");
            assert_eq!(p.server, "vpn.example.com");
            assert_eq!(p.username, "bob");
            assert_eq!(p.password.as_deref(), Some("pw"));
            assert!(p.updated_at.is_none());
        },
        _ => panic!("imported profile must stay a password profile"),
    }
}

#[test]
fn to_json_reflects_the_store() {
    let json = StoredConfigsJson {
        default: Some("corp".to_string()),
        servers: vec![password_profile("corp", None)],
    };
    let store = StoredConfigs::from_json(json).unwrap();
    let out = store.to_json();
    assert_eq!(out.default.as_deref(), Some("corp"));
    assert_eq!(out.servers.len(), 1);
    // The document written out loads back into an equal store.
    let reloaded = StoredConfigs::from_json(out).unwrap();
    assert_eq!(reloaded.default.as_deref(), Some("corp"));
    assert_eq!(reloaded.servers.len(), 1);
    assert!(reloaded.get_server("corp").is_some());
}

#[test]
fn upsert_keeps_other_profiles_in_place() {
    let mut store = StoredConfigs::new(None);
    store.upsert_server(password_profile("corp", None));
    store.upsert_server(oidc_profile("lab"));
    store.upsert_server(password_profile("corp", Some("pw".to_string())));
    assert_eq!(store.servers.len(), 2);
    // The replaced profile keeps its position.
    assert_eq!(store.servers[0].name(), "corp");
    assert_eq!(store.servers[1].name(), "lab");
}
