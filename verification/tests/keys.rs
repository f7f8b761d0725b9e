use geph_launcher::rpc_key::{key_from_token, push_decimal, rpc_key_path, KeyStore};

#[test]
fn key_is_the_prefix_and_the_decimal_numeral() {
    assert_eq!(key_from_token(0), "geph-rpc-key-0");
    assert_eq!(key_from_token(7), "geph-rpc-key-7");
    assert_eq!(key_from_token(10), "geph-rpc-key-10");
    assert_eq!(key_from_token(1234567890), "geph-rpc-key-1234567890");
    assert_eq!(
        key_from_token(u128::MAX),
        "geph-rpc-key-340282366920938463463374607431768211455"
    );
    for n in [9u128, 99, 100, 101, 1 << 64, (1 << 127) + 12345] {
        assert_eq!(key_from_token(n), format!("geph-rpc-key-{}", n));
    }
}

#[test]
fn decimal_is_appended_to_what_is_there() {
    let mut s = "x=".to_string();
    push_decimal(&mut s, 4050);
    assert_eq!(s, "x=4050");
    push_decimal(&mut s, 0);
    assert_eq!(s, "x=40500");
}

#[test]
fn new_store_holds_no_key() {
    assert_eq!(KeyStore::new().get(), None);
}

#[test]
fn loaded_key_is_used_and_not_persisted_again() {
    let mut store = KeyStore::new();
    let out = store.ensure_with(Some("persisted-key".to_string()), 5);
    assert_eq!(out.key, "persisted-key");
    assert!(!out.persist);
    assert_eq!(store.get(), Some("persisted-key".to_string()));
    let mut store = KeyStore::new();
    let out = store.ensure(Some("persisted-key".to_string()));
    assert_eq!(out.key, "persisted-key");
    assert!(!out.persist);
}

#[test]
fn missing_key_is_generated_and_marked_for_persisting() {
    let mut store = KeyStore::new();
    let out = store.ensure_with(None, 42);
    assert_eq!(out.key, "geph-rpc-key-42");
    assert!(out.persist);
    assert_eq!(store.get(), Some("geph-rpc-key-42".to_string()));
}

#[test]
fn ensure_twice_gives_the_same_key() {
    let mut store = KeyStore::new();
    let first = store.ensure_with(None, 42);
    let second = store.ensure_with(None, 43);
    assert_eq!(second.key, first.key);
    assert!(!second.persist);
    let third = store.ensure_with(Some("from-disk".to_string()), 44);
    assert_eq!(third.key, first.key);
    assert!(!third.persist);

    let mut store = KeyStore::new();
    let first = store.ensure(None);
    let second = store.ensure(None);
    assert_eq!(first.key, second.key);
    assert!(first.persist);
    assert!(!second.persist);
}

#[test]
fn persisted_key_survives_into_the_next_store() {
    let mut first_run = KeyStore::new();
    let generated = first_run.ensure(None);
    assert!(generated.persist);
    let mut second_run = KeyStore::new();
    let loaded = second_run.ensure(Some(generated.key.clone()));
    assert_eq!(loaded.key, generated.key);
}

#[test]
fn keys_generated_without_a_persisted_one_differ() {
    let a = KeyStore::new().ensure(None);
    let b = KeyStore::new().ensure(None);
    assert!(a.key.starts_with("geph-rpc-key-"));
    assert!(b.key.starts_with("geph-rpc-key-"));
    assert!(a.key["geph-rpc-key-".len()..].parse::<u128>().is_ok());
    assert_ne!(a.key, b.key);
}

#[test]
fn key_file_is_in_the_credentials_directory() {
    match rpc_key_path() {
        Some(path) => {
            assert_eq!(path.file_name().unwrap().to_str(), Some("rpc_key"));
            let dir = path.parent().unwrap();
            assert_eq!(dir.file_name().unwrap().to_str(), Some("geph4-credentials"));
            assert_eq!(dir.parent().map(|p| p.to_path_buf()), dirs::config_dir());
        }
        None => assert!(dirs::config_dir().is_none()),
    }
}

#[test]
fn key_file_path_ends_with_the_file_name() {
    if let Some(path) = rpc_key_path() {
        let text = path.to_string_lossy().into_owned();
        assert!(text.ends_with("rpc_key"));
        assert_ne!(Some(path), dirs::config_dir());
    }
}

#[test]
fn key_file_lies_in_the_credentials_directory_of_the_given_directory() {
    use_dir_checks(std::path::PathBuf::from("conf"));
    assert_eq!(geph_launcher::rpc_key::rpc_key_in(None), None);
    assert_eq!(geph_launcher::rpc_key::credentials_dir_in(None), None);
    assert_eq!(
        rpc_key_path(),
        geph_launcher::rpc_key::rpc_key_in(dirs::config_dir())
    );
}

fn use_dir_checks(config: std::path::PathBuf) {
    let dir = geph_launcher::rpc_key::credentials_dir_in(Some(config.clone())).unwrap();
    assert_eq!(dir, config.join("geph4-credentials"));
    let path = geph_launcher::rpc_key::rpc_key_in(Some(config.clone())).unwrap();
    assert_eq!(path, config.join("geph4-credentials").join("rpc_key"));
    assert_eq!(path.parent(), Some(dir.as_path()));
}

#[test]
fn different_numbers_give_different_keys() {
    let numbers = [0u128, 1, 9, 10, 11, 100, 101, 110, 1 << 64, u128::MAX - 1, u128::MAX];
    for a in numbers {
        for b in numbers {
            assert_eq!(key_from_token(a) == key_from_token(b), a == b);
        }
    }
}
