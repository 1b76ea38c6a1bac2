use solana_tx_parser::utils::TransactionAccounts;

fn keys(names: &[&str]) -> Vec<String> {
    names.iter().map(|s| s.to_string()).collect()
}

#[test]
fn dynamic_index_resolves_positions_across_segments() {
    let statics = keys(&["a", "b"]);
    let writable = keys(&["c"]);
    let readonly = keys(&["d", "e"]);
    let index = TransactionAccounts::from_accounts(
        Some(statics.as_slice()),
        Some(writable.as_slice()),
        Some(readonly.as_slice()),
    );
    assert!(matches!(index, TransactionAccounts::Dynamic(_)));
    let expected = ["a", "b", "c", "d", "e"];
    for (position, key) in expected.iter().enumerate() {
        assert_eq!(index.get(position).map(|k| k.as_str()), Some(*key));
    }
    assert_eq!(index.get(5), None);
    assert_eq!(index.get(usize::MAX), None);
    assert_eq!(index.accounts_num(), 5);
}

#[test]
fn index_is_static_without_loaded_keys() {
    let statics = keys(&["a", "b"]);
    let none: Vec<String> = Vec::new();
    let absent = TransactionAccounts::from_accounts(Some(statics.as_slice()), None, None);
    assert!(matches!(absent, TransactionAccounts::Static(Some(_))));
    let empty = TransactionAccounts::from_accounts(
        Some(statics.as_slice()),
        Some(none.as_slice()),
        Some(none.as_slice()),
    );
    assert!(matches!(empty, TransactionAccounts::Static(Some(_))));
    let mixed = TransactionAccounts::from_accounts(Some(statics.as_slice()), Some(none.as_slice()), None);
    assert!(matches!(mixed, TransactionAccounts::Static(Some(_))));
    assert_eq!(absent.get(0).map(|k| k.as_str()), Some("a"));
    assert_eq!(absent.get(1).map(|k| k.as_str()), Some("b"));
    assert_eq!(absent.get(2), None);
    assert_eq!(absent.accounts_num(), 2);
}

#[test]
fn index_is_dynamic_with_one_loaded_key() {
    let statics = keys(&["a"]);
    let loaded = keys(&["x"]);
    let writable_only = TransactionAccounts::from_accounts(Some(statics.as_slice()), Some(loaded.as_slice()), None);
    assert!(matches!(writable_only, TransactionAccounts::Dynamic(_)));
    assert_eq!(writable_only.get(1).map(|k| k.as_str()), Some("x"));
    assert_eq!(writable_only.get(2), None);
    let readonly_only = TransactionAccounts::from_accounts(Some(statics.as_slice()), None, Some(loaded.as_slice()));
    assert!(matches!(readonly_only, TransactionAccounts::Dynamic(_)));
    assert_eq!(readonly_only.get(0).map(|k| k.as_str()), Some("a"));
    assert_eq!(readonly_only.get(1).map(|k| k.as_str()), Some("x"));
    assert_eq!(readonly_only.get(2), None);
    assert_eq!(readonly_only.accounts_num(), 2);
}

#[test]
fn index_without_static_keys() {
    let loaded = keys(&["w"]);
    let read = keys(&["r"]);
    let nothing: TransactionAccounts<String> = TransactionAccounts::from_accounts(None, None, None);
    assert!(matches!(nothing, TransactionAccounts::Static(None)));
    assert_eq!(nothing.get(0), None);
    assert_eq!(nothing.accounts_num(), 0);
    assert!(nothing.all_accounts().is_empty());
    assert!(!nothing.contains(&"w".to_string()));
    let index = TransactionAccounts::from_accounts(None, Some(loaded.as_slice()), Some(read.as_slice()));
    assert_eq!(index.get(0).map(|k| k.as_str()), Some("w"));
    assert_eq!(index.get(1).map(|k| k.as_str()), Some("r"));
    assert_eq!(index.get(2), None);
}

#[test]
fn all_accounts_lists_segments_in_order() {
    let statics = keys(&["a", "b"]);
    let writable = keys(&["c"]);
    let readonly = keys(&["d", "e"]);
    let index = TransactionAccounts::from_accounts(
        Some(statics.as_slice()),
        Some(writable.as_slice()),
        Some(readonly.as_slice()),
    );
    let all: Vec<&str> = index.all_accounts().into_iter().map(|k| k.as_str()).collect();
    assert_eq!(all, vec!["a", "b", "c", "d", "e"]);
    let plain = TransactionAccounts::from_accounts(Some(statics.as_slice()), None, None);
    let all: Vec<&str> = plain.all_accounts().into_iter().map(|k| k.as_str()).collect();
    assert_eq!(all, vec!["a", "b"]);
}

#[test]
fn contains_agrees_with_all_accounts() {
    let statics = keys(&["a", "b"]);
    let writable = keys(&["c"]);
    let readonly = keys(&["d", "e"]);
    let none: Vec<String> = Vec::new();
    let indices = vec![
        TransactionAccounts::from_accounts(Some(statics.as_slice()), Some(writable.as_slice()), Some(readonly.as_slice())),
        TransactionAccounts::from_accounts(Some(statics.as_slice()), None, None),
        TransactionAccounts::from_accounts(None, Some(writable.as_slice()), None),
        TransactionAccounts::from_accounts(Some(none.as_slice()), None, Some(readonly.as_slice())),
        TransactionAccounts::from_accounts(None, None, None),
    ];
    for index in &indices {
        for probe in ["a", "b", "c", "d", "e", "f", ""] {
            let probe = probe.to_string();
            let listed = index.all_accounts().iter().any(|k| **k == probe);
            assert_eq!(index.contains(&probe), listed);
        }
    }
    assert!(indices[0].contains(&"e".to_string()));
    assert!(!indices[0].contains(&"f".to_string()));
    assert!(!indices[1].contains(&"c".to_string()));
}

#[test]
fn slice_contains_compares_whole_keys() {
    let list = keys(&["abc", "de"]);
    assert!(TransactionAccounts::<String>::slice_contains(list.as_slice(), &"de".to_string()));
    assert!(!TransactionAccounts::<String>::slice_contains(list.as_slice(), &"d".to_string()));
    assert!(!TransactionAccounts::<String>::slice_contains(&[], &"d".to_string()));
}

#[test]
fn index_of_other_key_types() {
    let statics: Vec<u32> = vec![10, 20];
    let readonly: Vec<u32> = vec![30];
    let index = TransactionAccounts::from_accounts(Some(statics.as_slice()), None, Some(readonly.as_slice()));
    assert_eq!(index.get(0), Some(&10));
    assert_eq!(index.get(2), Some(&30));
    assert_eq!(index.get(3), None);
    assert_eq!(index.accounts_num(), 3);
    assert_eq!(index.all_accounts(), vec![&10, &20, &30]);
}
