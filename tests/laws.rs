use bank_vault::{Vault, VaultKey};

fn key_bits(key: &VaultKey) -> u128 {
    let text = format!("{:?}", key);
    let digits: String = text.chars().filter(|c| c.is_ascii_digit()).collect();
    digits.parse::<u128>().unwrap()
}

#[test]
fn zero_keys_are_equal() {
    let key_1 = VaultKey::zero();
    let key_2 = VaultKey::zero();
    assert_eq!(key_1, key_2);
    assert_eq!(0, key_bits(&key_1));
}

#[test]
fn generated_keys_differ() {
    let key_1 = VaultKey::new();
    let key_2 = VaultKey::new();
    assert_ne!(key_1, key_2);
}

#[test]
fn generated_key_is_not_zero() {
    for _ in 0..100 {
        assert_ne!(VaultKey::zero(), VaultKey::new());
    }
}

#[test]
fn generated_key_is_random_uuid() {
    let bits = key_bits(&VaultKey::new());
    assert_eq!(4, (bits >> 76) & 0xf);
    assert_eq!(2, (bits >> 62) & 0x3);
}

#[test]
fn added_key_is_random_uuid() {
    let mut vault = Vault::new();
    let bits = key_bits(&vault.add('x'));
    assert_eq!(4, (bits >> 76) & 0xf);
    assert_eq!(2, (bits >> 62) & 0x3);
}

#[test]
fn has_item_after_each_add() {
    let mut vault = Vault::new();
    let mut keys = Vec::new();
    for i in 0..50u32 {
        let key = vault.add(i);
        assert!(vault.has_item(&key));
        keys.push(key);
    }
    for key in keys.iter() {
        assert!(vault.has_item(key));
    }
}

#[test]
fn fresh_key_absent_after_other_operations() {
    let mut vault = Vault::new();
    let a = vault.add(1u8);
    let b = VaultKey::new();
    assert!(vault.add_with_key(2u8, &b));
    vault.remove(&a);
    vault.update_item(&b, |x| x + 1);
    let fresh = VaultKey::new();
    assert!(!vault.has_item(&fresh));
    assert!(!vault.has_item(&VaultKey::zero()));
}

#[test]
fn many_adds_give_distinct_keys() {
    let mut vault = Vault::new();
    let mut keys = Vec::new();
    for _ in 0..200 {
        keys.push(vault.add(7u64));
    }
    for i in 0..keys.len() {
        for j in (i + 1)..keys.len() {
            assert_ne!(keys[i], keys[j]);
        }
    }
}

#[test]
fn add_with_key_keeps_first_value() {
    let mut vault = Vault::new();
    let key = VaultKey::new();
    assert!(vault.add_with_key(String::from("first"), &key));
    assert!(!vault.add_with_key(String::from("second"), &key));
    assert_eq!(Some(String::from("first")), vault.remove(&key));
    assert_eq!(None, vault.remove(&key));
}

#[test]
fn add_with_key_accepts_zero_key() {
    let mut vault = Vault::new();
    let key = VaultKey::zero();
    assert!(vault.add_with_key(10i64, &key));
    assert!(vault.has_item(&VaultKey::zero()));
    assert_eq!(Some(10), vault.remove(&VaultKey::zero()));
}

#[test]
fn remove_returns_stored_value_once() {
    let mut vault = Vault::new();
    let key = vault.add(vec![1, 2, 3]);
    assert_eq!(Some(vec![1, 2, 3]), vault.remove(&key));
    assert_eq!(None, vault.remove(&key));
}

#[test]
fn remove_never_inserted_on_used_vault() {
    let mut vault = Vault::new();
    vault.add(1);
    vault.add(2);
    assert_eq!(None, vault.remove(&VaultKey::new()));
}

#[test]
fn update_doubles_integer() {
    let mut vault = Vault::new();
    let key = vault.add(1);
    let updated = vault.update_item(&key, |x: i32| x * 2);
    assert!(updated);
    assert_eq!(Some(2), vault.remove(&key));
}

#[test]
fn update_absent_key_changes_nothing() {
    let mut vault = Vault::new();
    let key = vault.add(5);
    let other = VaultKey::new();
    let updated = vault.update_item(&other, |x: i32| x + 100);
    assert!(!updated);
    assert!(!vault.has_item(&other));
    assert_eq!(Some(5), vault.remove(&key));
}

#[test]
fn update_twice_applies_both() {
    let mut vault = Vault::new();
    let key = vault.add(3);
    assert!(vault.update_item(&key, |x: i32| x + 1));
    assert!(vault.update_item(&key, |x: i32| x * 10));
    assert_eq!(Some(40), vault.remove(&key));
}

#[test]
fn clear_removes_every_entry() {
    let mut vault = Vault::new();
    let a = vault.add("a");
    let b = vault.add("b");
    let c = VaultKey::zero();
    vault.add_with_key("c", &c);
    vault.clear();
    assert!(!vault.has_item(&a));
    assert!(!vault.has_item(&b));
    assert!(!vault.has_item(&c));
    assert_eq!(None, vault.remove(&a));
}

#[test]
fn clear_on_empty_vault() {
    let mut vault = Vault::<u8>::new();
    vault.clear();
    assert!(!vault.has_item(&VaultKey::zero()));
}

#[test]
fn vault_usable_after_clear() {
    let mut vault = Vault::new();
    vault.add(1);
    vault.clear();
    let key = vault.add(2);
    assert_eq!(Some(2), vault.remove(&key));
}
