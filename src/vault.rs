use std::collections::HashMap;
use vstd::prelude::*;

use crate::key::{is_random_uuid, VaultKey};

verus! {

broadcast use vstd::std_specs::hash::group_hash_axioms;

/// The contents left by `add_with_key`, and whether the value went in:
/// an occupied key keeps its value.
pub open spec fn add_with_key_model<T>(m: Map<u128, T>, k: u128, v: T) -> (Map<u128, T>, bool) {
    if m.contains_key(k) {
        (m, false)
    } else {
        (m.insert(k, v), true)
    }
}

/// The contents left by `remove`, and the value it hands back.
pub open spec fn remove_model<T>(m: Map<u128, T>, k: u128) -> (Map<u128, T>, Option<T>) {
    if m.contains_key(k) {
        (m.remove(k), Some(m[k]))
    } else {
        (m, None)
    }
}

/// The contents left by `update_item` when the transform gives `v`, and
/// whether an entry was updated.
pub open spec fn update_model<T>(m: Map<u128, T>, k: u128, v: T) -> (Map<u128, T>, bool) {
    if m.contains_key(k) {
        (m.insert(k, v), true)
    } else {
        (m, false)
    }
}

/// A container that owns values stored under opaque keys.
///
/// Each operation that changes the contents takes the vault by `&mut`, so it
/// runs with exclusive access to the whole mapping for its duration.
pub struct Vault<T> {
    items: HashMap<u128, T>,
}

impl<T> View for Vault<T> {
    type V = Map<u128, T>;

    closed spec fn view(&self) -> Map<u128, T> {
        self.items@
    }
}

impl<T> Vault<T> {
    /// Creates a new, empty vault.
    pub fn new() -> (r: Vault<T>)
        ensures
            r@ == Map::<u128, T>::empty(),
    {
        Vault { items: HashMap::new() }
    }

    /// Stores a value under a freshly generated key and returns that key.
    pub fn add(&mut self, to_add: T) -> (r: VaultKey)
        ensures
            is_random_uuid(r@),
            r@ != 0,
            final(self)@ == old(self)@.insert(r@, to_add),
    {
        let key = VaultKey::new();
        self.items.insert(key.bits(), to_add);
        key
    }

    /// Removes and returns the value stored under `key`, or `None` when the
    /// key is absent.
    pub fn remove(&mut self, key: &VaultKey) -> (r: Option<T>)
        ensures
            (final(self)@, r) == remove_model(old(self)@, key@),
    {
        let bits = key.bits();
        self.items.remove(&bits)
    }

    /// Whether a value is stored under `key`.
    pub fn has_item(&self, key: &VaultKey) -> (r: bool)
        ensures
            r == self@.contains_key(key@),
    {
        let bits = key.bits();
        self.items.contains_key(&bits)
    }

    /// Stores a value under `key` when the key is absent and returns true;
    /// when the key is occupied, returns false and keeps the stored value.
    pub fn add_with_key(&mut self, to_add: T, key: &VaultKey) -> (r: bool)
        ensures
            (final(self)@, r) == add_with_key_model(old(self)@, key@, to_add),
    {
        let bits = key.bits();
        if self.items.contains_key(&bits) {
            false
        } else {
            self.items.insert(bits, to_add);
            true
        }
    }

    /// Replaces the value stored under `key` by what `operation` makes of it
    /// and returns true; when the key is absent, does nothing and returns false.
    pub fn update_item<F>(&mut self, key: &VaultKey, mut operation: F) -> (r: bool) where
        F: FnMut(T) -> T,
        requires
            old(self)@.contains_key(key@) ==> operation.requires((old(self)@[key@],)),
        ensures
            r == old(self)@.contains_key(key@),
            r ==> exists|v: T|
                #[trigger] operation.ensures((old(self)@[key@],), v) && (final(self)@, r)
                    == update_model(old(self)@, key@, v),
            !r ==> final(self)@ == old(self)@,
    {
        match self.remove(key) {
            Some(item) => {
                let updated = operation(item);
                self.add_with_key(updated, key)
            },
            None => false,
        }
    }

    /// Removes every stored value.
    pub fn clear(&mut self)
        ensures
            final(self)@ == Map::<u128, T>::empty(),
    {
        self.items.clear();
    }
}

} // verus!
