use inputshare::keyset::VirtualKeySet;
use inputshare::virtual_key::VirtualKey;

#[test]
fn new_set_is_empty() {
    let set = VirtualKeySet::new();
    assert_eq!(set.len(), 0);
    assert!(!set.contains(VirtualKey::KeyA));
    assert!(set.iter().is_empty());
}

#[test]
fn insert_then_contains() {
    let mut set = VirtualKeySet::new();
    set.insert(VirtualKey::KeyA);
    set.insert(VirtualKey::LShift);
    assert!(set.contains(VirtualKey::KeyA));
    assert!(set.contains(VirtualKey::LShift));
    assert!(!set.contains(VirtualKey::KeyB));
    assert_eq!(set.len(), 2);
}

#[test]
fn insert_twice_counts_once() {
    let mut set = VirtualKeySet::new();
    set.insert(VirtualKey::Space);
    set.insert(VirtualKey::Space);
    assert_eq!(set.len(), 1);
}

#[test]
fn remove_then_not_contains() {
    let mut set = VirtualKeySet::new();
    set.insert(VirtualKey::KeyA);
    set.insert(VirtualKey::KeyB);
    set.remove(VirtualKey::KeyA);
    assert!(!set.contains(VirtualKey::KeyA));
    assert!(set.contains(VirtualKey::KeyB));
    set.remove(VirtualKey::KeyZ);
    assert_eq!(set.len(), 1);
}

#[test]
fn iter_lists_in_code_order() {
    let mut set = VirtualKeySet::new();
    set.insert(VirtualKey::RMenu);
    set.insert(VirtualKey::LButton);
    set.insert(VirtualKey::KeyA);
    set.insert(VirtualKey::Apps);
    assert_eq!(
        set.iter(),
        vec![VirtualKey::LButton, VirtualKey::KeyA, VirtualKey::Apps, VirtualKey::RMenu]
    );
}

#[test]
fn superset_of_subset_and_empty() {
    let mut big = VirtualKeySet::new();
    big.insert(VirtualKey::LControl);
    big.insert(VirtualKey::LShift);
    big.insert(VirtualKey::KeyS);
    let mut small = VirtualKeySet::new();
    small.insert(VirtualKey::LControl);
    small.insert(VirtualKey::KeyS);
    assert!(big.is_superset(small));
    assert!(!small.is_superset(big));
    assert!(big.is_superset(VirtualKeySet::new()));
    assert!(VirtualKeySet::new().is_superset(VirtualKeySet::new()));
}

#[test]
fn keys_in_different_words() {
    let mut set = VirtualKeySet::new();
    set.insert(VirtualKey::LButton);
    set.insert(VirtualKey::RMenu);
    let mut other = VirtualKeySet::new();
    other.insert(VirtualKey::RMenu);
    assert!(set.is_superset(other));
    other.insert(VirtualKey::Space);
    assert!(!set.is_superset(other));
}

#[test]
fn from_keys_collects_each_key() {
    let set = VirtualKeySet::from_keys(&vec![VirtualKey::KeyC, VirtualKey::KeyA, VirtualKey::KeyC]);
    assert_eq!(set.len(), 2);
    assert_eq!(set.iter(), vec![VirtualKey::KeyA, VirtualKey::KeyC]);
}

#[test]
fn virtual_key_codes_round_trip() {
    assert_eq!(VirtualKey::KeyA.to_u8(), 0x41);
    assert_eq!(VirtualKey::Space.to_u8(), 0x20);
    assert_eq!(VirtualKey::try_from_u8(0x41), Some(VirtualKey::KeyA));
    assert_eq!(VirtualKey::try_from_u8(0xff), None);
    assert!(VirtualKey::XButton2.is_mouse_button());
    assert!(!VirtualKey::KeyA.is_mouse_button());
}

#[test]
fn default_set_is_empty() {
    assert_eq!(VirtualKeySet::default().len(), 0);
}
