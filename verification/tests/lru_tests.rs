//! A bounded map that lets go of what was not used for longest.
use magicblock_chainlink::lru_map::LruMap;
use magicblock_chainlink::pubkey::Pubkey;

fn key(n: u8) -> Pubkey {
    Pubkey::new([n; 32])
}

#[test]
fn the_least_recently_used_leaves() {
    let mut map = LruMap::new(2);
    assert_eq!(map.push(key(1), "a"), None);
    assert_eq!(map.push(key(2), "b"), None);
    assert!(map.touch(&key(1)));
    assert_eq!(map.push(key(3), "c"), Some((key(2), "b")));
    assert_eq!(map.len(), 2);
    assert_eq!(map.peek(&key(1)), Some(&"a"));
    assert_eq!(map.peek(&key(2)), None);
    assert!(!map.touch(&key(2)));
}

#[test]
fn pushing_a_key_again_replaces_its_value() {
    let mut map = LruMap::new(2);
    map.push(key(1), 1);
    assert_eq!(map.push(key(1), 2), Some((key(1), 1)));
    assert_eq!(map.peek(&key(1)), Some(&2));
    assert_eq!(map.len(), 1);
}

#[test]
fn entries_can_be_taken_out() {
    let mut map = LruMap::new(3);
    map.push(key(1), 1);
    map.push(key(2), 2);
    map.push(key(3), 3);
    assert_eq!(map.pop(&key(2)), Some(2));
    assert_eq!(map.pop(&key(2)), None);
    assert_eq!(map.pop_lru(), Some((key(1), 1)));
    assert_eq!(map.pop_lru(), Some((key(3), 3)));
    assert_eq!(map.pop_lru(), None);
    map.push(key(4), 4);
    map.clear();
    assert_eq!(map.len(), 0);
    assert_eq!(map.peek(&key(4)), None);
}

#[test]
fn peeking_does_not_count_as_use() {
    let mut map = LruMap::new(2);
    map.push(key(1), 1);
    map.push(key(2), 2);
    map.peek(&key(1));
    assert_eq!(map.push(key(3), 3), Some((key(1), 1)));
}
