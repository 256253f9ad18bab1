use walllit::cache::BudgetCache;

#[test]
fn evicts_least_used_and_rejects_oversized_values() {
    let mut cache = BudgetCache::new(10, 3);
    cache.insert(1, 'a', 4);
    cache.insert(2, 'b', 4);
    assert_eq!(cache.get(&1), Some(&'a'));
    cache.insert(3, 'c', 4);
    assert!(cache.get(&2).is_none());
    assert_eq!(cache.get(&1), Some(&'a'));
    cache.insert(4, 'd', 11);
    assert!(cache.get(&4).is_none());
}

#[test]
fn entry_limit_evicts_the_oldest_entry() {
    let mut cache = BudgetCache::new(100, 2);
    cache.insert(1, "one", 1);
    cache.insert(2, "two", 1);
    cache.insert(3, "three", 1);
    assert!(cache.get(&1).is_none());
    assert_eq!(cache.get(&2), Some(&"two"));
    assert_eq!(cache.get(&3), Some(&"three"));
}

#[test]
fn replacing_a_key_keeps_one_entry_with_the_new_value() {
    let mut cache = BudgetCache::new(10, 2);
    cache.insert(7, 'x', 6);
    cache.insert(7, 'y', 6);
    assert_eq!(cache.get(&7), Some(&'y'));
    cache.insert(8, 'z', 4);
    assert_eq!(cache.get(&7), Some(&'y'));
    assert_eq!(cache.get(&8), Some(&'z'));
}

#[test]
fn zero_limit_stores_nothing_and_clear_empties() {
    let mut none: BudgetCache<u32, char> = BudgetCache::new(10, 0);
    none.insert(1, 'a', 1);
    assert!(none.get(&1).is_none());

    let mut cache = BudgetCache::new(10, 3);
    cache.insert(1, 'a', 3);
    cache.clear();
    assert!(cache.get(&1).is_none());
    cache.insert(2, 'b', 10);
    assert_eq!(cache.get(&2), Some(&'b'));
}
