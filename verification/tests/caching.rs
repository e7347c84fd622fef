use pool_fetch::address::Address;
use pool_fetch::cache::PoolDataCache;
use pool_fetch::pools::MintPoolData;

fn addr(n: u8) -> Address {
    Address::new([n; 32])
}

fn sample_data(tag: u8) -> MintPoolData {
    MintPoolData {
        mint: addr(tag),
        wallet: addr(2),
        token_program: addr(3),
        pump_pools: Vec::new(),
        raydium_pools: Vec::new(),
    }
}

#[test]
fn ttl_boundary_live_then_absent() {
    let mut cache = PoolDataCache::new();
    cache.put("m".to_owned(), "w".to_owned(), sample_data(9), 100);
    // age 299 < ttl 300: still live
    let hit = cache.get(&"m".to_owned(), &"w".to_owned(), 300, 399);
    assert!(hit.is_some());
    assert_eq!(hit.unwrap().mint, addr(9));
    // age 300 >= ttl 300: treated as absent
    assert!(cache.get(&"m".to_owned(), &"w".to_owned(), 300, 400).is_none());
    // the stale entry was not evicted by the read
    assert_eq!(cache.stats(300, 400), (1, 1));
}

#[test]
fn put_overwrites_and_keeps_other_keys() {
    let mut cache = PoolDataCache::new();
    cache.put("m1".to_owned(), "w".to_owned(), sample_data(1), 10);
    cache.put("m2".to_owned(), "w".to_owned(), sample_data(2), 10);
    cache.put("m1".to_owned(), "w".to_owned(), sample_data(7), 20);
    let hit = cache.get(&"m1".to_owned(), &"w".to_owned(), 300, 25).unwrap();
    assert_eq!(hit.mint, addr(7));
    let other = cache.get(&"m2".to_owned(), &"w".to_owned(), 300, 25).unwrap();
    assert_eq!(other.mint, addr(2));
    assert_eq!(cache.stats(300, 25).0, 2);
}

#[test]
fn sweep_removes_expired_keeps_live() {
    let mut cache = PoolDataCache::new();
    cache.put("old".to_owned(), "w".to_owned(), sample_data(1), 0);
    cache.put("new".to_owned(), "w".to_owned(), sample_data(2), 250);
    cache.sweep(300, 320);
    assert_eq!(cache.stats(300, 320), (1, 0));
    assert!(cache.get(&"old".to_owned(), &"w".to_owned(), 300, 320).is_none());
    assert!(cache.get(&"new".to_owned(), &"w".to_owned(), 300, 320).is_some());
}

#[test]
fn stats_counts_expired_entries() {
    let mut cache = PoolDataCache::new();
    cache.put("a".to_owned(), "w".to_owned(), sample_data(1), 0);
    cache.put("b".to_owned(), "w".to_owned(), sample_data(2), 100);
    cache.put("c".to_owned(), "w".to_owned(), sample_data(3), 200);
    // at 350 with ttl 300: only the entry from time 0 has expired
    assert_eq!(cache.stats(300, 350), (3, 1));
    // at 450: the entries from 0 and 100 have expired
    assert_eq!(cache.stats(300, 450), (3, 2));
}

#[test]
fn snapshot_is_a_value_copy() {
    let mut cache = PoolDataCache::new();
    cache.put("m".to_owned(), "w".to_owned(), sample_data(4), 0);
    let mut first = cache.get(&"m".to_owned(), &"w".to_owned(), 300, 1).unwrap();
    // mutating the returned snapshot must not be visible through the cache
    first.pump_pools.push(pool_fetch::pools::PumpPool {
        pool: addr(9),
        token_vault: addr(9),
        sol_vault: addr(9),
        fee_token_wallet: addr(9),
        coin_creator_vault_ata: addr(9),
        coin_creator_vault_authority: addr(9),
        token_mint: addr(9),
        base_mint: addr(9),
    });
    let second = cache.get(&"m".to_owned(), &"w".to_owned(), 300, 2).unwrap();
    assert_eq!(second.pump_pools.len(), 0);
}
