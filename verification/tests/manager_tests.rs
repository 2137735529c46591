use dex::actor::ActorId;
use dex::io::{CachedAction, TransactionCacheError, TransactionKind};
use dex::tx_manager::{TransactionManager, MAX_NUMBER_OF_TXS};

fn actor(value: u64) -> ActorId {
    ActorId::new(value)
}

#[test]
fn new_then_retry_returns_same_id() {
    let mut manager = TransactionManager::new();
    let fingerprint = CachedAction::Swap(123);
    let guard = manager
        .asquire_transaction(TransactionKind::New, actor(7), fingerprint)
        .unwrap();
    let first_id = guard.tx_id;
    // The invocation aborted mid-flight: the guard is dropped without a
    // release, so the cache entry survives and the retry reconnects.
    let retry = manager
        .asquire_transaction(TransactionKind::Retry, actor(7), fingerprint)
        .unwrap();
    assert_eq!(retry.tx_id, first_id);
    assert_eq!(retry.step, 0);
}

#[test]
fn retry_with_different_fingerprint_mismatches() {
    let mut manager = TransactionManager::new();
    manager
        .asquire_transaction(TransactionKind::New, actor(7), CachedAction::Swap(123))
        .unwrap();
    let result =
        manager.asquire_transaction(TransactionKind::Retry, actor(7), CachedAction::Swap(124));
    assert_eq!(result.unwrap_err(), TransactionCacheError::MismatchedAction);
}

#[test]
fn retry_without_entry_is_not_found() {
    let mut manager = TransactionManager::new();
    let result =
        manager.asquire_transaction(TransactionKind::Retry, actor(7), CachedAction::Other);
    assert_eq!(
        result.unwrap_err(),
        TransactionCacheError::TransactionNotFound
    );
}

#[test]
fn capacity_eviction_drops_the_oldest() {
    let mut manager = TransactionManager::new();
    for i in 0..(MAX_NUMBER_OF_TXS as u64 + 1) {
        manager
            .asquire_transaction(TransactionKind::New, actor(i), CachedAction::Swap(i as u128))
            .unwrap();
    }
    let cached = manager.cached_actions();
    assert_eq!(cached.len(), MAX_NUMBER_OF_TXS);
    // Exactly the oldest transaction (actor 0, id 0) was evicted.
    assert_eq!(
        manager
            .asquire_transaction(TransactionKind::Retry, actor(0), CachedAction::Swap(0))
            .unwrap_err(),
        TransactionCacheError::TransactionNotFound
    );
    assert!(manager
        .asquire_transaction(TransactionKind::Retry, actor(1), CachedAction::Swap(1))
        .is_ok());
}

#[test]
fn guard_release_purges_entry() {
    let mut manager = TransactionManager::new();
    let guard = manager
        .asquire_transaction(TransactionKind::New, actor(9), CachedAction::Other)
        .unwrap();
    assert_eq!(manager.cached_actions().len(), 1);
    manager.release(guard);
    let cached = manager.cached_actions();
    assert!(cached.iter().all(|(a, _)| *a != actor(9)));
    assert_eq!(cached.len(), 0);
}

#[test]
fn cached_actions_lists_entries() {
    let mut manager = TransactionManager::new();
    manager
        .asquire_transaction(TransactionKind::New, actor(3), CachedAction::Swap(5))
        .unwrap();
    manager
        .asquire_transaction(
            TransactionKind::New,
            actor(4),
            CachedAction::AddLiquidity(1, 2),
        )
        .unwrap();
    let cached = manager.cached_actions();
    assert_eq!(cached.len(), 2);
    assert!(cached.contains(&(actor(3), CachedAction::Swap(5))));
    assert!(cached.contains(&(actor(4), CachedAction::AddLiquidity(1, 2))));
}

#[test]
fn step_ids_are_sequential_and_bounded() {
    let mut manager = TransactionManager::new();
    let mut guard = manager
        .asquire_transaction(TransactionKind::New, actor(1), CachedAction::Other)
        .unwrap();
    let base = guard.tx_id;
    for i in 0..255u64 {
        assert_eq!(guard.step(), Ok(base + i));
    }
    assert_eq!(guard.step(), Err(TransactionCacheError::StepOverflow));
    assert_eq!(guard.step(), Err(TransactionCacheError::StepOverflow));
}

#[test]
fn nonce_and_step_wrap_around() {
    // Ids are assigned with wraparound; the step id wraps with them.
    let mut manager = TransactionManager::new();
    manager.tx_id_nonce = u64::MAX;
    let mut guard = manager
        .asquire_transaction(TransactionKind::New, actor(1), CachedAction::Other)
        .unwrap();
    assert_eq!(guard.tx_id, u64::MAX);
    assert_eq!(guard.step(), Ok(u64::MAX));
    assert_eq!(guard.step(), Ok(0));
    assert_eq!(guard.step(), Ok(1));
    // The nonce advanced by 255, wrapping past zero.
    assert_eq!(manager.tx_id_nonce, 254);
}

#[test]
fn eviction_wraps_around_the_id_space() {
    // The first ten ids are handed out just below the wrap point; everything
    // after them wraps to small ids. Id order then only approximates age:
    // eviction picks the smallest id at or after the advanced nonce, which
    // is the oldest of the pre-wrap entries, not the smallest id overall.
    let mut manager = TransactionManager::new();
    manager.tx_id_nonce = u64::MAX - 255 * 10 + 1;
    for i in 0..(MAX_NUMBER_OF_TXS as u64 + 1) {
        manager
            .asquire_transaction(TransactionKind::New, actor(i), CachedAction::Other)
            .unwrap();
    }
    assert_eq!(manager.cached_actions().len(), MAX_NUMBER_OF_TXS);
    // Actor 0 owned the smallest pre-wrap id and was evicted; the holders of
    // post-wrap (numerically smaller) ids stay.
    assert_eq!(
        manager
            .asquire_transaction(TransactionKind::Retry, actor(0), CachedAction::Other)
            .unwrap_err(),
        TransactionCacheError::TransactionNotFound
    );
    assert!(manager
        .asquire_transaction(TransactionKind::Retry, actor(1), CachedAction::Other)
        .is_ok());
    assert!(manager
        .asquire_transaction(TransactionKind::Retry, actor(20), CachedAction::Other)
        .is_ok());
}

#[test]
fn default_manager_is_empty() {
    let manager = TransactionManager::default();
    assert_eq!(manager.cached_actions().len(), 0);
    assert_eq!(manager.tx_id_nonce, 0);
}
