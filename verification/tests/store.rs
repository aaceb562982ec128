use webservice_rust_workshop::store::{AppState, StoreError};

#[test]
fn a_new_store_holds_nothing() {
    let state = AppState::new();
    assert!(!state.is_corrupted());
    assert_eq!(state.get("a"), Err(StoreError::NotFound));
    assert_eq!(state.get(""), Err(StoreError::NotFound));
    let state = AppState::default();
    assert_eq!(state.get("a"), Err(StoreError::NotFound));
}

#[test]
fn put_then_get_gives_the_value() {
    let mut state = AppState::new();
    assert_eq!(state.put("a".to_string(), vec![1, 2, 3]), Ok(()));
    assert_eq!(state.get("a"), Ok(vec![1, 2, 3]));
    assert_eq!(state.get("b"), Err(StoreError::NotFound));
    assert_eq!(state.put("a".to_string(), vec![]), Ok(()));
    assert_eq!(state.get("a"), Ok(vec![]));
    assert_eq!(state.put("".to_string(), vec![9]), Ok(()));
    assert_eq!(state.get(""), Ok(vec![9]));
    assert_eq!(state.put("a/b".to_string(), vec![7]), Ok(()));
    assert_eq!(state.get("a/b"), Ok(vec![7]));
}

#[test]
fn delete_removes_only_its_key() {
    let mut state = AppState::new();
    state.put("a".to_string(), vec![1]).unwrap();
    state.put("b".to_string(), vec![2]).unwrap();
    assert_eq!(state.delete("a"), Ok(()));
    assert_eq!(state.get("a"), Err(StoreError::NotFound));
    assert_eq!(state.get("b"), Ok(vec![2]));
    assert_eq!(state.delete("a"), Ok(()));
    assert_eq!(state.delete("never"), Ok(()));
    assert_eq!(state.get("b"), Ok(vec![2]));
}

#[test]
fn clear_removes_every_key() {
    let mut state = AppState::new();
    assert_eq!(state.clear(), Ok(()));
    state.put("a".to_string(), vec![1]).unwrap();
    state.put("b".to_string(), vec![2]).unwrap();
    assert_eq!(state.clear(), Ok(()));
    assert_eq!(state.get("a"), Err(StoreError::NotFound));
    assert_eq!(state.get("b"), Err(StoreError::NotFound));
    assert_eq!(state.put("a".to_string(), vec![3]), Ok(()));
    assert_eq!(state.get("a"), Ok(vec![3]));
}

#[test]
fn a_poisoned_store_fails_for_good() {
    let mut state = AppState::new();
    state.put("a".to_string(), vec![1]).unwrap();
    state.poison();
    assert!(state.is_corrupted());
    assert_eq!(state.get("a"), Err(StoreError::Corrupted));
    assert_eq!(state.get("b"), Err(StoreError::Corrupted));
    assert_eq!(state.put("b".to_string(), vec![2]), Err(StoreError::Corrupted));
    assert_eq!(state.delete("a"), Err(StoreError::Corrupted));
    assert_eq!(state.clear(), Err(StoreError::Corrupted));
    state.poison();
    assert!(state.is_corrupted());
    assert_eq!(state.get("a"), Err(StoreError::Corrupted));
}
