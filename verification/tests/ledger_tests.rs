use modrelay::error::RelayError;
use modrelay::offered_post::{OfferedPost, OfferedPostRepo};

#[test]
fn record_then_find_by_primary_returns_origin() {
    let mut repo = OfferedPostRepo::new();
    repo.save_offered_post(OfferedPost::new(100, 5, 900, 42, None)).unwrap();
    let found = repo.get_offered_post(900, 42).unwrap();
    assert_eq!(found.chat_id, 100);
    assert_eq!(found.message_id, 5);
    assert_eq!(found.admin_chat_id, 900);
    assert_eq!(found.admin_chat_message_id, 42);
}

#[test]
fn find_by_secondary_returns_same_entry() {
    let mut repo = OfferedPostRepo::new();
    repo.save_offered_post(OfferedPost::new(100, 5, 900, 42, Some(41))).unwrap();
    let by_primary = repo.get_offered_post(900, 42).unwrap();
    let by_secondary = repo.get_offered_post(900, 41).unwrap();
    assert_eq!(by_primary, by_secondary);
    assert_eq!(by_secondary.chat_id, 100);
    assert_eq!(by_secondary.message_id, 5);
}

#[test]
fn find_misses_on_wrong_chat_or_message() {
    let mut repo = OfferedPostRepo::new();
    repo.save_offered_post(OfferedPost::new(100, 5, 900, 42, Some(41))).unwrap();
    assert_eq!(repo.get_offered_post(901, 42).unwrap_err(), RelayError::NotFound);
    assert_eq!(repo.get_offered_post(900, 40).unwrap_err(), RelayError::NotFound);
}

#[test]
fn repeated_lookup_succeeds_again() {
    let mut repo = OfferedPostRepo::new();
    repo.save_offered_post(OfferedPost::new(100, 5, 900, 42, None)).unwrap();
    let first = repo.get_offered_post(900, 42).unwrap();
    let second = repo.get_offered_post(900, 42).unwrap();
    assert_eq!(first, second);
}

#[test]
fn duplicate_review_key_is_refused() {
    let mut repo = OfferedPostRepo::new();
    repo.save_offered_post(OfferedPost::new(100, 5, 900, 42, None)).unwrap();
    let err = repo.save_offered_post(OfferedPost::new(200, 9, 900, 42, None)).unwrap_err();
    assert_eq!(err, RelayError::PersistenceError);
    assert_eq!(repo.get_offered_post(900, 42).unwrap().chat_id, 100);
}

#[test]
fn duplicate_origin_is_allowed() {
    let mut repo = OfferedPostRepo::new();
    repo.save_offered_post(OfferedPost::new(100, 5, 900, 42, None)).unwrap();
    repo.save_offered_post(OfferedPost::new(100, 5, 900, 43, None)).unwrap();
    assert_eq!(repo.get_offered_post(900, 42).unwrap().message_id, 5);
    assert_eq!(repo.get_offered_post(900, 43).unwrap().message_id, 5);
}
