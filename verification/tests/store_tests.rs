use modrelay::cached_pic::{CachedPic, CachedPicRepo};
use modrelay::error::RelayError;
use modrelay::pic::{Pic, PicRepo};
use modrelay::stats::{StatsRepo, UserStats};

fn pic(name: &str, for_accept: bool, data: &[u8]) -> Pic {
    Pic::new(name.to_string(), for_accept, data.to_vec())
}

#[test]
fn save_and_get_pic() {
    let mut repo = PicRepo::new();
    repo.save_pic(pic("a.gif", true, b"aaa")).unwrap();
    repo.save_pic(pic("b.gif", false, b"bbb")).unwrap();
    let got = repo.get_pic("a.gif", true).unwrap();
    assert_eq!(got.file_name, "a.gif");
    assert!(got.for_accept);
    assert_eq!(got.data, b"aaa".to_vec());
}

#[test]
fn get_pic_wrong_category_is_not_found() {
    let mut repo = PicRepo::new();
    repo.save_pic(pic("a.gif", true, b"aaa")).unwrap();
    assert_eq!(repo.get_pic("a.gif", false).unwrap_err(), RelayError::NotFound);
    assert_eq!(repo.get_pic("missing.gif", true).unwrap_err(), RelayError::NotFound);
}

#[test]
fn same_name_allowed_across_categories() {
    let mut repo = PicRepo::new();
    repo.save_pic(pic("a.gif", true, b"accept")).unwrap();
    repo.save_pic(pic("a.gif", false, b"decline")).unwrap();
    assert_eq!(repo.get_pic("a.gif", true).unwrap().data, b"accept".to_vec());
    assert_eq!(repo.get_pic("a.gif", false).unwrap().data, b"decline".to_vec());
}

#[test]
fn duplicate_save_is_refused() {
    let mut repo = PicRepo::new();
    repo.save_pic(pic("a.gif", true, b"one")).unwrap();
    let err = repo.save_pic(pic("a.gif", true, b"two")).unwrap_err();
    assert_eq!(err, RelayError::PersistenceError);
    assert_eq!(repo.get_pic("a.gif", true).unwrap().data, b"one".to_vec());
    assert_eq!(repo.get_all_pics().len(), 1);
}

#[test]
fn delete_pic_removes_exactly_the_named_blob() {
    let mut repo = PicRepo::new();
    repo.save_pic(pic("a.gif", true, b"aaa")).unwrap();
    repo.save_pic(pic("b.gif", true, b"bbb")).unwrap();
    repo.delete_pic("a.gif", true).unwrap();
    assert_eq!(repo.get_pic("a.gif", true).unwrap_err(), RelayError::NotFound);
    assert_eq!(repo.get_pic("b.gif", true).unwrap().data, b"bbb".to_vec());
    assert_eq!(repo.get_all_pics().len(), 1);
}

#[test]
fn delete_missing_pic_fails_and_changes_nothing() {
    let mut repo = PicRepo::new();
    repo.save_pic(pic("a.gif", true, b"aaa")).unwrap();
    assert_eq!(repo.delete_pic("a.gif", false).unwrap_err(), RelayError::NotFound);
    assert_eq!(repo.get_all_pics().len(), 1);
}

#[test]
fn draw_returns_blob_of_the_category() {
    let mut repo = PicRepo::new();
    repo.save_pic(pic("a.gif", true, b"aaa")).unwrap();
    repo.save_pic(pic("d1.gif", false, b"d1")).unwrap();
    repo.save_pic(pic("b.gif", true, b"bbb")).unwrap();
    for entropy in 0..10u64 {
        let drawn = repo.get_random_pic(true, entropy).unwrap();
        assert!(drawn.for_accept);
        assert!(drawn.file_name == "a.gif" || drawn.file_name == "b.gif");
        let declined = repo.get_random_pic(false, entropy).unwrap();
        assert!(!declined.for_accept);
        assert_eq!(declined.file_name, "d1.gif");
    }
}

#[test]
fn draw_selects_by_entropy_modulo_category_size() {
    let mut repo = PicRepo::new();
    repo.save_pic(pic("a.gif", true, b"aaa")).unwrap();
    repo.save_pic(pic("d1.gif", false, b"d1")).unwrap();
    repo.save_pic(pic("b.gif", true, b"bbb")).unwrap();
    assert_eq!(repo.get_random_pic(true, 0).unwrap().file_name, "a.gif");
    assert_eq!(repo.get_random_pic(true, 1).unwrap().file_name, "b.gif");
    assert_eq!(repo.get_random_pic(true, 2).unwrap().file_name, "a.gif");
}

#[test]
fn draw_on_empty_category_fails_with_empty_category() {
    let mut repo = PicRepo::new();
    assert_eq!(repo.get_random_pic(true, 7).unwrap_err(), RelayError::EmptyCategory);
    repo.save_pic(pic("a.gif", true, b"aaa")).unwrap();
    assert_eq!(repo.get_random_pic(false, 7).unwrap_err(), RelayError::EmptyCategory);
}

#[test]
fn cache_round_trip() {
    let mut cache = CachedPicRepo::new();
    assert_eq!(cache.get_cached_pic("a.gif").unwrap_err(), RelayError::NotFound);
    cache.save_cached_pic(CachedPic::new("a.gif".to_string(), "handle-1".to_string())).unwrap();
    let got = cache.get_cached_pic("a.gif").unwrap();
    assert_eq!(got.image_name, "a.gif");
    assert_eq!(got.image_file_id, "handle-1");
}

#[test]
fn cache_keeps_one_handle_per_name() {
    let mut cache = CachedPicRepo::new();
    cache.save_cached_pic(CachedPic::new("a.gif".to_string(), "handle-1".to_string())).unwrap();
    let err = cache
        .save_cached_pic(CachedPic::new("a.gif".to_string(), "handle-2".to_string()))
        .unwrap_err();
    assert_eq!(err, RelayError::PersistenceError);
    assert_eq!(cache.get_cached_pic("a.gif").unwrap().image_file_id, "handle-1");
}

#[test]
fn stats_default_is_empty_row() {
    let repo = StatsRepo::new();
    assert_eq!(repo.get_stat_for_user(7), None);
    assert_eq!(repo.get_stat_for_user_or_default(7), UserStats::empty(7));
    assert_eq!(UserStats::empty(7), UserStats::new(7, 0, 0, 0));
}

#[test]
fn stats_upsert_increments() {
    let mut repo = StatsRepo::new();
    repo.increment_offered(7);
    assert_eq!(repo.get_stat_for_user(7), Some(UserStats::new(7, 1, 0, 0)));
    repo.increment_offered(7);
    repo.increment_accepted(7);
    assert_eq!(repo.get_stat_for_user(7), Some(UserStats::new(7, 2, 1, 0)));
    repo.increment_declined(8);
    assert_eq!(repo.get_stat_for_user(8), Some(UserStats::new(8, 1, 0, 1)));
    repo.increment_accepted(9);
    assert_eq!(repo.get_stat_for_user(9), Some(UserStats::new(9, 1, 1, 0)));
}
