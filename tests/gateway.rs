use elodon::error::ElodonError;
use elodon::filters::{PlayFilter, SongFilter, UserFilter};
use elodon::gateway::{
    classify_all, classify_one, classify_song_search, fetch_all_result, fetch_one_result, gather, like_pattern,
    song_search_query, song_search_result, BatchOutcome, StoreFailure,
};

#[test]
fn zero_rows_is_not_found() {
    let f = PlayFilter::new().song_id(Some(8));
    let r = classify_all::<PlayFilter, u32>(&f, Ok(vec![]));
    match r {
        Err(ElodonError::NoResults { search, id }) => {
            assert_eq!(search, "top_plays");
            assert_eq!(id, " where song_id is 8");
        }
        other => panic!("expected NoResults, got {:?}", other),
    }
}

#[test]
fn rows_are_returned_in_store_order() {
    let f = SongFilter::new();
    let r = classify_all(&f, Ok(vec![3u32, 1, 2]));
    assert_eq!(r.unwrap(), vec![3, 1, 2]);
    let one = classify_one(&f, Ok(5u32));
    assert_eq!(one.unwrap(), 5);
}

#[test]
fn no_rows_signal_is_not_found() {
    let f = UserFilter::new().discord_id(Some(42));
    let r = classify_one::<UserFilter, u32>(&f, Err(StoreFailure::NoRows));
    match r {
        Err(ElodonError::NoResults { search, id }) => {
            assert_eq!(search, "users");
            assert_eq!(id, " where discord <@42>");
        }
        other => panic!("expected NoResults, got {:?}", other),
    }
}

#[test]
fn store_row_not_found_becomes_not_found() {
    let f = UserFilter::new().user_id(Some(1));
    let r = fetch_one_result::<UserFilter, u32>(&f, Err(sqlx::Error::RowNotFound));
    match r {
        Err(ElodonError::NoResults { search, id }) => {
            assert_eq!(search, "users");
            assert_eq!(id, " where [user ids hidden]");
        }
        other => panic!("expected NoResults, got {:?}", other),
    }
    let all = fetch_all_result::<UserFilter, u32>(&f, Err(sqlx::Error::RowNotFound));
    assert!(matches!(all, Err(ElodonError::NoResults { .. })));
}

#[test]
fn other_store_errors_are_database_errors() {
    let f = SongFilter::new();
    let r = fetch_one_result::<SongFilter, u32>(&f, Err(sqlx::Error::PoolTimedOut));
    assert!(matches!(r, Err(ElodonError::DatabaseError(sqlx::Error::PoolTimedOut))));
    let all = fetch_all_result::<SongFilter, u32>(&f, Err(sqlx::Error::PoolClosed));
    assert!(matches!(all, Err(ElodonError::DatabaseError(sqlx::Error::PoolClosed))));
}

#[test]
fn fetch_all_result_passes_rows_and_rejects_empty() {
    let f = SongFilter::new().song_id(Some(2));
    let ok = fetch_all_result(&f, Ok(vec![7u32]));
    assert_eq!(ok.unwrap(), vec![7]);
    let empty = fetch_all_result::<SongFilter, u32>(&f, Ok(vec![]));
    assert!(matches!(empty, Err(ElodonError::NoResults { .. })));
}

#[test]
fn batch_with_one_failed_lookup() {
    let not_found = ElodonError::NoResults {
        search: "users".to_string(),
        id: " where [user ids hidden]".to_string(),
    };
    let outcomes: Vec<Result<&str, ElodonError>> = vec![Ok("alice"), Err(not_found), Ok("carol")];
    let (resolved, result) = gather(outcomes);
    assert_eq!(resolved, vec!["alice", "carol"]);
    match result {
        Err(ElodonError::List(list)) => {
            assert_eq!(list.len(), 1);
            assert!(matches!(list.errors()[0], ElodonError::NoResults { .. }));
        }
        other => panic!("expected a List error, got {:?}", other),
    }
}

#[test]
fn batch_without_failures_is_ok() {
    let mut batch = BatchOutcome::new();
    batch.record(Ok(1u32));
    batch.record(Ok(2u32));
    let (resolved, result) = batch.finish();
    assert_eq!(resolved, vec![1, 2]);
    assert!(result.is_ok());
}

#[test]
fn empty_batch_is_ok() {
    let (resolved, result) = gather::<u32>(vec![]);
    assert!(resolved.is_empty());
    assert!(result.is_ok());
}

#[test]
fn error_list_keeps_order() {
    let mut list = elodon::error::ElodonErrorList::new();
    assert!(list.is_empty());
    list.push(ElodonError::WrongLevelId(7));
    list.push(ElodonError::NoGuild);
    assert_eq!(list.len(), 2);
    assert!(!list.is_empty());
    assert!(matches!(list.errors()[0], ElodonError::WrongLevelId(7)));
    assert!(matches!(list.errors()[1], ElodonError::NoGuild));
}

#[test]
fn song_search_query_and_pattern() {
    assert_eq!(like_pattern("don"), "%don%");
    assert_eq!(
        song_search_query(false),
        "SELECT song_id, song_name_eng, song_name_jap, genre_id FROM songs WHERE song_name_eng LIKE ? \
         UNION SELECT song_id, song_name_eng, song_name_jap, genre_id FROM songs WHERE song_name_jap LIKE ?"
    );
    assert_eq!(
        song_search_query(true),
        "SELECT song_id, song_name_eng, song_name_jap, genre_id FROM songs WHERE song_name_eng LIKE ? \
         AND genre_id = ? UNION SELECT song_id, song_name_eng, song_name_jap, genre_id FROM songs \
         WHERE song_name_jap LIKE ? AND genre_id = ?"
    );
}

#[test]
fn song_search_without_matches_is_not_found() {
    match classify_song_search::<u32>("zz", Ok(vec![])) {
        Err(ElodonError::NoResults { search, id }) => {
            assert_eq!(search, "song");
            assert_eq!(id, "the name contains zz");
        }
        other => panic!("expected NoResults, got {:?}", other),
    }
    assert_eq!(classify_song_search("zz", Ok(vec![1u32])).unwrap(), vec![1]);
    assert!(matches!(
        song_search_result::<u32>("zz", Err(sqlx::Error::RowNotFound)),
        Err(ElodonError::NoResults { .. })
    ));
    assert!(matches!(
        song_search_result::<u32>("zz", Err(sqlx::Error::PoolClosed)),
        Err(ElodonError::DatabaseError(sqlx::Error::PoolClosed))
    ));
}
