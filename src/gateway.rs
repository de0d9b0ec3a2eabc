use vstd::prelude::*;
use crate::error::{ElodonError, ElodonErrorList};
use crate::filters::Filter;

verus! {

/// How a store call failed: no row where one was expected, or anything else.
#[derive(Debug)]
pub enum StoreFailure {
    NoRows,
    Other(sqlx::Error),
}

/// Relies on `sqlx::Error::RowNotFound` being the variant by which the store
/// client reports that a query expecting a row returned none; any other
/// error is passed on as it came.
#[verifier::external_body]
fn store_failure(e: sqlx::Error) -> (r: StoreFailure)
    ensures
        r matches StoreFailure::Other(x) ==> x == e,
{
    match e {
        sqlx::Error::RowNotFound => StoreFailure::NoRows,
        other => StoreFailure::Other(other),
    }
}

/// `e` is the "nothing matched" error for a search of `filter`: it names the
/// table searched and carries the filter's description.
pub open spec fn not_found_for<F: Filter>(filter: F, e: ElodonError) -> bool {
    e.is_not_found_for(F::spec_table(), filter.spec_general().spec_description())
}

fn not_found<F: Filter>(filter: &F) -> (e: ElodonError)
    ensures
        not_found_for(*filter, e),
{
    ElodonError::NoResults {
        search: String::from_str(F::table_name()),
        id: filter.render_description(),
    }
}

/// Classifies the outcome of fetching one entity: a row is returned, "no rows"
/// becomes `NoResults`, any other failure a `DatabaseError`.
pub fn classify_one<F: Filter, T>(filter: &F, outcome: Result<T, StoreFailure>) -> (r: Result<T, ElodonError>)
    ensures
        outcome matches Ok(v) ==> r == Ok::<T, ElodonError>(v),
        outcome matches Err(StoreFailure::NoRows) ==> (r matches Err(e) && not_found_for(*filter, e)),
        outcome matches Err(StoreFailure::Other(x)) ==> r == Err::<T, ElodonError>(ElodonError::DatabaseError(x)),
{
    match outcome {
        Ok(v) => Ok(v),
        Err(StoreFailure::NoRows) => Err(not_found(filter)),
        Err(StoreFailure::Other(x)) => Err(ElodonError::DatabaseError(x)),
    }
}

/// Classifies the outcome of fetching every matching entity. Zero rows is
/// always `NoResults`, never an empty collection.
pub fn classify_all<F: Filter, T>(filter: &F, outcome: Result<Vec<T>, StoreFailure>) -> (r: Result<Vec<T>, ElodonError>)
    ensures
        outcome matches Ok(v) ==> (v@.len() > 0 ==> r == Ok::<Vec<T>, ElodonError>(v)),
        outcome matches Ok(v) ==> (v@.len() == 0 ==> (r matches Err(e) && not_found_for(*filter, e))),
        outcome matches Err(StoreFailure::NoRows) ==> (r matches Err(e) && not_found_for(*filter, e)),
        outcome matches Err(StoreFailure::Other(x)) ==> r == Err::<Vec<T>, ElodonError>(ElodonError::DatabaseError(x)),
        r matches Ok(v) ==> v@.len() > 0,
{
    match outcome {
        Ok(v) => {
            if v.len() == 0 {
                Err(not_found(filter))
            } else {
                Ok(v)
            }
        },
        Err(StoreFailure::NoRows) => Err(not_found(filter)),
        Err(StoreFailure::Other(x)) => Err(ElodonError::DatabaseError(x)),
    }
}

/// The outcome of a store call that fetched one entity, classified. A store
/// error becomes `NoResults` when it reports that no row was found, else a
/// `DatabaseError` holding it.
pub fn fetch_one_result<F: Filter, T>(filter: &F, outcome: Result<T, sqlx::Error>) -> (r: Result<T, ElodonError>)
    ensures
        outcome matches Ok(v) ==> r == Ok::<T, ElodonError>(v),
        outcome matches Err(x) ==> (r matches Err(e) && (not_found_for(*filter, e)
            || e == ElodonError::DatabaseError(x))),
{
    match outcome {
        Ok(v) => classify_one(filter, Ok(v)),
        Err(x) => classify_one(filter, Err(store_failure(x))),
    }
}

/// The outcome of a store call that fetched every matching entity, classified
/// as `classify_all` does.
pub fn fetch_all_result<F: Filter, T>(filter: &F, outcome: Result<Vec<T>, sqlx::Error>) -> (r: Result<Vec<T>, ElodonError>)
    ensures
        outcome matches Ok(v) ==> (v@.len() > 0 ==> r == Ok::<Vec<T>, ElodonError>(v)),
        outcome matches Ok(v) ==> (v@.len() == 0 ==> (r matches Err(e) && not_found_for(*filter, e))),
        outcome matches Err(x) ==> (r matches Err(e) && (not_found_for(*filter, e)
            || e == ElodonError::DatabaseError(x))),
        r matches Ok(v) ==> v@.len() > 0,
{
    match outcome {
        Ok(v) => classify_all(filter, Ok(v)),
        Err(x) => classify_all(filter, Err(store_failure(x))),
    }
}

/// The columns of a song row.
pub open spec fn song_columns() -> Seq<char> {
    "song_id, song_name_eng, song_name_jap, genre_id"@
}

/// The query for songs whose English or Japanese name is like a bound
/// pattern (`?`); with a genre, a bound genre id (`?`) follows each pattern.
pub open spec fn spec_song_search_query(with_genre: bool) -> Seq<char> {
    if with_genre {
        "SELECT "@ + song_columns() + " FROM songs WHERE song_name_eng LIKE ? AND genre_id = ? UNION SELECT "@
            + song_columns() + " FROM songs WHERE song_name_jap LIKE ? AND genre_id = ?"@
    } else {
        "SELECT "@ + song_columns() + " FROM songs WHERE song_name_eng LIKE ? UNION SELECT "@
            + song_columns() + " FROM songs WHERE song_name_jap LIKE ?"@
    }
}

/// The query that searches songs by a name fragment (see
/// `spec_song_search_query`).
pub fn song_search_query(with_genre: bool) -> (r: String)
    ensures
        r@ == spec_song_search_query(with_genre),
{
    let columns = "song_id, song_name_eng, song_name_jap, genre_id";
    if with_genre {
        String::from_str("SELECT ").concat(columns).concat(
            " FROM songs WHERE song_name_eng LIKE ? AND genre_id = ? UNION SELECT ",
        ).concat(columns).concat(" FROM songs WHERE song_name_jap LIKE ? AND genre_id = ?")
    } else {
        String::from_str("SELECT ").concat(columns).concat(" FROM songs WHERE song_name_eng LIKE ? UNION SELECT ").concat(
            columns,
        ).concat(" FROM songs WHERE song_name_jap LIKE ?")
    }
}

/// The pattern that matches any name containing `fragment`.
pub fn like_pattern(fragment: &str) -> (r: String)
    ensures
        r@ == "%"@ + fragment@ + "%"@,
{
    String::from_str("%").concat(fragment).concat("%")
}

/// What a song search reports when nothing matched.
pub open spec fn song_search_description(fragment: Seq<char>) -> Seq<char> {
    "the name contains "@ + fragment
}

/// Classifies the outcome of a song search: the songs found, `NoResults`
/// (naming `song` and the fragment) when none or "no rows", any other
/// failure a `DatabaseError`.
pub fn classify_song_search<T>(fragment: &str, outcome: Result<Vec<T>, StoreFailure>) -> (r: Result<Vec<T>, ElodonError>)
    ensures
        outcome matches Ok(v) ==> (v@.len() > 0 ==> r == Ok::<Vec<T>, ElodonError>(v)),
        outcome matches Ok(v) ==> (v@.len() == 0 ==> (r matches Err(e) && e.is_not_found_for(
            "song"@,
            song_search_description(fragment@),
        ))),
        outcome matches Err(StoreFailure::NoRows) ==> (r matches Err(e) && e.is_not_found_for(
            "song"@,
            song_search_description(fragment@),
        )),
        outcome matches Err(StoreFailure::Other(x)) ==> r == Err::<Vec<T>, ElodonError>(ElodonError::DatabaseError(x)),
{
    let not_found = ElodonError::NoResults {
        search: String::from_str("song"),
        id: String::from_str("the name contains ").concat(fragment),
    };
    match outcome {
        Ok(v) => {
            if v.len() == 0 {
                Err(not_found)
            } else {
                Ok(v)
            }
        },
        Err(StoreFailure::NoRows) => Err(not_found),
        Err(StoreFailure::Other(x)) => Err(ElodonError::DatabaseError(x)),
    }
}

/// The outcome of a song search as the store client returned it, classified
/// as `classify_song_search` does.
pub fn song_search_result<T>(fragment: &str, outcome: Result<Vec<T>, sqlx::Error>) -> (r: Result<Vec<T>, ElodonError>)
    ensures
        outcome matches Ok(v) ==> (v@.len() > 0 ==> r == Ok::<Vec<T>, ElodonError>(v)),
        outcome matches Ok(v) ==> (v@.len() == 0 ==> (r matches Err(e) && e.is_not_found_for(
            "song"@,
            song_search_description(fragment@),
        ))),
        outcome matches Err(x) ==> (r matches Err(e) && (e.is_not_found_for(
            "song"@,
            song_search_description(fragment@),
        ) || e == ElodonError::DatabaseError(x))),
{
    match outcome {
        Ok(v) => classify_song_search(fragment, Ok(v)),
        Err(x) => classify_song_search(fragment, Err(store_failure(x))),
    }
}

/// The values of the successful outcomes, in order.
pub open spec fn successes<T>(s: Seq<Result<T, ElodonError>>) -> Seq<T>
    decreases s.len(),
{
    if s.len() == 0 {
        Seq::empty()
    } else {
        match s.last() {
            Ok(v) => successes(s.drop_last()).push(v),
            Err(_) => successes(s.drop_last()),
        }
    }
}

/// The errors of the failed outcomes, in order.
pub open spec fn failures<T>(s: Seq<Result<T, ElodonError>>) -> Seq<ElodonError>
    decreases s.len(),
{
    if s.len() == 0 {
        Seq::empty()
    } else {
        match s.last() {
            Ok(_) => failures(s.drop_last()),
            Err(e) => failures(s.drop_last()).push(e),
        }
    }
}

/// What a batch of related lookups has produced so far: the entities found
/// and the failures, each in the order the lookups were made.
pub struct BatchOutcome<T> {
    pub resolved: Vec<T>,
    pub warnings: ElodonErrorList,
}

impl<T> BatchOutcome<T> {
    pub fn new() -> (r: BatchOutcome<T>)
        ensures
            r.resolved@ == Seq::<T>::empty(),
            r.warnings.view() == Seq::<ElodonError>::empty(),
    {
        BatchOutcome { resolved: Vec::new(), warnings: ElodonErrorList::new() }
    }

    /// Records one lookup: a found entity is kept, a failure becomes a
    /// warning; neither stops the batch.
    pub fn record(&mut self, outcome: Result<T, ElodonError>)
        ensures
            outcome matches Ok(v) ==> final(self).resolved@ == old(self).resolved@.push(v)
                && final(self).warnings.view() == old(self).warnings.view(),
            outcome matches Err(e) ==> final(self).resolved@ == old(self).resolved@
                && final(self).warnings.view() == old(self).warnings.view().push(e),
    {
        match outcome {
            Ok(v) => self.resolved.push(v),
            Err(e) => self.warnings.push(e),
        }
    }

    /// Ends the batch: the entities found, and `Ok` when nothing failed, else
    /// the failures gathered in one `List` error.
    pub fn finish(self) -> (r: (Vec<T>, Result<(), ElodonError>))
        ensures
            r.0@ == self.resolved@,
            self.warnings.view().len() == 0 ==> r.1 is Ok,
            self.warnings.view().len() > 0 ==> r.1 == Err::<(), ElodonError>(ElodonError::List(self.warnings)),
    {
        let BatchOutcome { resolved, warnings } = self;
        if warnings.is_empty() {
            (resolved, Ok(()))
        } else {
            (resolved, Err(ElodonError::List(warnings)))
        }
    }
}

/// Gathers the outcomes of a batch of lookups, made in order: every success is
/// kept, and the failures become one `List` error beside them.
pub fn gather<T>(outcomes: Vec<Result<T, ElodonError>>) -> (r: (Vec<T>, Result<(), ElodonError>))
    ensures
        r.0@ == successes(outcomes@),
        failures(outcomes@).len() == 0 ==> r.1 is Ok,
        failures(outcomes@).len() > 0 ==> (r.1 matches Err(ElodonError::List(list))
            && list.view() == failures(outcomes@)),
{
    let ghost all = outcomes@;
    let mut rest = outcomes;
    let mut batch: BatchOutcome<T> = BatchOutcome::new();
    let ghost mut i: int = 0;
    while rest.len() > 0
        invariant
            0 <= i <= all.len(),
            rest@ == all.subrange(i, all.len() as int),
            batch.resolved@ == successes(all.subrange(0, i)),
            batch.warnings.view() == failures(all.subrange(0, i)),
        decreases rest.len(),
    {
        let o = rest.remove(0);
        proof {
            assert(all.subrange(0, i + 1).drop_last() =~= all.subrange(0, i));
            assert(all.subrange(0, i + 1).last() == o);
        }
        batch.record(o);
        proof {
            i = i + 1;
            assert(rest@ =~= all.subrange(i, all.len() as int));
        }
    }
    assert(all.subrange(0, i) =~= all);
    batch.finish()
}

} // verus!
