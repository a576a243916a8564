//! Laws of the session lifecycle over the backing-store model.
use vstd::prelude::*;
use crate::dates::Ttl;
use crate::store::{
    create_in, delete_in, extended_in, is_expired, loaded, merge_in, record_at, saved_record,
    updated_fields, LoadError, StoreModel,
};

verus! {

/// A save with a time-to-live that is not negative, read back at once under the
/// new identifier, gives back the saved state.
pub proof fn lemma_save_then_load(
    db: StoreModel,
    key: Seq<char>,
    state: Map<Seq<char>, Seq<char>>,
    ttl: Ttl,
    now: int,
    rec: (Seq<char>, i64),
)
    requires
        ttl.millis() >= 0,
        saved_record(state, ttl, now, rec),
        !db.contains_key(key),
    ensures
        create_in(db, key, rec) matches Some(db2) && loaded(record_at(db2, key), now) == Ok::<
            Option<Map<Seq<char>, Seq<char>>>,
            LoadError,
        >(Some(state)),
{
    let db2 = db.insert(key, rec);
    assert(record_at(db2, key) == Some(rec));
}

/// An update with a time-to-live that is not negative, read back at once,
/// gives the new state.
pub proof fn lemma_update_then_load(
    db: StoreModel,
    key: Seq<char>,
    state: Map<Seq<char>, Seq<char>>,
    ttl: Ttl,
    now: int,
    token: Seq<char>,
    expiry: i64,
)
    requires
        ttl.millis() >= 0,
        updated_fields(state, ttl, now, token, expiry),
        db.contains_key(key),
    ensures
        merge_in(db, key, Some(token), Some(expiry)) matches Some(db2) && loaded(record_at(db2, key), now)
            == Ok::<Option<Map<Seq<char>, Seq<char>>>, LoadError>(Some(state)),
{
    let db2 = db.insert(key, (token, expiry));
    assert(record_at(db2, key) == Some((token, expiry)));
}

/// Merging into a record that does not exist fails, so an update of a deleted
/// session reports a store failure.
pub proof fn lemma_update_of_missing_record_fails(
    db: StoreModel,
    key: Seq<char>,
    token: Option<Seq<char>>,
    expiry: Option<i64>,
)
    requires
        !db.contains_key(key),
    ensures
        merge_in(db, key, token, expiry) is None,
        merge_in(delete_in(db, key), key, token, expiry) is None,
{
}

/// An identifier that no record was created under loads as no session.
pub proof fn lemma_unknown_key_loads_none(db: StoreModel, key: Seq<char>, now: int)
    requires
        !db.contains_key(key),
    ensures
        loaded(record_at(db, key), now) == Ok::<Option<Map<Seq<char>, Seq<char>>>, LoadError>(None),
{
}

/// A record whose expiry has passed loads as no session, and so does every
/// later load, whether or not evicting it succeeded.
pub proof fn lemma_expired_stays_gone(db: StoreModel, key: Seq<char>, now: int, later: int)
    requires
        db.contains_key(key),
        db[key].1 < now,
        now <= later,
    ensures
        is_expired(record_at(db, key), now),
        loaded(record_at(db, key), now) == Ok::<Option<Map<Seq<char>, Seq<char>>>, LoadError>(None),
        loaded(record_at(delete_in(db, key), key), later) == Ok::<
            Option<Map<Seq<char>, Seq<char>>>,
            LoadError,
        >(None),
        loaded(record_at(db, key), later) == Ok::<Option<Map<Seq<char>, Seq<char>>>, LoadError>(
            None,
        ),
{
}

/// Extending by a time-to-live that is zero or negative deletes the record, so
/// every later load finds no session.
pub proof fn lemma_nonpositive_extend_ends_session(
    db: StoreModel,
    key: Seq<char>,
    ttl: Ttl,
    now: int,
    later: int,
)
    requires
        ttl.spec_is_nonpositive(),
    ensures
        extended_in(db, key, ttl, now) matches Some(db2) && loaded(record_at(db2, key), later) == Ok::<
            Option<Map<Seq<char>, Seq<char>>>,
            LoadError,
        >(None),
{
}

/// Deleting twice leaves the store as deleting once, and a load after either
/// finds no session.
pub proof fn lemma_delete_idempotent(db: StoreModel, key: Seq<char>, now: int)
    ensures
        delete_in(delete_in(db, key), key) == delete_in(db, key),
        loaded(record_at(delete_in(db, key), key), now) == Ok::<
            Option<Map<Seq<char>, Seq<char>>>,
            LoadError,
        >(None),
        loaded(record_at(delete_in(delete_in(db, key), key), key), now) == Ok::<
            Option<Map<Seq<char>, Seq<char>>>,
            LoadError,
        >(None),
{
    assert(delete_in(delete_in(db, key), key) =~= delete_in(db, key));
}

} // verus!
