//! The session-record lifecycle: what each store operation asks of the backing
//! document store, and what it makes of the store's answer.
//!
//! Each operation is split at the store call. A `plan_*` or `prepare_*`
//! function computes what to write; the caller performs the write and hands the
//! outcome to the matching `finish_*` function (or, for reads, to `load_step`).
//! The backing store itself is described by `StoreModel` and the `*_in`
//! functions, which the laws in `laws` speak of.
use vstd::prelude::*;
use crate::codec::{decode, encode, json_map_of, json_text_of, SessionState};
use crate::dates::{compute_expiry, expiry_of, now_millis, Ttl, MAX_UTC_MILLIS, MIN_UTC_MILLIS};
use crate::session_key::{generate_session_key, is_session_key};

verus! {

/// A record as the backing store holds it: the encoded state and its absolute
/// expiry in milliseconds since the epoch.
#[derive(Clone, Debug)]
pub struct StoredRecord {
    pub token: String,
    pub expiry_ms: i64,
}

impl View for StoredRecord {
    type V = (Seq<char>, i64);

    open spec fn view(&self) -> (Seq<char>, i64) {
        (self.token@, self.expiry_ms)
    }
}

/// The fields that a merge overwrites on an existing record; a field that is
/// `None` is left as it is.
#[derive(Clone, Debug)]
pub struct RecordPatch {
    pub token: Option<String>,
    pub expiry_ms: Option<i64>,
}

impl RecordPatch {
    pub open spec fn token_view(&self) -> Option<Seq<char>> {
        match self.token {
            Some(t) => Some(t@),
            None => None,
        }
    }
}

/// A failure of an operation other than encoding or decoding.
#[derive(Clone, Copy, Debug, PartialEq, Eq, Structural)]
pub enum Failure {
    /// The time-to-live gives an expiry that cannot be represented.
    InvalidDuration,
    /// The backing store could not read the record.
    ReadFailed,
    /// The backing store could not create the record.
    CreateFailed,
    /// The backing store could not update the record, or it no longer exists.
    UpdateFailed,
    /// The backing store could not delete the record.
    DeleteFailed,
}

#[derive(Clone, Copy, Debug, PartialEq, Eq, Structural)]
pub enum LoadError {
    Other(Failure),
    Deserialization,
}

#[derive(Clone, Copy, Debug, PartialEq, Eq, Structural)]
pub enum SaveError {
    Serialization,
    Other(Failure),
}

#[derive(Clone, Copy, Debug, PartialEq, Eq, Structural)]
pub enum UpdateError {
    Serialization,
    Other(Failure),
}

/// The contents of the backing store's session table: identifier to
/// (encoded state, expiry).
pub type StoreModel = Map<Seq<char>, (Seq<char>, i64)>;

/// The record that a read of `key` finds.
pub open spec fn record_at(db: StoreModel, key: Seq<char>) -> Option<(Seq<char>, i64)> {
    if db.contains_key(key) {
        Some(db[key])
    } else {
        None
    }
}

/// Creating a record: refused when the identifier is taken.
pub open spec fn create_in(db: StoreModel, key: Seq<char>, rec: (Seq<char>, i64)) -> Option<StoreModel> {
    if db.contains_key(key) {
        None
    } else {
        Some(db.insert(key, rec))
    }
}

/// Merging fields into a record: refused when there is no record; fields not
/// given keep their value.
pub open spec fn merge_in(
    db: StoreModel,
    key: Seq<char>,
    token: Option<Seq<char>>,
    expiry: Option<i64>,
) -> Option<StoreModel> {
    if !db.contains_key(key) {
        None
    } else {
        let old_rec = db[key];
        let t = match token {
            Some(t) => t,
            None => old_rec.0,
        };
        let e = match expiry {
            Some(e) => e,
            None => old_rec.1,
        };
        Some(db.insert(key, (t, e)))
    }
}

/// Deleting a record; deleting an absent one changes nothing.
pub open spec fn delete_in(db: StoreModel, key: Seq<char>) -> StoreModel {
    db.remove(key)
}

/// A record found at time `now` has expired.
pub open spec fn is_expired(rec: Option<(Seq<char>, i64)>, now: int) -> bool {
    rec matches Some(r) && r.1 < now
}

/// What a load returns when the read finds `rec` at time `now`.
pub open spec fn loaded(rec: Option<(Seq<char>, i64)>, now: int) -> Result<
    Option<Map<Seq<char>, Seq<char>>>,
    LoadError,
> {
    match rec {
        None => Ok(None),
        Some(r) => if r.1 < now {
            Ok(None)
        } else {
            match json_map_of(r.0) {
                Some(m) => Ok(Some(m)),
                None => Err(LoadError::Deserialization),
            }
        },
    }
}

pub open spec fn load_result_view(r: Result<Option<SessionState>, LoadError>) -> Result<
    Option<Map<Seq<char>, Seq<char>>>,
    LoadError,
> {
    match r {
        Ok(Some(s)) => Ok(Some(s@)),
        Ok(None) => Ok(None),
        Err(e) => Err(e),
    }
}

pub open spec fn fetched_view(f: Option<StoredRecord>) -> Option<(Seq<char>, i64)> {
    match f {
        Some(r) => Some(r@),
        None => None,
    }
}

/// The next step of a load, once the read has answered.
pub enum LoadStep {
    /// The load is over with this result.
    Done(Result<Option<SessionState>, LoadError>),
    /// The record has expired: delete it, then finish with `after_eviction`.
    Evict,
}

/// `r` is the next step of a load whose read gave `fetched` at time `now`.
pub open spec fn is_load_step(fetched: Result<Option<StoredRecord>, ()>, now: int, r: LoadStep) -> bool {
    match fetched {
        Err(_) => r == LoadStep::Done(Err(LoadError::Other(Failure::ReadFailed))),
        Ok(f) => (r is Evict <==> is_expired(fetched_view(f), now)) && (r matches LoadStep::Done(res)
            ==> load_result_view(res) == loaded(fetched_view(f), now)),
    }
}

/// Decides a load from the outcome of reading the record at time `now_ms`.
pub fn load_step(fetched: Result<Option<StoredRecord>, ()>, now_ms: i64) -> (r: LoadStep)
    ensures
        is_load_step(fetched, now_ms as int, r),
{
    match fetched {
        Err(_) => LoadStep::Done(Err(LoadError::Other(Failure::ReadFailed))),
        Ok(None) => LoadStep::Done(Ok(None)),
        Ok(Some(rec)) => {
            if rec.expiry_ms < now_ms {
                LoadStep::Evict
            } else {
                match decode(rec.token.as_str()) {
                    Ok(s) => LoadStep::Done(Ok(Some(s))),
                    Err(_) => LoadStep::Done(Err(LoadError::Deserialization)),
                }
            }
        },
    }
}

/// Decides a load from the outcome of reading the record, at the current time.
pub fn load_now(fetched: Result<Option<StoredRecord>, ()>) -> (r: LoadStep)
    ensures
        exists|now: int| MIN_UTC_MILLIS <= now <= MAX_UTC_MILLIS && #[trigger] is_load_step(fetched, now, r),
{
    let now = now_millis();
    let r = load_step(fetched, now);
    assert(is_load_step(fetched, now as int, r));
    r
}

/// The result of a load that evicted an expired record: no session, whether or
/// not the deletion went through.
pub fn after_eviction(deleted: Result<(), ()>) -> (r: Result<Option<SessionState>, LoadError>)
    ensures
        r matches Ok(None),
{
    match deleted {
        Ok(()) => Ok(None),
        Err(()) => Ok(None),
    }
}

/// `rec` is what a save of `state` with `ttl` at time `now` writes.
pub open spec fn saved_record(
    state: Map<Seq<char>, Seq<char>>,
    ttl: Ttl,
    now: int,
    rec: (Seq<char>, i64),
) -> bool {
    &&& rec.0 == json_text_of(state)
    &&& json_map_of(rec.0) == Some(state)
    &&& expiry_of(now, ttl.millis()) == Some(rec.1)
}

/// The record that a save of `state` with `ttl` at time `now_ms` creates.
pub fn plan_save(state: &SessionState, ttl: &Ttl, now_ms: i64) -> (r: Result<StoredRecord, SaveError>)
    ensures
        match expiry_of(now_ms as int, ttl.millis()) {
            Some(_) => r matches Ok(rec) && saved_record(state@, *ttl, now_ms as int, rec@),
            None => r == Err::<StoredRecord, SaveError>(SaveError::Other(Failure::InvalidDuration)),
        },
{
    let token = match encode(state) {
        Ok(t) => t,
        Err(_) => {
            return Err(SaveError::Serialization);
        },
    };
    match compute_expiry(now_ms, ttl) {
        Some(expiry_ms) => Ok(StoredRecord { token, expiry_ms }),
        None => Err(SaveError::Other(Failure::InvalidDuration)),
    }
}

/// A fresh key and the record to create under it for a save of `state` now.
pub fn prepare_save(state: &SessionState, ttl: &Ttl) -> (r: Result<(String, StoredRecord), SaveError>)
    ensures
        r matches Ok(p) ==> is_session_key(p.0@),
        r is Ok ==> exists|now: int|
            MIN_UTC_MILLIS <= now <= MAX_UTC_MILLIS && #[trigger] saved_record(state@, *ttl, now, r->Ok_0.1@),
        r matches Err(e) ==> e == SaveError::Other(Failure::InvalidDuration),
        !(i64::MIN <= ttl.millis() <= i64::MAX) ==> r is Err,
        ttl.millis() == 0 ==> r is Ok,
{
    let key = generate_session_key();
    let now = now_millis();
    match plan_save(state, ttl, now) {
        Ok(rec) => {
            let ghost n: int = now as int;
            assert(saved_record(state@, *ttl, n, rec@));
            let r = Ok((key, rec));
            assert(r->Ok_0.1@ == rec@);
            r
        },
        Err(e) => Err(e),
    }
}

/// The result of a save, from the outcome of creating the record under `key`.
pub fn finish_save(created: Result<(), ()>, key: String) -> (r: Result<String, SaveError>)
    ensures
        match created {
            Ok(_) => r matches Ok(k) && k@ == key@,
            Err(_) => r == Err::<String, SaveError>(SaveError::Other(Failure::CreateFailed)),
        },
{
    match created {
        Ok(()) => Ok(key),
        Err(()) => Err(SaveError::Other(Failure::CreateFailed)),
    }
}

/// `token` and `expiry` are what an update to `state` with `ttl` at time `now`
/// merges into the record.
pub open spec fn updated_fields(
    state: Map<Seq<char>, Seq<char>>,
    ttl: Ttl,
    now: int,
    token: Seq<char>,
    expiry: i64,
) -> bool {
    &&& token == json_text_of(state)
    &&& json_map_of(token) == Some(state)
    &&& expiry_of(now, ttl.millis()) == Some(expiry)
}

/// The fields that an update of the record to `state` with `ttl` at time
/// `now_ms` merges in: both the encoded state and the new expiry.
pub fn plan_update(state: &SessionState, ttl: &Ttl, now_ms: i64) -> (r: Result<RecordPatch, UpdateError>)
    ensures
        match expiry_of(now_ms as int, ttl.millis()) {
            Some(e) => r matches Ok(p) && p.token_view() == Some(json_text_of(state@))
                && p.expiry_ms == Some(e) && updated_fields(
                state@,
                *ttl,
                now_ms as int,
                json_text_of(state@),
                e,
            ),
            None => r == Err::<RecordPatch, UpdateError>(UpdateError::Other(Failure::InvalidDuration)),
        },
{
    let token = match encode(state) {
        Ok(t) => t,
        Err(_) => {
            return Err(UpdateError::Serialization);
        },
    };
    match compute_expiry(now_ms, ttl) {
        Some(expiry_ms) => Ok(RecordPatch { token: Some(token), expiry_ms: Some(expiry_ms) }),
        None => Err(UpdateError::Other(Failure::InvalidDuration)),
    }
}

/// The fields to merge for an update of the record to `state` now.
pub fn prepare_update(state: &SessionState, ttl: &Ttl) -> (r: Result<RecordPatch, UpdateError>)
    ensures
        r matches Ok(p) ==> p.token_view() == Some(json_text_of(state@)) && json_map_of(
            json_text_of(state@),
        ) == Some(state@) && p.expiry_ms is Some && exists|now: int|
            MIN_UTC_MILLIS <= now <= MAX_UTC_MILLIS && #[trigger] expiry_of(now, ttl.millis()) == p.expiry_ms,
        r matches Err(e) ==> e == UpdateError::Other(Failure::InvalidDuration),
        !(i64::MIN <= ttl.millis() <= i64::MAX) ==> r is Err,
        ttl.millis() == 0 ==> r is Ok,
{
    let now = now_millis();
    plan_update(state, ttl, now)
}

/// The result of an update of the record under `key`, from the outcome of the
/// merge. The identifier never changes.
pub fn finish_update(merged: Result<(), ()>, key: String) -> (r: Result<String, UpdateError>)
    ensures
        match merged {
            Ok(_) => r matches Ok(k) && k@ == key@,
            Err(_) => r == Err::<String, UpdateError>(UpdateError::Other(Failure::UpdateFailed)),
        },
        r matches Ok(k) ==> k@ == key@,
{
    match merged {
        Ok(()) => Ok(key),
        Err(()) => Err(UpdateError::Other(Failure::UpdateFailed)),
    }
}

/// What extending a session's time-to-live asks of the backing store.
pub enum ExtendAction {
    /// Delete the record: the time-to-live is zero or negative.
    Delete,
    /// Merge these fields (a new expiry only) into the record.
    Merge(RecordPatch),
}

/// The store after extending the session under `key` by `ttl` at time `now`,
/// when the action that `plan_extend_ttl` gives succeeds; `None` when it fails.
pub open spec fn extended_in(db: StoreModel, key: Seq<char>, ttl: Ttl, now: int) -> Option<StoreModel> {
    if ttl.spec_is_nonpositive() {
        Some(delete_in(db, key))
    } else {
        match expiry_of(now, ttl.millis()) {
            Some(e) => merge_in(db, key, None, Some(e)),
            None => None,
        }
    }
}

/// The action that extends a session by `ttl` at time `now_ms`.
pub fn plan_extend_ttl(ttl: &Ttl, now_ms: i64) -> (r: Result<ExtendAction, Failure>)
    ensures
        ttl.spec_is_nonpositive() ==> r matches Ok(ExtendAction::Delete),
        !ttl.spec_is_nonpositive() ==> match expiry_of(now_ms as int, ttl.millis()) {
            Some(e) => r matches Ok(ExtendAction::Merge(p)) && p.token is None && p.expiry_ms == Some(e),
            None => r == Err::<ExtendAction, Failure>(Failure::InvalidDuration),
        },
{
    if ttl.is_nonpositive() {
        Ok(ExtendAction::Delete)
    } else {
        match compute_expiry(now_ms, ttl) {
            Some(expiry_ms) => Ok(ExtendAction::Merge(RecordPatch { token: None, expiry_ms: Some(expiry_ms) })),
            None => Err(Failure::InvalidDuration),
        }
    }
}

/// The action that extends a session by `ttl` now.
pub fn prepare_extend_ttl(ttl: &Ttl) -> (r: Result<ExtendAction, Failure>)
    ensures
        ttl.spec_is_nonpositive() ==> r matches Ok(ExtendAction::Delete),
        !ttl.spec_is_nonpositive() ==> match r {
            Ok(ExtendAction::Merge(p)) => p.token is None && p.expiry_ms is Some && exists|now: int|
                MIN_UTC_MILLIS <= now <= MAX_UTC_MILLIS && #[trigger] expiry_of(now, ttl.millis()) == p.expiry_ms,
            Ok(ExtendAction::Delete) => false,
            Err(e) => e == Failure::InvalidDuration,
        },
        ttl.millis() == 0 ==> r is Ok,
{
    let now = now_millis();
    plan_extend_ttl(ttl, now)
}

/// The result of extending a session, from the outcome of `action`.
pub fn finish_extend_ttl(action: &ExtendAction, outcome: Result<(), ()>) -> (r: Result<(), Failure>)
    ensures
        match outcome {
            Ok(_) => r is Ok,
            Err(_) => r == Err::<(), Failure>(
                match action {
                    ExtendAction::Delete => Failure::DeleteFailed,
                    ExtendAction::Merge(_) => Failure::UpdateFailed,
                },
            ),
        },
{
    match outcome {
        Ok(()) => Ok(()),
        Err(()) => match action {
            ExtendAction::Delete => Err(Failure::DeleteFailed),
            ExtendAction::Merge(_) => Err(Failure::UpdateFailed),
        },
    }
}

/// The result of deleting a session, from the outcome of the deletion.
pub fn finish_delete(deleted: Result<(), ()>) -> (r: Result<(), Failure>)
    ensures
        match deleted {
            Ok(_) => r is Ok,
            Err(_) => r == Err::<(), Failure>(Failure::DeleteFailed),
        },
{
    match deleted {
        Ok(()) => Ok(()),
        Err(()) => Err(Failure::DeleteFailed),
    }
}

} // verus!
