//! Session state and its stored text form (a JSON object of strings).
use vstd::prelude::*;

verus! {

/// The map of strings that a list of entries describes; a later entry for a
/// key replaces an earlier one.
pub open spec fn pairs_map(s: Seq<(Seq<char>, Seq<char>)>) -> Map<Seq<char>, Seq<char>>
    decreases s.len(),
{
    if s.len() == 0 {
        Map::empty()
    } else {
        pairs_map(s.drop_last()).insert(s.last().0, s.last().1)
    }
}

/// Application session data: string keys to string values.
#[derive(Clone, Debug)]
pub struct SessionState {
    pub entries: Vec<(String, String)>,
}

impl SessionState {
    pub open spec fn entries_view(&self) -> Seq<(Seq<char>, Seq<char>)> {
        self.entries@.map_values(|p: (String, String)| (p.0@, p.1@))
    }

    pub fn new() -> (r: SessionState)
        ensures
            r@ == Map::<Seq<char>, Seq<char>>::empty(),
    {
        let r = SessionState { entries: Vec::new() };
        assert(r.entries_view().len() == 0);
        r
    }

    /// Sets `key` to `value`.
    pub fn insert(&mut self, key: String, value: String)
        ensures
            final(self)@ == old(self)@.insert(key@, value@),
    {
        let ghost before = self.entries_view();
        self.entries.push((key, value));
        assert(self.entries_view().drop_last() =~= before);
    }
}

impl View for SessionState {
    type V = Map<Seq<char>, Seq<char>>;

    open spec fn view(&self) -> Map<Seq<char>, Seq<char>> {
        pairs_map(self.entries_view())
    }
}

/// The JSON text that serde_json writes for the object holding `m`.
pub uninterp spec fn json_text_of(m: Map<Seq<char>, Seq<char>>) -> Seq<char>;

/// The map of strings that serde_json reads from `t`, if `t` is a JSON object
/// whose values are all strings.
pub uninterp spec fn json_map_of(t: Seq<char>) -> Option<Map<Seq<char>, Seq<char>>>;

#[verifier::external_type_specification]
#[verifier::external_body]
pub struct ExJsonError(serde_json::Error);

/// Relies on `serde_json::to_string` on a `serde_json::Map` (ordered by key) of
/// string values: the text depends on the map alone, writing a map with string
/// keys does not fail, and reading the text back gives the same map.
#[verifier::external_body]
fn to_json(state: &SessionState) -> (r: Result<String, serde_json::Error>)
    ensures
        r is Ok,
        r matches Ok(t) ==> t@ == json_text_of(state@) && json_map_of(t@) == Some(state@),
{
    let m: serde_json::Map<String, serde_json::Value> = state.entries.iter().map(
        |p| (p.0.clone(), serde_json::Value::String(p.1.clone())),
    ).collect();
    serde_json::to_string(&m)
}

/// Relies on `serde_json::from_str` into a `HashMap<String, String>`: it fails
/// exactly on text that is not a JSON object of strings.
#[verifier::external_body]
fn from_json(text: &str) -> (r: Result<SessionState, serde_json::Error>)
    ensures
        match r {
            Ok(s) => json_map_of(text@) == Some(s@),
            Err(_) => json_map_of(text@) is None,
        },
{
    match serde_json::from_str::<std::collections::HashMap<String, String>>(text) {
        Ok(m) => Ok(SessionState { entries: m.into_iter().collect() }),
        Err(e) => Err(e),
    }
}

/// Why session state could not be turned into, or read from, its text form.
#[derive(Clone, Copy, Debug, PartialEq, Eq, Structural)]
pub enum CodecError {
    Serialization,
    Deserialization,
}

/// The stored text of `state`.
pub fn encode(state: &SessionState) -> (r: Result<String, CodecError>)
    ensures
        r matches Ok(t) && t@ == json_text_of(state@) && json_map_of(t@) == Some(state@),
{
    match to_json(state) {
        Ok(t) => Ok(t),
        Err(_) => Err(CodecError::Serialization),
    }
}

/// The session state stored as `text`; malformed text is an error, never an
/// empty state.
pub fn decode(text: &str) -> (r: Result<SessionState, CodecError>)
    ensures
        match json_map_of(text@) {
            Some(m) => r matches Ok(s) && s@ == m,
            None => r == Err::<SessionState, CodecError>(CodecError::Deserialization),
        },
{
    match from_json(text) {
        Ok(s) => Ok(s),
        Err(_) => Err(CodecError::Deserialization),
    }
}

} // verus!
