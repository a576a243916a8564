//! Session persistence for actix-session backed by a SurrealDB table.
//!
//! The library holds the decisions of the session-record lifecycle: how keys
//! are minted, how a time-to-live becomes an absolute expiry, how session
//! state is encoded, and what each store operation asks of the backing store
//! and makes of its answer.
pub mod codec;
pub mod dates;
pub mod laws;
pub mod session_key;
pub mod store;
