//! A request-deduplicating, staleness-aware cache engine.
//!
//! The engine is a pure state machine: every operation takes the current
//! time as a plain number and answers with the work that the surrounding
//! runtime has to perform (start a fetch, arm or cancel an eviction timer).
//! The runtime reports back through [`QueryClient::complete_fetch`] and
//! [`QueryClient::timer_fired`].

pub mod status;
pub mod query;
pub mod store;
pub mod query_client;
pub mod query_result;
pub mod laws;

pub use crate::query::{FetchTicket, Query, QueryOptions, TimerAction};
pub use crate::query_client::{Effects, QueryClient, Switch};
pub use crate::query_result::QueryResult;
pub use crate::status::Status;
pub use crate::store::TypedStore;
