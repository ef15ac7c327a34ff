//! The realtime API: connecting, announcing topics, and keeping local stores
//! of records up to date with the changes the server reports.
pub mod change;
pub mod laws;
pub mod manager;
pub mod store;

pub use change::{Action, Change, OrderedRecord, Record};
pub use manager::{ConnectedRealtimeManager, RealtimeManager, RecordBase};
pub use store::Store;
