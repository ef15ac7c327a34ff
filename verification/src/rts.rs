//! The realtime API under its earlier module name.
pub use crate::realtime::{Action, Change, ConnectedRealtimeManager, RealtimeManager, RecordBase};
