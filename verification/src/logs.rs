//! The manager of the server's logs.
use crate::client::{Auth, Client};
use vstd::prelude::*;

verus! {

/// Gives access to the server's logs for a signed-in client.
#[derive(Debug, Clone, Copy)]
pub struct LogsManager<'a> {
    pub client: &'a Client<Auth>,
}

} // verus!
