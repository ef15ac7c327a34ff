//! The manager of the server's collections.
use crate::client::{Auth, Client};
use vstd::prelude::*;

verus! {

/// Gives access to the server's collections for a signed-in client.
#[derive(Debug, Clone, Copy)]
pub struct CollectionsManager<'a> {
    pub client: &'a Client<Auth>,
}

} // verus!
