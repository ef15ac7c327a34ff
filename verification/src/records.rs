//! The manager of the records of one collection.
use crate::client::{Auth, Client};
use vstd::prelude::*;

verus! {

/// Gives access to the records of the collection `name` for a signed-in
/// client.
#[derive(Debug, Clone)]
pub struct RecordsManager<'a> {
    pub client: &'a Client<Auth>,
    pub name: String,
}

} // verus!
