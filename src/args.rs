//! The settings the server is started with.
use vstd::prelude::*;

verus! {

/// Where the server listens and which database it uses.
pub struct RunArgs {
    pub adress: String,
    pub port: u16,
    pub db: String,
    pub db_name: String,
}

} // verus!
