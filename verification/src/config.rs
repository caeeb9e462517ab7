use vstd::prelude::*;

verus! {

/// Runtime settings of the server process. Reading them from the environment
/// is the embedding program's job; the library only carries the values.
pub struct Config {
    pub database_url: String,
    pub port: u16,
}

} // verus!
