use vstd::prelude::*;

verus! {

/// Process configuration: where the backing store lives and which port the
/// HTTP listener binds. Parsed from the command line or environment by the
/// surrounding application and handed in as plain strings.
pub struct Config {
    pub database_url: String,
    pub port: String,
}

} // verus!
