use vstd::prelude::*;

verus! {

/// Server configuration shared with every request handler.
#[derive(Debug)]
pub struct Config {
    pub jwt_secret: String,
}

impl Config {
    /// Builds a configuration from the secret used to sign access tokens.
    pub fn new(jwt_secret: String) -> (c: Config)
        ensures
            c.jwt_secret@ == jwt_secret@,
    {
        Config { jwt_secret }
    }
}

} // verus!
