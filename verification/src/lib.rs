use vstd::prelude::*;

pub mod errors;
pub mod laws;
pub mod listing_laws;
pub mod models;

verus! {

/// The blog service: the port that its HTTP server listens on.
pub struct Blog {
    port: u16,
}

impl Blog {
    /// A blog service that will listen on `port`.
    pub fn new(port: u16) -> (blog: Blog)
        ensures
            blog.port() == port,
    {
        Blog { port }
    }

    /// The port that the service listens on, in specifications.
    pub closed spec fn spec_port(&self) -> u16 {
        self.port
    }

    /// The port that the service listens on.
    #[verifier::when_used_as_spec(spec_port)]
    pub fn port(&self) -> (p: u16)
        ensures
            p == self.spec_port(),
    {
        self.port
    }
}

} // verus!
