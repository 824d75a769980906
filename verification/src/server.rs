//! The HTTP server's configuration: which address the listener binds.
//!
//! Running the listener itself is wire-level work that lives outside the
//! library; it reads this configuration and dispatches each decoded
//! request to the router.

use vstd::prelude::*;

verus! {

/// Where the HTTP listener binds.
#[derive(Debug, Clone, PartialEq)]
pub struct TodoServer {
    pub host: String,
    pub port: u16,
}

impl TodoServer {
    pub fn new(host: String, port: u16) -> (r: TodoServer)
        ensures
            r.host@ == host@,
            r.port == port,
    {
        TodoServer { host, port }
    }
}

} // verus!
