pub mod db;
pub mod router;
pub mod server;
pub mod sql;

use vstd::prelude::*;

verus! {

/// A human-readable note carried by error responses and by the
/// acknowledgement that a deletion sends back.
#[derive(Debug, Clone, PartialEq)]
pub struct Message {
    pub message: String,
}

impl Message {
    pub fn new(text: &str) -> (r: Message)
        ensures
            r.message@ == text@,
    {
        Message { message: String::from_str(text) }
    }
}

} // verus!
