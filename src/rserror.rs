//! Error of the recording front end.

use vstd::prelude::*;

verus! {

/// A failure of the recording front end, in words.
#[derive(Debug)]
pub struct RsError {
    pub msg: String,
}

impl RsError {
    /// An error with this message.
    pub fn with_msg(msg: &str) -> (r: RsError)
        ensures
            r.msg@ == msg@,
    {
        RsError { msg: String::from_str(msg) }
    }
}

} // verus!
