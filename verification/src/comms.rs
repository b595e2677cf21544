//! A broadcast stub: a named channel with no logic of its own.  Writing a
//! message out is presentation work and lives with the caller.

use vstd::prelude::*;

verus! {

/// A notification channel, identified by name only.
pub struct CommsLink {
    pub channel: String,
}

impl CommsLink {
    /// A link on the fixed default channel.
    pub fn new() -> (link: Self)
        ensures
            link.channel@ == "QUANTUM_LINK_01"@,
    {
        Self { channel: "QUANTUM_LINK_01".to_string() }
    }
}

} // verus!
