use vstd::prelude::*;

verus! {

/// Wait between two passes of the telemetry loop.
pub const TELEMETRY_PERIOD_MS: u64 = 2000;

/// Wait before a failed subscribe is tried again within the same pass.
pub const SUBSCRIBE_RETRY_MS: u64 = 500;

/// Wait before a new cycle after a session failed or ended.
pub const SESSION_RESTART_MS: u64 = 3000;

/// Wait before a failed link connection is tried again.
pub const LINK_RETRY_MS: u64 = 5000;

/// Keep-alive interval of a messaging session.
pub const KEEP_ALIVE_SECS: u64 = 60;

/// Decides which link error codes are fatal to the device (a restart) rather
/// than transient (a retry after `LINK_RETRY_MS`).
pub struct LinkFaultPolicy {
    pub fatal_codes: Vec<i32>,
}

impl LinkFaultPolicy {
    pub open spec fn is_fatal_spec(&self, code: i32) -> bool {
        self.fatal_codes@.contains(code)
    }

    pub fn new(fatal_codes: Vec<i32>) -> (r: LinkFaultPolicy)
        ensures
            r.fatal_codes@ == fatal_codes@,
    {
        LinkFaultPolicy { fatal_codes }
    }

    /// A policy under which exactly one code is fatal.
    pub fn single(code: i32) -> (r: LinkFaultPolicy)
        ensures
            r.fatal_codes@ == seq![code],
            forall|c: i32| r.is_fatal_spec(c) <==> c == code,
    {
        let mut v: Vec<i32> = Vec::new();
        v.push(code);
        let r = LinkFaultPolicy { fatal_codes: v };
        assert forall|c: i32| r.is_fatal_spec(c) <==> c == code by {
            if c == code {
                assert(r.fatal_codes@[0] == c);
            }
        }
        r
    }

    /// Whether a link error with this code must restart the device.
    pub fn is_fatal(&self, code: i32) -> (r: bool)
        ensures
            r == self.is_fatal_spec(code),
    {
        let mut i: usize = 0;
        while i < self.fatal_codes.len()
            invariant
                i <= self.fatal_codes@.len(),
                forall|j: int| 0 <= j < i ==> self.fatal_codes@[j] != code,
            decreases self.fatal_codes@.len() - i,
        {
            if self.fatal_codes[i] == code {
                return true;
            }
            i = i + 1;
        }
        false
    }
}

} // verus!
