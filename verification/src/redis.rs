//! The Redis connection pool and the round trip that checks it before the
//! server starts: write a probe value under a probe key, read it back.
use crate::http::same_text;
use vstd::prelude::*;

verus! {

/// The Redis connection pool of the server.
#[derive(Clone, Copy, Debug)]
pub struct RedisPool;

impl RedisPool {
    pub open spec fn spec_probe_key() -> Seq<char> {
        "foo"@
    }

    pub open spec fn spec_probe_value() -> Seq<char> {
        "bar"@
    }

    /// The key the start-up check writes.
    pub fn probe_key() -> (k: &'static str)
        ensures
            k@ == Self::spec_probe_key(),
            k@ == "foo"@,
    {
        "foo"
    }

    /// The value the start-up check writes.
    pub fn probe_value() -> (v: &'static str)
        ensures
            v@ == Self::spec_probe_value(),
            v@ == "bar"@,
    {
        "bar"
    }

    /// Whether what was read back under the probe key is the probe value.
    pub fn probe_answered(reply: &str) -> (ok: bool)
        ensures
            ok == (reply@ == Self::spec_probe_value()),
            ok == (reply@ == "bar"@),
    {
        same_text(reply, "bar")
    }
}

/// The start-up check passes on reading back exactly the value it wrote, and
/// on nothing else.
pub proof fn probe_round_trip(reply: Seq<char>)
    ensures
        RedisPool::spec_probe_value() == "bar"@,
        RedisPool::spec_probe_key() == "foo"@,
        (reply == RedisPool::spec_probe_value()) == (reply == "bar"@),
{
}

} // verus!
