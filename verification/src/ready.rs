use vstd::prelude::*;
use vstd::string::StringSliceAdditionalSpecFns;

use crate::etcd::Etcd;

verus! {

/// What etcd writes to its standard error once it accepts client
/// connections.
pub const READY_MESSAGE: &'static str = "ready to serve client requests";

#[verifier::external_type_specification]
#[verifier::external_body]
pub struct ExWaitFor(testcontainers::core::WaitFor);

/// The condition that `WaitFor::message_on_stderr` builds from a message.
pub uninterp spec fn stderr_condition(message: Seq<char>) -> testcontainers::core::WaitFor;

/// Calls `WaitFor::message_on_stderr`, which puts an owned copy of the
/// message into the variant `WaitFor::StdErrMessage` and does nothing
/// else. The contract is not proved: it names that value
/// `stderr_condition` of the message and claims that equal messages give
/// equal conditions.
#[verifier::external_body]
fn wait_for_stderr_message(message: &str) -> (condition: testcontainers::core::WaitFor)
    ensures
        condition == stderr_condition(message@),
{
    testcontainers::core::WaitFor::message_on_stderr(message)
}

impl Etcd {
    /// What to wait for before the container is used: one condition, that
    /// `READY_MESSAGE` has appeared on standard error. It is the same for
    /// every descriptor.
    pub fn ready_conditions(&self) -> (conditions: Vec<testcontainers::core::WaitFor>)
        ensures
            conditions@ == seq![stderr_condition(READY_MESSAGE@)],
    {
        let mut conditions: Vec<testcontainers::core::WaitFor> = Vec::new();
        conditions.push(wait_for_stderr_message(READY_MESSAGE));
        assert(conditions@ =~= seq![stderr_condition(READY_MESSAGE@)]);
        conditions
    }
}

/// `needle` stands in `hay` at offset `at`.
pub open spec fn occurs_at(needle: Seq<u8>, hay: Seq<u8>, at: int) -> bool {
    &&& 0 <= at
    &&& at + needle.len() <= hay.len()
    &&& hay.subrange(at, at + needle.len()) == needle
}

/// `needle` stands somewhere in `hay`, whole and unbroken.
pub open spec fn occurs_in(needle: Seq<u8>, hay: Seq<u8>) -> bool {
    exists|at: int| occurs_at(needle, hay, at)
}

/// The bytes of `READY_MESSAGE`.
pub open spec fn ready_bytes() -> Seq<u8> {
    READY_MESSAGE.spec_bytes()
}

/// The output holds the ready message.
pub open spec fn signals_ready(stderr: Seq<u8>) -> bool {
    occurs_in(ready_bytes(), stderr)
}

/// Tells whether `needle` stands in `hay` at offset `at`.
fn matches_at(hay: &[u8], needle: &[u8], at: usize) -> (matched: bool)
    requires
        at + needle@.len() <= hay@.len(),
    ensures
        matched == occurs_at(needle@, hay@, at as int),
{
    let n: usize = needle.len();
    let h: usize = hay.len();
    let mut j: usize = 0;
    while j < n
        invariant
            n == needle@.len(),
            h == hay@.len(),
            at + n <= h,
            j <= n,
            forall|k: int| 0 <= k < j ==> hay@[at + k] == needle@[k],
        decreases n - j,
    {
        if hay[at + j] != needle[j] {
            assert(hay@.subrange(at as int, at + n)[j as int] == hay@[at + j]);
            return false;
        }
        j += 1;
    }
    assert(hay@.subrange(at as int, at + n) =~= needle@);
    true
}

/// Tells whether `needle` stands somewhere in `hay`.
pub fn contains_bytes(hay: &[u8], needle: &[u8]) -> (found: bool)
    ensures
        found == occurs_in(needle@, hay@),
{
    let n: usize = needle.len();
    let h: usize = hay.len();
    if n > h {
        return false;
    }
    let last: usize = h - n;
    let mut at: usize = 0;
    loop
        invariant
            n == needle@.len(),
            h == hay@.len(),
            last == h - n,
            at <= last,
            forall|k: int| 0 <= k < at ==> !occurs_at(needle@, hay@, k),
        decreases last - at,
    {
        if matches_at(hay, needle, at) {
            return true;
        }
        if at == last {
            return false;
        }
        at += 1;
    }
}

/// Tells whether the container's standard error, as far as it has been
/// read, holds the ready message.
pub fn stderr_signals_ready(stderr: &[u8]) -> (ready: bool)
    ensures
        ready == signals_ready(stderr@),
{
    contains_bytes(stderr, READY_MESSAGE.as_bytes())
}

/// The ready message is thirty ASCII characters, one byte each.
pub proof fn lemma_ready_bytes()
    ensures
        ready_bytes().len() == 30,
        forall|i: int| 0 <= i < 30 ==> ready_bytes()[i] == READY_MESSAGE@[i] as u8,
{
    reveal_strlit("ready to serve client requests");
    assert(vstd::string::is_ascii(READY_MESSAGE));
    vstd::string::is_ascii_spec_bytes(READY_MESSAGE);
}

/// Output that holds the ready message, whatever stands before and after
/// it, signals readiness.
pub proof fn lemma_message_signals_ready(before: Seq<u8>, after: Seq<u8>)
    ensures
        signals_ready(before + ready_bytes() + after),
{
    let stderr = before + ready_bytes() + after;
    let at = before.len() as int;
    assert(stderr.subrange(at, at + ready_bytes().len()) =~= ready_bytes());
    assert(occurs_at(ready_bytes(), stderr, at));
}

/// Output that signals readiness holds the ready message: it is some
/// bytes, the message, and some more bytes.
pub proof fn lemma_ready_holds_message(stderr: Seq<u8>)
    requires
        signals_ready(stderr),
    ensures
        exists|before: Seq<u8>, after: Seq<u8>| stderr == before + ready_bytes() + after,
{
    let at = choose|at: int| occurs_at(ready_bytes(), stderr, at);
    let before = stderr.subrange(0, at);
    let after = stderr.subrange(at + ready_bytes().len(), stderr.len() as int);
    assert(stderr =~= before + ready_bytes() + after);
}

} // verus!
