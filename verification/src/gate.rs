//! Whether the filter should touch a record at all: a read-only check of the
//! record's key domain and tag history, plus proofs that the check's verdict
//! cannot flip on its own.

use vstd::prelude::*;
use crate::record::Record;
use crate::record::SEARCH_KEY_DOMAIN;
use crate::record::done_tag;
use crate::record::done_tag_spec;
use crate::record::fail_tag;
use crate::record::fail_tag_spec;

verus! {

/// A tag that permanently excludes a record from this filter.
pub open spec fn is_terminal_tag(t: Seq<char>) -> bool {
    t == done_tag_spec() || t == fail_tag_spec()
}

/// Some tag in the sequence is terminal.
pub open spec fn has_terminal_tag(tags: Seq<Seq<char>>) -> bool {
    exists|i: int| 0 <= i < tags.len() && is_terminal_tag(tags[i])
}

/// Eligibility, from a record's metadata alone: the key must lie outside the
/// reserved search domain and no tag may be terminal.
pub open spec fn gate_ok(domain: u64, tags: Seq<Seq<char>>) -> bool {
    domain != SEARCH_KEY_DOMAIN && !has_terminal_tag(tags)
}

/// What `should_run` answers for a possibly absent record.
pub open spec fn spec_should_run(acc: Option<&Record>) -> bool {
    match acc {
        None => false,
        Some(rec) => gate_ok(rec.key.domain, rec@.tags),
    }
}

/// Scans a tag sequence in order for the done or fail marker.
fn scan_terminal_tag(tags: &Vec<String>) -> (r: bool)
    ensures
        r == has_terminal_tag(tags.deep_view()),
{
    let done = done_tag();
    let fail = fail_tag();
    let n = tags.len();
    let mut i: usize = 0;
    while i < n
        invariant
            i <= n,
            n == tags.len(),
            done@ == done_tag_spec(),
            fail@ == fail_tag_spec(),
            forall|i2: int| 0 <= i2 < i ==> !is_terminal_tag(tags.deep_view()[i2]),
        decreases n - i,
    {
        let t = &tags[i];
        if *t == done || *t == fail {
            assert(is_terminal_tag(tags.deep_view()[i as int]));
            return true;
        }
        assert(!is_terminal_tag(tags.deep_view()[i as int]));
        i += 1;
    }
    false
}

/// The gating predicate: eligible exactly when a record is present, its key
/// domain is not the reserved search domain, and none of its tags is the
/// done or fail marker. Read-only and side-effect free.
pub fn should_run(acc: Option<&Record>) -> (r: bool)
    ensures
        r == spec_should_run(acc),
{
    match acc {
        None => false,
        Some(rec) => {
            if rec.key.domain == SEARCH_KEY_DOMAIN {
                return false;
            }
            !scan_terminal_tag(&rec.tags)
        },
    }
}

/// Law: repeated checks agree. With key domain and tag history fixed,
/// eligibility is a single truth value; asking again cannot change it.
pub proof fn lemma_gate_idempotent(
    domain: u64,
    tags: Seq<Seq<char>>,
    first: bool,
    second: bool,
)
    requires
        first == gate_ok(domain, tags),
        second == gate_ok(domain, tags),
    ensures
        first == second,
{
}

/// Law: domain exclusion. A record whose key domain is the reserved search
/// domain is never eligible, whatever its tags.
pub proof fn lemma_domain_excluded(domain: u64, tags: Seq<Seq<char>>)
    requires
        domain == SEARCH_KEY_DOMAIN,
    ensures
        !gate_ok(domain, tags),
{
}

/// Law: terminal tags absorb. Once a record carries the done or fail marker,
/// no sequence of further appended tags can make it eligible again.
pub proof fn lemma_terminal_absorbing(domain: u64, tags: Seq<Seq<char>>, more: Seq<Seq<char>>)
    requires
        has_terminal_tag(tags),
    ensures
        !gate_ok(domain, tags + more),
{
    let i = choose|i: int| 0 <= i < tags.len() && is_terminal_tag(tags[i]);
    assert((tags + more)[i] == tags[i]);
}

/// Law: a record the filter has just marked done or fail is no longer
/// eligible.
pub proof fn lemma_processed_record_excluded(domain: u64, tags: Seq<Seq<char>>, tag: Seq<char>)
    requires
        is_terminal_tag(tag),
    ensures
        !gate_ok(domain, tags.push(tag)),
{
    assert(tags.push(tag)[tags.len() as int] == tag);
}

} // verus!
