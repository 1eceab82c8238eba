//! The data the filter observes: composite keys, tagged records, and the
//! reserved names the filter's bookkeeping uses.

use vstd::prelude::*;

verus! {

/// The key domain reserved for the query record and for result records.
/// The filter never processes a record whose key lives in this domain.
pub const SEARCH_KEY_DOMAIN: u64 = 99;

/// A composite record identifier: a namespace (`domain`) and two further
/// integers that disambiguate within it.
#[derive(Clone, Copy, PartialEq, Eq, Structural, Debug)]
pub struct Key {
    pub domain: u64,
    pub b: i64,
    pub c: i64,
}

/// The fixed key under which the query record lives.
pub fn search_key() -> (k: Key)
    ensures
        k == spec_search_key(),
{
    Key { domain: SEARCH_KEY_DOMAIN, b: 0, c: 1 }
}

pub open spec fn spec_search_key() -> Key {
    Key { domain: SEARCH_KEY_DOMAIN, b: 0, c: 1 }
}

/// A stored unit: its own key, an opaque text payload, and an append-only
/// sequence of text labels recording processing history.
pub struct Record {
    pub key: Key,
    pub value: String,
    pub tags: Vec<String>,
}

/// A record as the contracts see it: the key, and the value and tags as text.
pub struct RecordView {
    pub key: Key,
    pub value: Seq<char>,
    pub tags: Seq<Seq<char>>,
}

impl View for Record {
    type V = RecordView;

    open spec fn view(&self) -> RecordView {
        RecordView { key: self.key, value: self.value@, tags: self.tags.deep_view() }
    }
}

impl DeepView for Record {
    type V = RecordView;

    open spec fn deep_view(&self) -> RecordView {
        self.view()
    }
}

/// The tag marking a record this filter has processed.
pub open spec fn done_tag_spec() -> Seq<char> {
    "find:done"@
}

/// The tag marking a record on which the query lookup failed.
pub open spec fn fail_tag_spec() -> Seq<char> {
    "find:fail"@
}

pub fn done_tag() -> (r: String)
    ensures
        r@ == done_tag_spec(),
{
    "find:done".to_owned()
}

pub fn fail_tag() -> (r: String)
    ensures
        r@ == fail_tag_spec(),
{
    "find:fail".to_owned()
}

} // verus!
