//! The narrow callback surface through which the filter observes and changes
//! the store. The host that invokes the filter implements it; this crate's
//! in-memory store is one such implementation.

use vstd::prelude::*;
use crate::record::Key;
use crate::record::RecordView;

verus! {

/// The capabilities a host hands the filter for one invocation: resolving a
/// key to its value text, appending a tag to the record under process, and
/// persisting a new record. The two mutating operations are fire-and-forget;
/// their effect is visible only through the host's own history.
pub trait Host {
    /// The value text the store holds under `key`, if any.
    spec fn lookup_spec(&self, key: Key) -> Option<Seq<char>>;

    /// The records this host has been asked to create, oldest first.
    spec fn created(&self) -> Seq<RecordView>;

    /// The tags this host has been asked to append to the record under
    /// process, oldest first.
    spec fn tags_added(&self) -> Seq<Seq<char>>;

    /// Resolves `key` to the value text stored under it, or reports absence.
    fn lookup_by_key(&self, key: &Key) -> (r: Option<String>)
        ensures
            r.deep_view() == self.lookup_spec(*key),
    ;

    /// Appends one tag to the record under process; never removes or
    /// rewrites an existing tag, and creates no record.
    fn add_tag(&mut self, tag: String)
        ensures
            final(self).tags_added() == old(self).tags_added().push(tag@),
            final(self).created() == old(self).created(),
    ;

    /// Persists a new record built from the given tags, value, and key; adds
    /// no tag to the record under process.
    fn create_record(&mut self, tags: Vec<String>, value: String, key: Key)
        ensures
            final(self).created() == old(self).created().push(
                RecordView { key, value: value@, tags: tags.deep_view() },
            ),
            final(self).tags_added() == old(self).tags_added(),
    ;
}

} // verus!
