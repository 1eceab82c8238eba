//! An in-memory host: a flat key-value store that also records the effects
//! the filter asks for, so a whole invocation can be exercised and observed.

use vstd::prelude::*;
use crate::host::Host;
use crate::record::Key;
use crate::record::Record;
use crate::record::RecordView;

verus! {

/// The first value stored under `key` in `entries`, scanned front to back.
pub open spec fn lookup_in(entries: Seq<(Key, String)>, key: Key) -> Option<Seq<char>>
    decreases entries.len(),
{
    if entries.len() == 0 {
        None
    } else if entries[0].0 == key {
        Some(entries[0].1@)
    } else {
        lookup_in(entries.drop_first(), key)
    }
}

/// An in-memory host: stored entries, plus the history of effects the filter
/// asked for — records created and tags appended to the record under process.
pub struct MemStore {
    pub entries: Vec<(Key, String)>,
    pub created_records: Vec<Record>,
    pub added_tags: Vec<String>,
}

impl MemStore {
    /// An empty store with no recorded effects.
    pub fn new() -> (s: MemStore)
        ensures
            s.entries@.len() == 0,
            s.created() == Seq::<RecordView>::empty(),
            s.tags_added() == Seq::<Seq<char>>::empty(),
            forall|k: Key| s.lookup_spec(k) is None,
    {
        let s = MemStore {
            entries: Vec::new(),
            created_records: Vec::new(),
            added_tags: Vec::new(),
        };
        proof {
            assert(s.created_records.deep_view() =~= Seq::<RecordView>::empty());
            assert(s.added_tags.deep_view() =~= Seq::<Seq<char>>::empty());
        }
        s
    }

    /// Stores `value` under `key`, after any entries already present.
    pub fn add_entry(&mut self, key: Key, value: String)
        ensures
            final(self).entries@ == old(self).entries@.push((key, value)),
            final(self).created() == old(self).created(),
            final(self).tags_added() == old(self).tags_added(),
    {
        self.entries.push((key, value));
    }
}

impl Host for MemStore {
    open spec fn lookup_spec(&self, key: Key) -> Option<Seq<char>> {
        lookup_in(self.entries@, key)
    }

    open spec fn created(&self) -> Seq<RecordView> {
        self.created_records.deep_view()
    }

    open spec fn tags_added(&self) -> Seq<Seq<char>> {
        self.added_tags.deep_view()
    }

    fn lookup_by_key(&self, key: &Key) -> (r: Option<String>) {
        let n = self.entries.len();
        let mut i: usize = 0;
        proof {
            assert(self.entries@.skip(0) =~= self.entries@);
        }
        while i < n
            invariant
                i <= n,
                n == self.entries.len(),
                lookup_in(self.entries@.skip(i as int), *key) == lookup_in(self.entries@, *key),
            decreases n - i,
        {
            let e = &self.entries[i];
            if e.0 == *key {
                proof {
                    assert(self.entries@.skip(i as int)[0] == self.entries@[i as int]);
                }
                return Some(e.1.clone());
            }
            proof {
                assert(self.entries@.skip(i as int).drop_first() =~= self.entries@.skip(
                    i as int + 1,
                ));
            }
            i += 1;
        }
        proof {
            assert(self.entries@.skip(n as int) =~= Seq::<(Key, String)>::empty());
        }
        None
    }

    fn add_tag(&mut self, tag: String) {
        let ghost pre = self.added_tags.deep_view();
        let ghost tview = tag@;
        self.added_tags.push(tag);
        proof {
            assert(self.added_tags.deep_view() =~= pre.push(tview));
        }
    }

    fn create_record(&mut self, tags: Vec<String>, value: String, key: Key) {
        let ghost pre = self.created_records.deep_view();
        let ghost vview = value@;
        let ghost tview = tags.deep_view();
        self.created_records.push(Record { key, value, tags });
        proof {
            assert(self.created_records.deep_view() =~= pre.push(
                RecordView { key, value: vview, tags: tview },
            ));
        }
    }
}

} // verus!
