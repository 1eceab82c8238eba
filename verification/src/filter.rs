//! The matcher/emitter: fetch the query record, test the record under
//! process for a substring match, emit a result record on success, and leave
//! a terminal tag in every path that got past the lookup.

use vstd::prelude::*;
use crate::host::Host;
use crate::record::Key;
use crate::record::Record;
use crate::record::RecordView;
use crate::record::SEARCH_KEY_DOMAIN;
use crate::record::done_tag;
use crate::record::done_tag_spec;
use crate::record::fail_tag;
use crate::record::fail_tag_spec;
use crate::record::search_key;
use crate::record::spec_search_key;
use crate::text::contains_seq;
use crate::text::contains_substring;
use crate::text::key_string;
use crate::text::key_string_spec;

verus! {

/// Relies on rand::random: draws a value of `T` from the thread-local
/// generator. Nothing can be promised of the value drawn.
pub assume_specification<T>[ rand::random::<T> ]() -> (r: T)
    where
        rand::distributions::Standard: rand::distributions::Distribution<T>,
;

/// A freshly randomized key in the reserved search domain, for a new result
/// record. Collisions with existing keys are improbable, not prevented.
pub fn fresh_result_key() -> (k: Key)
    ensures
        k.domain == SEARCH_KEY_DOMAIN,
{
    Key { domain: SEARCH_KEY_DOMAIN, b: rand::random::<i64>(), c: rand::random::<i64>() }
}

/// `post` extends `pre` by exactly one created record: a result record for a
/// matched record with key `matched`. Its value is the delimited rendering of
/// `matched`, its key lives in the reserved search domain, and it carries no
/// tags.
pub open spec fn emitted_result_for(
    pre: Seq<RecordView>,
    post: Seq<RecordView>,
    matched: Key,
) -> bool {
    &&& post.len() == pre.len() + 1
    &&& post.subrange(0, pre.len() as int) == pre
    &&& post.last().key.domain == SEARCH_KEY_DOMAIN
    &&& post.last().value == key_string_spec(matched)
    &&& post.last().tags == Seq::<Seq<char>>::empty()
}

/// The effects one invocation asks of the host once the query lookup came
/// back: the single tag to append to the record under process, and the
/// result record to create, if any.
pub struct RunEffects {
    pub tag: String,
    pub create: Option<Record>,
}

/// Decides everything that follows the query lookup. A missing query yields
/// the fail marker and no new record; a present query yields the done marker,
/// plus a freshly keyed result record exactly when the record's value
/// contains the query text.
pub fn plan_run(rec: &Record, query: Option<&String>) -> (e: RunEffects)
    ensures
        match query {
            None => e.tag@ == fail_tag_spec() && e.create is None,
            Some(q) => {
                &&& e.tag@ == done_tag_spec()
                &&& contains_seq(rec@.value, q@) ==> (e.create matches Some(nr)
                    && nr.key.domain == SEARCH_KEY_DOMAIN
                    && nr@.value == key_string_spec(rec.key)
                    && nr@.tags == Seq::<Seq<char>>::empty())
                &&& !contains_seq(rec@.value, q@) ==> e.create is None
            },
        },
{
    let query = match query {
        None => {
            return RunEffects { tag: fail_tag(), create: None };
        },
        Some(q) => q,
    };
    let create = if contains_substring(rec.value.as_str(), query.as_str()) {
        let res_tags: Vec<String> = Vec::new();
        proof {
            assert(res_tags.deep_view() =~= Seq::<Seq<char>>::empty());
        }
        Some(Record { key: fresh_result_key(), value: key_string(&rec.key), tags: res_tags })
    } else {
        None
    };
    RunEffects { tag: done_tag(), create }
}

/// Executes the filter on the record under process.
///
/// With no record present, nothing happens. Otherwise the query record is
/// fetched from the fixed search key: when it is absent, the record gains
/// exactly the fail tag and nothing is created; when it is present, the
/// record gains exactly the done tag, and a result record for its key is
/// created if and only if its value contains the query text as a contiguous
/// substring.
pub fn run<H: Host>(acc: Option<&Record>, host: &mut H)
    ensures
        match acc {
            None => final(host).tags_added() == old(host).tags_added()
                && final(host).created() == old(host).created(),
            Some(rec) => match old(host).lookup_spec(spec_search_key()) {
                None => final(host).tags_added() == old(host).tags_added().push(fail_tag_spec())
                    && final(host).created() == old(host).created(),
                Some(q) => final(host).tags_added() == old(host).tags_added().push(done_tag_spec())
                    && if contains_seq(rec@.value, q) {
                        emitted_result_for(old(host).created(), final(host).created(), rec.key)
                    } else {
                        final(host).created() == old(host).created()
                    },
            },
        },
{
    let rec = match acc {
        None => {
            return ;
        },
        Some(r) => r,
    };
    let skey = search_key();
    let query = host.lookup_by_key(&skey);
    let effects = plan_run(rec, query.as_ref());
    if let Some(new_record) = effects.create {
        let ghost pre_created = host.created();
        let Record { key, value, tags } = new_record;
        host.create_record(tags, value, key);
        proof {
            assert(host.created().subrange(0, pre_created.len() as int) =~= pre_created);
        }
    }
    host.add_tag(effects.tag);
}

} // verus!
