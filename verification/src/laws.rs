//! What holds of the memory cache whatever it is asked: statements about
//! fetches and updates, proved over the histories that the cache holds.

use vstd::prelude::*;
use crate::cache::{loaded_history, starting, CacheView};
use crate::record::{
    appended, assistant_message, exchange, lemma_retain_before_extend, retained, user_message,
    within_bound, ChatMemory, MessageView, MAX_HISTORY_LEN,
};
use crate::scope::Scope;
use crate::store::LoadError;

verus! {

/// One update as the cache sees it: the two texts of the exchange, and what
/// the store gave for the identity, which counts only on a miss.
pub struct Update {
    pub user_text: Seq<char>,
    pub assistant_text: Seq<char>,
    pub loaded: Seq<MessageView>,
}

/// The cache after a run of updates of one identity, applied in order.
pub open spec fn after_updates(
    cache: CacheView,
    scope: Scope,
    id: Seq<char>,
    updates: Seq<Update>,
) -> CacheView
    decreases updates.len(),
{
    if updates.len() == 0 {
        cache
    } else {
        let last = updates.last();
        after_updates(cache, scope, id, updates.drop_last()).after_update(
            scope,
            id,
            last.user_text,
            last.assistant_text,
            last.loaded,
        )
    }
}

/// The messages of a run of updates, in order: each update's user message,
/// then its assistant message.
pub open spec fn exchanges_of(updates: Seq<Update>) -> Seq<MessageView>
    decreases updates.len(),
{
    if updates.len() == 0 {
        Seq::empty()
    } else {
        exchanges_of(updates.drop_last()) + exchange(
            updates.last().user_text,
            updates.last().assistant_text,
        )
    }
}

/// Every update contributes two messages to the messages of a run.
pub proof fn lemma_exchanges_len(updates: Seq<Update>)
    ensures
        exchanges_of(updates).len() == 2 * updates.len(),
    decreases updates.len(),
{
    if updates.len() > 0 {
        lemma_exchanges_len(updates.drop_last());
    }
}

/// The `k`-th update of a run put its user message at place `2k` and its
/// assistant message at place `2k + 1` of the messages of the run.
pub proof fn lemma_exchanges_index(updates: Seq<Update>, k: int)
    requires
        0 <= k < updates.len(),
    ensures
        exchanges_of(updates).len() == 2 * updates.len(),
        exchanges_of(updates)[2 * k] == user_message(updates[k].user_text),
        exchanges_of(updates)[2 * k + 1] == assistant_message(updates[k].assistant_text),
    decreases updates.len(),
{
    lemma_exchanges_len(updates);
    lemma_exchanges_len(updates.drop_last());
    if k < updates.len() - 1 {
        lemma_exchanges_index(updates.drop_last(), k);
    }
}

/// After an update the record of the identity obeys the retention bound, and
/// so does the record that the next fetch returns, whatever the store gives
/// then.
pub proof fn lemma_update_keeps_bound(
    cache: CacheView,
    scope: Scope,
    id: Seq<char>,
    user_text: Seq<char>,
    assistant_text: Seq<char>,
    loaded: Seq<MessageView>,
    next_loaded: Seq<MessageView>,
)
    ensures
        within_bound(
            cache.after_update(scope, id, user_text, assistant_text, loaded).fetched(
                scope,
                id,
                next_loaded,
            ),
        ),
        cache.all_within_bound() ==> cache.after_update(
            scope,
            id,
            user_text,
            assistant_text,
            loaded,
        ).all_within_bound(),
{
}

/// After a fetch the cache obeys the retention bound wherever it did
/// before, and the record returned obeys it.
pub proof fn lemma_fetch_keeps_bound(
    cache: CacheView,
    scope: Scope,
    id: Seq<char>,
    loaded: Seq<MessageView>,
)
    requires
        cache.all_within_bound(),
    ensures
        within_bound(cache.fetched(scope, id, loaded)),
        cache.after_fetch(scope, id, loaded).all_within_bound(),
{
}

/// After any run of updates of one identity, however long, the record that
/// a fetch of the identity returns obeys the retention bound.
pub proof fn lemma_updates_keep_bound(
    cache: CacheView,
    scope: Scope,
    id: Seq<char>,
    updates: Seq<Update>,
    next_loaded: Seq<MessageView>,
)
    requires
        updates.len() > 0,
    ensures
        within_bound(after_updates(cache, scope, id, updates).fetched(scope, id, next_loaded)),
{
    let before = after_updates(cache, scope, id, updates.drop_last());
    let last = updates.last();
    lemma_update_keeps_bound(
        before,
        scope,
        id,
        last.user_text,
        last.assistant_text,
        last.loaded,
        next_loaded,
    );
}

/// The fetch that follows an update returns the record that the update
/// handed back for saving. That record ends with the exchange of the
/// update, the user's message and then the assistant's; where the record
/// had room for both, it has grown by exactly these two messages.
pub proof fn lemma_fetch_after_update(
    cache: CacheView,
    scope: Scope,
    id: Seq<char>,
    user_text: Seq<char>,
    assistant_text: Seq<char>,
    loaded: Seq<MessageView>,
    next_loaded: Seq<MessageView>,
)
    ensures
        ({
            let before = starting(cache.of(scope), id, loaded);
            let next = cache.after_update(scope, id, user_text, assistant_text, loaded).fetched(
                scope,
                id,
                next_loaded,
            );
            &&& next == cache.updated(scope, id, user_text, assistant_text, loaded)
            &&& 2 <= next.len() <= MAX_HISTORY_LEN
            &&& next[next.len() - 2] == user_message(user_text)
            &&& next[next.len() - 1] == assistant_message(assistant_text)
            &&& before.len() + 2 <= MAX_HISTORY_LEN ==> next == before + exchange(
                user_text,
                assistant_text,
            )
        }),
{
}

/// A record that obeys the retention bound comes back whole when a cache
/// that has not seen the identity fetches it from the store. So what an
/// update handed back for saving is what a later process fetches, provided
/// the store gives back what it was given.
pub proof fn lemma_saved_record_comes_back(
    cache: CacheView,
    scope: Scope,
    id: Seq<char>,
    saved: Seq<MessageView>,
)
    requires
        within_bound(saved),
        !cache.of(scope).contains_key(id),
    ensures
        cache.fetched(scope, id, saved) == saved,
        cache.after_fetch(scope, id, saved).of(scope)[id] == saved,
{
}

/// A fetch of an identity that is not cached and for which the store has
/// nothing returns an empty record, and so does every later fetch, whatever
/// the store gives then: the first answer is cached.
pub proof fn lemma_miss_twice(
    cache: CacheView,
    scope: Scope,
    id: Seq<char>,
    later_loaded: Seq<MessageView>,
)
    requires
        !cache.of(scope).contains_key(id),
    ensures
        ({
            let nothing = Seq::<MessageView>::empty();
            let once = cache.after_fetch(scope, id, nothing);
            &&& cache.fetched(scope, id, nothing) == nothing
            &&& once.fetched(scope, id, later_loaded) == nothing
            &&& once.after_fetch(scope, id, later_loaded) == once
        }),
{
}

/// A load that failed never fails a fetch: where nothing is cached for the
/// identity, the fetch returns an empty record and caches it, whatever the
/// failure was.
pub proof fn lemma_failed_load_gives_empty(
    cache: CacheView,
    scope: Scope,
    id: Seq<char>,
    loaded: Result<ChatMemory, LoadError>,
)
    requires
        loaded is Err,
        !cache.of(scope).contains_key(id),
    ensures
        cache.fetched(scope, id, loaded_history(loaded)) == Seq::<MessageView>::empty(),
        cache.after_fetch(scope, id, loaded_history(loaded)).of(scope).contains_key(id),
        cache.after_fetch(scope, id, loaded_history(loaded)).of(scope)[id] == Seq::<
            MessageView,
        >::empty(),
{
}

/// Fetching twice is fetching once: the second fetch returns what the first
/// returned and changes nothing, whatever the store gives then.
pub proof fn lemma_fetch_twice(
    cache: CacheView,
    scope: Scope,
    id: Seq<char>,
    loaded: Seq<MessageView>,
    later_loaded: Seq<MessageView>,
)
    ensures
        ({
            let once = cache.after_fetch(scope, id, loaded);
            &&& once.fetched(scope, id, later_loaded) == cache.fetched(scope, id, loaded)
            &&& once.after_fetch(scope, id, later_loaded) == once
        }),
{
}

/// Nothing that happens in one scope shows in the other: after a fetch or
/// an update in `scope`, the other scope holds what it held, and a fetch
/// there returns what it would have returned.
pub proof fn lemma_scopes_are_apart(
    cache: CacheView,
    scope: Scope,
    id: Seq<char>,
    user_text: Seq<char>,
    assistant_text: Seq<char>,
    loaded: Seq<MessageView>,
    other_id: Seq<char>,
    other_loaded: Seq<MessageView>,
)
    ensures
        cache.after_update(scope, id, user_text, assistant_text, loaded).of(scope.other())
            == cache.of(scope.other()),
        cache.after_fetch(scope, id, loaded).of(scope.other()) == cache.of(scope.other()),
        cache.after_update(scope, id, user_text, assistant_text, loaded).fetched(
            scope.other(),
            other_id,
            other_loaded,
        ) == cache.fetched(scope.other(), other_id, other_loaded),
        cache.after_fetch(scope, id, loaded).fetched(scope.other(), other_id, other_loaded)
            == cache.fetched(scope.other(), other_id, other_loaded),
{
}

/// Within a scope, a fetch or an update of one identity leaves every other
/// identity's record as it was.
pub proof fn lemma_ids_are_apart(
    cache: CacheView,
    scope: Scope,
    id: Seq<char>,
    user_text: Seq<char>,
    assistant_text: Seq<char>,
    loaded: Seq<MessageView>,
    other_id: Seq<char>,
    other_loaded: Seq<MessageView>,
)
    requires
        other_id != id,
    ensures
        cache.after_update(scope, id, user_text, assistant_text, loaded).fetched(
            scope,
            other_id,
            other_loaded,
        ) == cache.fetched(scope, other_id, other_loaded),
        cache.after_fetch(scope, id, loaded).fetched(scope, other_id, other_loaded)
            == cache.fetched(scope, other_id, other_loaded),
{
}

/// No update is lost. After a run of updates of one identity, applied one
/// at a time in some order, the record of the identity is what retention
/// keeps of the history the first update started from followed by the
/// exchanges of all the updates in that order: each exchange is there once,
/// unless newer ones pushed it out. The other scope is as it was.
pub proof fn lemma_no_update_is_lost(
    cache: CacheView,
    scope: Scope,
    id: Seq<char>,
    updates: Seq<Update>,
)
    requires
        updates.len() > 0,
    ensures
        after_updates(cache, scope, id, updates).of(scope).contains_key(id),
        after_updates(cache, scope, id, updates).of(scope)[id] == retained(
            starting(cache.of(scope), id, updates.first().loaded) + exchanges_of(updates),
        ),
        after_updates(cache, scope, id, updates).of(scope.other()) == cache.of(scope.other()),
    decreases updates.len(),
{
    let start = starting(cache.of(scope), id, updates.first().loaded);
    let last = updates.last();
    let earlier = updates.drop_last();
    if earlier.len() == 0 {
        assert(exchanges_of(earlier) =~= Seq::<MessageView>::empty());
        assert(start + exchanges_of(updates) =~= appended(
            start,
            last.user_text,
            last.assistant_text,
        ));
    } else {
        lemma_no_update_is_lost(cache, scope, id, earlier);
        assert(earlier.first() == updates.first());
        lemma_retain_before_extend(
            start + exchanges_of(earlier),
            exchange(last.user_text, last.assistant_text),
        );
        assert(start + exchanges_of(updates) =~= (start + exchanges_of(earlier)) + exchange(
            last.user_text,
            last.assistant_text,
        ));
    }
}

/// The newest updates of a run are never pushed out. An update whose
/// exchange and all the exchanges after it fit into a record together still
/// shows in full, at its place counted from the end: the last update last,
/// the one before it before that.
pub proof fn lemma_recent_updates_show(
    cache: CacheView,
    scope: Scope,
    id: Seq<char>,
    updates: Seq<Update>,
    k: int,
)
    requires
        0 <= k < updates.len(),
        2 * (updates.len() - k) <= MAX_HISTORY_LEN,
    ensures
        ({
            let record = after_updates(cache, scope, id, updates).of(scope)[id];
            let back = 2 * (updates.len() - k);
            &&& record.len() >= back
            &&& record[record.len() - back] == user_message(updates[k].user_text)
            &&& record[record.len() - back + 1] == assistant_message(updates[k].assistant_text)
        }),
{
    lemma_no_update_is_lost(cache, scope, id, updates);
    lemma_exchanges_index(updates, k);
}

} // verus!
