//! The memory cache: the table of records held in the process, one per
//! scope, and the two operations that callers use, fetch and append.
//!
//! The cache never reads or writes a file. Where a record is not in the
//! table, the caller hands in what the store gave for it; what has to be
//! written afterwards is handed back.

use vstd::prelude::*;
use vstd::hash_map::StringHashMap;
use crate::record::{
    appended, exchange, lemma_retain_before_extend, retained, within_bound, ChatMemory,
    MessageView,
};
use crate::scope::{scope_of, parse_scope, Scope};
use crate::store::LoadError;

verus! {

/// The records of one scope, by id.
pub type Histories = Map<Seq<char>, Seq<MessageView>>;

/// The history that a load contributes: the stored one, or none at all
/// where the load failed.
pub open spec fn loaded_history(loaded: Result<ChatMemory, LoadError>) -> Seq<MessageView> {
    match loaded {
        Ok(memory) => memory@,
        Err(_) => Seq::empty(),
    }
}

/// The history a fetch of `id` returns: the cached one, or on a miss what
/// retention keeps of the loaded one.
pub open spec fn fetched(table: Histories, id: Seq<char>, loaded: Seq<MessageView>) -> Seq<
    MessageView,
> {
    if table.contains_key(id) {
        table[id]
    } else {
        retained(loaded)
    }
}

/// The table after a fetch of `id`: unchanged on a hit; on a miss the
/// fetched history is cached.
pub open spec fn after_fetch(table: Histories, id: Seq<char>, loaded: Seq<MessageView>) -> Histories {
    if table.contains_key(id) {
        table
    } else {
        table.insert(id, retained(loaded))
    }
}

/// The history that an append to `id` starts from: the cached one, or an
/// empty one.
pub open spec fn current(table: Histories, id: Seq<char>) -> Seq<MessageView> {
    if table.contains_key(id) {
        table[id]
    } else {
        Seq::empty()
    }
}

/// The table after one exchange was appended to `id`.
pub open spec fn after_append(
    table: Histories,
    id: Seq<char>,
    user_text: Seq<char>,
    assistant_text: Seq<char>,
) -> Histories {
    table.insert(id, retained(appended(current(table, id), user_text, assistant_text)))
}

/// The history that an update of `id` starts from: the cached one, or on a
/// miss the loaded one.
pub open spec fn starting(table: Histories, id: Seq<char>, loaded: Seq<MessageView>) -> Seq<
    MessageView,
> {
    if table.contains_key(id) {
        table[id]
    } else {
        loaded
    }
}

/// The history of `id` after an update with one exchange: the exchange is
/// added to the starting history, and the newest messages are kept.
pub open spec fn updated(
    table: Histories,
    id: Seq<char>,
    user_text: Seq<char>,
    assistant_text: Seq<char>,
    loaded: Seq<MessageView>,
) -> Seq<MessageView> {
    retained(appended(starting(table, id, loaded), user_text, assistant_text))
}

/// The table after an update of `id` with one exchange.
pub open spec fn after_update(
    table: Histories,
    id: Seq<char>,
    user_text: Seq<char>,
    assistant_text: Seq<char>,
    loaded: Seq<MessageView>,
) -> Histories {
    table.insert(id, updated(table, id, user_text, assistant_text, loaded))
}

/// Whether every history of a table obeys the retention bound.
pub open spec fn all_within_bound(table: Histories) -> bool {
    forall|id: Seq<char>| table.contains_key(id) ==> within_bound(#[trigger] table[id])
}

/// The cached records of one scope.
pub struct MemoryTable {
    entries: StringHashMap<ChatMemory>,
}

impl View for MemoryTable {
    type V = Histories;

    closed spec fn view(&self) -> Histories {
        self.entries@.map_values(|memory: ChatMemory| memory@)
    }
}

impl MemoryTable {
    #[verifier::type_invariant]
    spec fn bounded(self) -> bool {
        all_within_bound(self@)
    }

    /// A table that holds no record.
    pub fn new() -> (table: Self)
        ensures
            table@ == Histories::empty(),
    {
        let table = MemoryTable { entries: StringHashMap::new() };
        assert(table@ =~= Histories::empty());
        table
    }

    /// Caches `memory` for `id`, in place of what was cached for it.
    fn put(&mut self, id: &str, memory: ChatMemory)
        requires
            within_bound(memory@),
        ensures
            final(self)@ == old(self)@.insert(id@, memory@),
    {
        proof {
            use_type_invariant(&*self);
        }
        // The map is taken out while it changes, so that the table is a
        // bounded one at every step.
        let mut entries = StringHashMap::new();
        std::mem::swap(&mut self.entries, &mut entries);
        entries.insert(id.to_string(), memory);
        proof {
            let before = old(self)@;
            let after = entries@.map_values(|memory: ChatMemory| memory@);
            assert(after =~= before.insert(id@, memory@));
            assert forall|key: Seq<char>| after.contains_key(key) implies within_bound(
                #[trigger] after[key],
            ) by {
                if key != id@ {
                    assert(before.contains_key(key));
                    assert(within_bound(before[key]));
                }
            }
        }
        std::mem::swap(&mut self.entries, &mut entries);
    }

    /// Whether a record is cached for `id`.
    pub fn contains(&self, id: &str) -> (cached: bool)
        ensures
            cached == self@.contains_key(id@),
    {
        self.entries.contains_key(id)
    }

    /// A copy of the record cached for `id`, if there is one.
    pub fn lookup(&self, id: &str) -> (found: Option<ChatMemory>)
        ensures
            match found {
                Some(memory) => self@.contains_key(id@) && memory@ == self@[id@] && within_bound(
                    memory@,
                ),
                None => !self@.contains_key(id@),
            },
    {
        proof {
            use_type_invariant(self);
        }
        match self.entries.get(id) {
            Some(memory) => {
                assert(self@[id@] == memory@);
                Some(memory.clone())
            },
            None => None,
        }
    }

    /// Fetches the record of `id`. A cached record is returned as it is and
    /// `loaded` is not looked at. Otherwise `loaded` is what the store gave:
    /// a record is cut to the retention bound, a failure becomes an empty
    /// record, and the outcome is cached and returned.
    pub fn fetch(&mut self, id: &str, loaded: Result<ChatMemory, LoadError>) -> (memory: ChatMemory)
        ensures
            memory@ == fetched(old(self)@, id@, loaded_history(loaded)),
            final(self)@ == after_fetch(old(self)@, id@, loaded_history(loaded)),
            within_bound(memory@),
            all_within_bound(final(self)@),
    {
        proof {
            use_type_invariant(&*self);
        }
        match self.entries.get(id) {
            Some(cached) => {
                assert(self@[id@] == cached@);
                return cached.clone();
            },
            None => {},
        }
        let mut memory = match loaded {
            Ok(stored) => stored,
            Err(_) => ChatMemory::new(),
        };
        memory.truncate();
        let copy = memory.clone();
        self.put(id, memory);
        assert(self@ =~= after_fetch(old(self)@, id@, loaded_history(loaded)));
        copy
    }

    /// Appends one exchange to the record of `id`, cuts it to the retention
    /// bound and returns a copy of what is now cached, which is what the
    /// store has to hold. An id that is not cached starts from an empty
    /// record.
    pub fn append(&mut self, id: &str, user_text: &str, assistant_text: &str) -> (saved: ChatMemory)
        ensures
            final(self)@ == after_append(old(self)@, id@, user_text@, assistant_text@),
            saved@ == final(self)@[id@],
            within_bound(saved@),
            all_within_bound(final(self)@),
    {
        proof {
            use_type_invariant(&*self);
        }
        let mut memory = match self.entries.get(id) {
            Some(cached) => cached.clone(),
            None => ChatMemory::new(),
        };
        memory.append(user_text, assistant_text);
        memory.truncate();
        let copy = memory.clone();
        self.put(id, memory);
        assert(self@ =~= after_append(old(self)@, id@, user_text@, assistant_text@));
        copy
    }

    /// Records one exchange for `id`: fetches the record as
    /// [`MemoryTable::fetch`] does, then appends as [`MemoryTable::append`]
    /// does. Returns a copy of what is now cached, which is what the store
    /// has to hold.
    ///
    /// Cutting the loaded record before the exchange is added loses nothing
    /// that would have been kept: the outcome is that of adding the exchange
    /// to the whole loaded record and cutting once.
    pub fn update(
        &mut self,
        id: &str,
        user_text: &str,
        assistant_text: &str,
        loaded: Result<ChatMemory, LoadError>,
    ) -> (saved: ChatMemory)
        ensures
            saved@ == updated(old(self)@, id@, user_text@, assistant_text@, loaded_history(loaded)),
            final(self)@ == after_update(
                old(self)@,
                id@,
                user_text@,
                assistant_text@,
                loaded_history(loaded),
            ),
            within_bound(saved@),
            all_within_bound(final(self)@),
    {
        self.fetch(id, loaded);
        let saved = self.append(id, user_text, assistant_text);
        proof {
            lemma_retain_before_extend(
                loaded_history(loaded),
                exchange(user_text@, assistant_text@),
            );
            assert(self@ =~= after_update(
                old(self)@,
                id@,
                user_text@,
                assistant_text@,
                loaded_history(loaded),
            ));
        }
        saved
    }
}

/// The memory cache: one table for each scope.
pub struct MemoryCache {
    pub user: MemoryTable,
    pub server: MemoryTable,
}

/// What a [`MemoryCache`] holds: the histories of each scope.
pub struct CacheView {
    pub user: Histories,
    pub server: Histories,
}

impl CacheView {
    /// The histories of one scope.
    pub open spec fn of(self, scope: Scope) -> Histories {
        match scope {
            Scope::User => self.user,
            Scope::Server => self.server,
        }
    }

    /// This cache with the histories of one scope replaced.
    pub open spec fn with(self, scope: Scope, table: Histories) -> CacheView {
        match scope {
            Scope::User => CacheView { user: table, server: self.server },
            Scope::Server => CacheView { user: self.user, server: table },
        }
    }

    /// The history a fetch of `id` in `scope` returns.
    pub open spec fn fetched(self, scope: Scope, id: Seq<char>, loaded: Seq<MessageView>) -> Seq<
        MessageView,
    > {
        fetched(self.of(scope), id, loaded)
    }

    /// The cache after a fetch of `id` in `scope`.
    pub open spec fn after_fetch(
        self,
        scope: Scope,
        id: Seq<char>,
        loaded: Seq<MessageView>,
    ) -> CacheView {
        self.with(scope, after_fetch(self.of(scope), id, loaded))
    }

    /// The history of `id` in `scope` after an update with one exchange.
    pub open spec fn updated(
        self,
        scope: Scope,
        id: Seq<char>,
        user_text: Seq<char>,
        assistant_text: Seq<char>,
        loaded: Seq<MessageView>,
    ) -> Seq<MessageView> {
        updated(self.of(scope), id, user_text, assistant_text, loaded)
    }

    /// The cache after an update of `id` in `scope` with one exchange.
    pub open spec fn after_update(
        self,
        scope: Scope,
        id: Seq<char>,
        user_text: Seq<char>,
        assistant_text: Seq<char>,
        loaded: Seq<MessageView>,
    ) -> CacheView {
        self.with(scope, after_update(self.of(scope), id, user_text, assistant_text, loaded))
    }

    /// Whether every history in the cache obeys the retention bound.
    pub open spec fn all_within_bound(self) -> bool {
        all_within_bound(self.user) && all_within_bound(self.server)
    }
}

impl View for MemoryCache {
    type V = CacheView;

    open spec fn view(&self) -> CacheView {
        CacheView { user: self.user@, server: self.server@ }
    }
}

impl MemoryCache {
    /// A cache that holds no record.
    pub fn new() -> (cache: Self)
        ensures
            cache@.user == Histories::empty(),
            cache@.server == Histories::empty(),
    {
        MemoryCache { user: MemoryTable::new(), server: MemoryTable::new() }
    }
}

/// Fetches the conversation record of `id` in the scope that `memory_type`
/// names.
///
/// A cached record is returned as it is, and `loaded` is not looked at.
/// Otherwise `loaded` is what the store gave for the identity: a record is
/// cut to the retention bound, a failure becomes an empty record, and the
/// outcome is cached and returned. The other scope is left alone.
pub fn get_memory(
    cache: &mut MemoryCache,
    id: &str,
    memory_type: &str,
    loaded: Result<ChatMemory, LoadError>,
) -> (memory: ChatMemory)
    requires
        scope_of(memory_type@) is Some,
    ensures
        memory@ == old(cache)@.fetched(scope_of(memory_type@)->0, id@, loaded_history(loaded)),
        final(cache)@ == old(cache)@.after_fetch(
            scope_of(memory_type@)->0,
            id@,
            loaded_history(loaded),
        ),
        within_bound(memory@),
        final(cache)@.all_within_bound(),
{
    proof {
        use_type_invariant(&cache.user);
        use_type_invariant(&cache.server);
    }
    match parse_scope(memory_type).unwrap() {
        Scope::User => cache.user.fetch(id, loaded),
        Scope::Server => cache.server.fetch(id, loaded),
    }
}

/// Records one completed exchange for `id` in the scope that `memory_type`
/// names, and returns a copy of the record as it is now cached: this is what
/// the store has to hold for the identity.
///
/// The exchange is appended to the cached record, or on a miss to what the
/// store gave for the identity (`loaded`; a failure counts as an empty
/// record). The record is then cut to the retention bound and cached. The
/// other scope is left alone.
pub fn update_memory(
    cache: &mut MemoryCache,
    id: &str,
    memory_type: &str,
    user_prompt: &str,
    assistant_response: &str,
    loaded: Result<ChatMemory, LoadError>,
) -> (saved: ChatMemory)
    requires
        scope_of(memory_type@) is Some,
    ensures
        saved@ == old(cache)@.updated(
            scope_of(memory_type@)->0,
            id@,
            user_prompt@,
            assistant_response@,
            loaded_history(loaded),
        ),
        final(cache)@ == old(cache)@.after_update(
            scope_of(memory_type@)->0,
            id@,
            user_prompt@,
            assistant_response@,
            loaded_history(loaded),
        ),
        within_bound(saved@),
        final(cache)@.all_within_bound(),
{
    proof {
        use_type_invariant(&cache.user);
        use_type_invariant(&cache.server);
    }
    match parse_scope(memory_type).unwrap() {
        Scope::User => cache.user.update(id, user_prompt, assistant_response, loaded),
        Scope::Server => cache.server.update(id, user_prompt, assistant_response, loaded),
    }
}

} // verus!
