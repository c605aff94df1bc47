use chat_memory::{
    get_memory, load_memory_from_file, update_memory, ChatMemory, FileRead, LoadError,
    MemoryCache, MemoryTable, Message,
};

fn message(role: &str, content: &str) -> Message {
    Message { role: role.to_string(), content: content.to_string() }
}

fn numbered(count: usize) -> ChatMemory {
    let mut memory = ChatMemory::new();
    for i in 0..count {
        memory.messages.push(message("user", &format!("m{}", i)));
    }
    memory
}

fn nothing_stored() -> Result<ChatMemory, LoadError> {
    load_memory_from_file(FileRead::Missing)
}

fn exchanges(range: std::ops::Range<usize>) -> Vec<Message> {
    let mut expected = Vec::new();
    for i in range {
        expected.push(message("user", &format!("question {}", i)));
        expected.push(message("assistant", &format!("answer {}", i)));
    }
    expected
}

fn talk(cache: &mut MemoryCache, id: &str, memory_type: &str, range: std::ops::Range<usize>) {
    for i in range {
        update_memory(
            cache,
            id,
            memory_type,
            &format!("question {}", i),
            &format!("answer {}", i),
            nothing_stored(),
        );
    }
}

#[test]
fn first_exchange_is_fetched_back() {
    let mut cache = MemoryCache::new();
    let saved = update_memory(&mut cache, "7", "user", "hi", "hello", nothing_stored());
    assert_eq!(saved.messages, vec![message("user", "hi"), message("assistant", "hello")]);
    let fetched = get_memory(&mut cache, "7", "user", nothing_stored());
    assert_eq!(fetched.messages, vec![message("user", "hi"), message("assistant", "hello")]);
}

#[test]
fn ten_exchanges_fill_the_record_and_the_eleventh_drops_the_first() {
    let mut cache = MemoryCache::new();
    update_memory(&mut cache, "7", "user", "hi", "hello", nothing_stored());
    let fetched = get_memory(&mut cache, "7", "user", nothing_stored());
    assert_eq!(fetched.messages, vec![message("user", "hi"), message("assistant", "hello")]);

    talk(&mut cache, "7", "user", 1..10);
    let fetched = get_memory(&mut cache, "7", "user", nothing_stored());
    let mut expected = vec![message("user", "hi"), message("assistant", "hello")];
    expected.extend(exchanges(1..10));
    assert_eq!(fetched.len(), 20);
    assert_eq!(fetched.messages, expected);

    talk(&mut cache, "7", "user", 10..11);
    let fetched = get_memory(&mut cache, "7", "user", nothing_stored());
    assert_eq!(fetched.len(), 20);
    assert_eq!(fetched.messages, exchanges(1..11));
    assert_eq!(fetched.messages[0], message("user", "question 1"));
}

#[test]
fn the_record_never_grows_past_the_bound() {
    let mut cache = MemoryCache::new();
    for i in 0..35 {
        let saved = update_memory(&mut cache, "k", "server", &format!("q{}", i), "a", nothing_stored());
        assert!(saved.len() <= 20);
        assert_eq!(saved.len(), std::cmp::min(2 * (i + 1), 20));
        let fetched = get_memory(&mut cache, "k", "server", nothing_stored());
        assert!(fetched.len() <= 20);
        assert_eq!(fetched.messages, saved.messages);
    }
}

#[test]
fn the_newest_exchange_is_always_last() {
    let mut cache = MemoryCache::new();
    for i in 0..25 {
        let user_text = format!("q{}", i);
        let assistant_text = format!("a{}", i);
        update_memory(&mut cache, "k", "user", &user_text, &assistant_text, nothing_stored());
        let fetched = get_memory(&mut cache, "k", "user", nothing_stored());
        let n = fetched.len();
        assert!(n >= 2);
        assert_eq!(fetched.messages[n - 2], message("user", &user_text));
        assert_eq!(fetched.messages[n - 1], message("assistant", &assistant_text));
    }
}

#[test]
fn an_update_with_room_adds_exactly_two_messages() {
    let mut cache = MemoryCache::new();
    talk(&mut cache, "k", "user", 0..4);
    let before = get_memory(&mut cache, "k", "user", nothing_stored());
    update_memory(&mut cache, "k", "user", "one more", "sure", nothing_stored());
    let after = get_memory(&mut cache, "k", "user", nothing_stored());
    assert_eq!(after.len(), before.len() + 2);
    assert_eq!(after.messages[..before.len()], before.messages[..]);
    assert_eq!(after.messages[before.len()], message("user", "one more"));
    assert_eq!(after.messages[before.len() + 1], message("assistant", "sure"));
}

#[test]
fn fetching_an_unknown_identity_twice_gives_an_empty_record_twice() {
    let mut cache = MemoryCache::new();
    let first = get_memory(&mut cache, "nobody", "user", nothing_stored());
    assert!(first.messages.is_empty());
    let second = get_memory(&mut cache, "nobody", "user", nothing_stored());
    assert!(second.messages.is_empty());
    assert!(cache.user.contains("nobody"));
}

#[test]
fn a_not_found_error_gives_an_empty_record() {
    let mut cache = MemoryCache::new();
    let fetched = get_memory(&mut cache, "nobody", "server", Err(LoadError::NotFound));
    assert!(fetched.messages.is_empty());
    assert!(cache.server.contains("nobody"));
}

#[test]
fn a_corrupt_file_gives_an_empty_record() {
    let mut cache = MemoryCache::new();
    let loaded = load_memory_from_file(FileRead::Unreadable("expected value at line 1".to_string()));
    assert!(matches!(loaded, Err(LoadError::Corrupt(_))));
    let fetched = get_memory(&mut cache, "broken", "user", loaded);
    assert!(fetched.messages.is_empty());
}

#[test]
fn a_corrupt_file_is_not_read_again() {
    let mut cache = MemoryCache::new();
    let corrupt = Err(LoadError::Corrupt("trailing characters".to_string()));
    let first = get_memory(&mut cache, "broken", "user", corrupt);
    assert!(first.messages.is_empty());
    // The slot now holds the empty record: a later fetch is a hit, whatever
    // the store would give by then.
    let second = get_memory(&mut cache, "broken", "user", Ok(numbered(3)));
    assert!(second.messages.is_empty());
}

#[test]
fn an_update_after_a_corrupt_file_starts_afresh() {
    let mut cache = MemoryCache::new();
    let corrupt = Err(LoadError::Corrupt("eof".to_string()));
    let saved = update_memory(&mut cache, "broken", "user", "hi", "hello", corrupt);
    assert_eq!(saved.messages, vec![message("user", "hi"), message("assistant", "hello")]);
}

#[test]
fn a_stored_record_is_fetched_on_a_miss() {
    let mut cache = MemoryCache::new();
    let fetched = get_memory(&mut cache, "old", "user", Ok(numbered(5)));
    assert_eq!(fetched.messages, numbered(5).messages);
    assert_eq!(cache.user.lookup("old").unwrap().messages, numbered(5).messages);
}

#[test]
fn a_stored_record_over_the_bound_is_cut_on_fetch() {
    let mut cache = MemoryCache::new();
    let fetched = get_memory(&mut cache, "old", "user", Ok(numbered(23)));
    assert_eq!(fetched.len(), 20);
    assert_eq!(fetched.messages[0], message("user", "m3"));
    assert_eq!(fetched.messages[19], message("user", "m22"));
    let again = get_memory(&mut cache, "old", "user", nothing_stored());
    assert_eq!(again.messages, fetched.messages);
}

#[test]
fn a_hit_does_not_look_at_the_store() {
    let mut cache = MemoryCache::new();
    update_memory(&mut cache, "k", "user", "hi", "hello", nothing_stored());
    let fetched = get_memory(&mut cache, "k", "user", Ok(numbered(7)));
    assert_eq!(fetched.messages, vec![message("user", "hi"), message("assistant", "hello")]);
    let saved = update_memory(&mut cache, "k", "user", "more", "yes", Ok(numbered(7)));
    assert_eq!(saved.messages, exchanges_of(&[("hi", "hello"), ("more", "yes")]));
}

fn exchanges_of(texts: &[(&str, &str)]) -> Vec<Message> {
    let mut expected = Vec::new();
    for (user_text, assistant_text) in texts {
        expected.push(message("user", user_text));
        expected.push(message("assistant", assistant_text));
    }
    expected
}

#[test]
fn an_update_on_a_miss_continues_the_stored_record() {
    let mut cache = MemoryCache::new();
    let saved = update_memory(&mut cache, "old", "server", "hi", "hello", Ok(numbered(4)));
    let mut expected = numbered(4).messages;
    expected.push(message("user", "hi"));
    expected.push(message("assistant", "hello"));
    assert_eq!(saved.messages, expected);
}

#[test]
fn an_update_on_a_miss_keeps_the_newest_of_a_full_stored_record() {
    let mut cache = MemoryCache::new();
    let saved = update_memory(&mut cache, "old", "server", "hi", "hello", Ok(numbered(20)));
    assert_eq!(saved.len(), 20);
    assert_eq!(saved.messages[0], message("user", "m2"));
    assert_eq!(saved.messages[17], message("user", "m19"));
    assert_eq!(saved.messages[18], message("user", "hi"));
    assert_eq!(saved.messages[19], message("assistant", "hello"));

    let mut cache = MemoryCache::new();
    let saved = update_memory(&mut cache, "old", "server", "hi", "hello", Ok(numbered(31)));
    assert_eq!(saved.len(), 20);
    assert_eq!(saved.messages[0], message("user", "m13"));
    assert_eq!(saved.messages[17], message("user", "m30"));
    assert_eq!(saved.messages[19], message("assistant", "hello"));
}

#[test]
fn what_is_saved_is_what_is_cached() {
    let mut cache = MemoryCache::new();
    for i in 0..13 {
        let saved = update_memory(&mut cache, "k", "user", &format!("q{}", i), "a", nothing_stored());
        let cached = cache.user.lookup("k").unwrap();
        assert_eq!(saved.messages, cached.messages);
    }
}

#[test]
fn a_saved_record_comes_back_whole_in_a_new_cache() {
    let mut cache = MemoryCache::new();
    talk(&mut cache, "k", "user", 0..14);
    let saved = update_memory(&mut cache, "k", "user", "last", "word", nothing_stored());

    let mut restarted = MemoryCache::new();
    let stored = load_memory_from_file(FileRead::Record(saved.clone()));
    let fetched = get_memory(&mut restarted, "k", "user", stored);
    assert_eq!(fetched.messages, saved.messages);
}

#[test]
fn the_scopes_are_apart() {
    let mut cache = MemoryCache::new();
    update_memory(&mut cache, "42", "user", "hi", "hello", nothing_stored());
    assert!(!cache.server.contains("42"));
    let other = get_memory(&mut cache, "42", "server", nothing_stored());
    assert!(other.messages.is_empty());
    let own = get_memory(&mut cache, "42", "user", nothing_stored());
    assert_eq!(own.messages, vec![message("user", "hi"), message("assistant", "hello")]);

    update_memory(&mut cache, "42", "server", "ping", "pong", nothing_stored());
    let own = get_memory(&mut cache, "42", "user", nothing_stored());
    assert_eq!(own.messages, vec![message("user", "hi"), message("assistant", "hello")]);
    let other = get_memory(&mut cache, "42", "server", nothing_stored());
    assert_eq!(other.messages, vec![message("user", "ping"), message("assistant", "pong")]);
}

#[test]
fn the_identities_of_a_scope_are_apart() {
    let mut cache = MemoryCache::new();
    update_memory(&mut cache, "a", "user", "hi", "hello", nothing_stored());
    update_memory(&mut cache, "b", "user", "ping", "pong", nothing_stored());
    update_memory(&mut cache, "", "user", "empty id", "fine", nothing_stored());
    assert_eq!(
        get_memory(&mut cache, "a", "user", nothing_stored()).messages,
        vec![message("user", "hi"), message("assistant", "hello")]
    );
    assert_eq!(
        get_memory(&mut cache, "b", "user", nothing_stored()).messages,
        vec![message("user", "ping"), message("assistant", "pong")]
    );
    assert_eq!(
        get_memory(&mut cache, "", "user", nothing_stored()).messages,
        vec![message("user", "empty id"), message("assistant", "fine")]
    );
    assert!(!cache.user.contains("c"));
}

#[test]
fn no_update_of_a_long_run_is_lost() {
    let mut cache = MemoryCache::new();
    talk(&mut cache, "busy", "user", 0..200);
    let fetched = get_memory(&mut cache, "busy", "user", nothing_stored());
    assert_eq!(fetched.messages, exchanges(190..200));
}

#[test]
fn each_update_of_a_run_shows_exactly_once() {
    let mut cache = MemoryCache::new();
    talk(&mut cache, "shared", "server", 0..8);
    let record = get_memory(&mut cache, "shared", "server", nothing_stored());
    assert_eq!(record.len(), 16);
    for i in 0..8 {
        let question = format!("question {}", i);
        let places: Vec<usize> = (0..record.len())
            .filter(|at: &usize| record.messages[*at].content == question)
            .collect();
        assert_eq!(places, vec![2 * i]);
        assert_eq!(record.messages[2 * i + 1], message("assistant", &format!("answer {}", i)));
    }
}

#[test]
fn interleaved_updates_of_two_identities_each_keep_their_own() {
    let mut cache = MemoryCache::new();
    for i in 0..30 {
        update_memory(&mut cache, "left", "user", &format!("question {}", i), &format!("answer {}", i), nothing_stored());
        update_memory(&mut cache, "right", "user", &format!("question {}", 1000 + i), &format!("answer {}", 1000 + i), nothing_stored());
    }
    assert_eq!(get_memory(&mut cache, "left", "user", nothing_stored()).messages, exchanges(20..30));
    assert_eq!(
        get_memory(&mut cache, "right", "user", nothing_stored()).messages,
        exchanges(1020..1030)
    );
}

#[test]
fn a_fetched_record_is_a_copy() {
    let mut cache = MemoryCache::new();
    update_memory(&mut cache, "k", "user", "hi", "hello", nothing_stored());
    let mut fetched = get_memory(&mut cache, "k", "user", nothing_stored());
    fetched.messages.clear();
    fetched.append("not", "cached");
    let again = get_memory(&mut cache, "k", "user", nothing_stored());
    assert_eq!(again.messages, vec![message("user", "hi"), message("assistant", "hello")]);
}

#[test]
fn a_new_table_holds_nothing() {
    let table = MemoryTable::new();
    assert!(!table.contains("k"));
    assert!(table.lookup("k").is_none());
}

#[test]
fn a_table_fetches_and_appends() {
    let mut table = MemoryTable::new();
    assert!(table.lookup("k").is_none());
    let fetched = table.fetch("k", Ok(numbered(2)));
    assert_eq!(fetched.messages, numbered(2).messages);
    assert!(table.contains("k"));
    let saved = table.append("k", "hi", "hello");
    let mut expected = numbered(2).messages;
    expected.push(message("user", "hi"));
    expected.push(message("assistant", "hello"));
    assert_eq!(saved.messages, expected);
    assert_eq!(table.lookup("k").unwrap().messages, expected);
}

#[test]
fn a_table_appends_to_an_empty_record_where_none_is_cached() {
    let mut table = MemoryTable::new();
    let saved = table.append("fresh", "hi", "hello");
    assert_eq!(saved.messages, vec![message("user", "hi"), message("assistant", "hello")]);
}

#[test]
fn a_table_update_is_a_fetch_and_an_append() {
    let mut one = MemoryTable::new();
    let by_update = one.update("k", "hi", "hello", Ok(numbered(25)));

    let mut two = MemoryTable::new();
    two.fetch("k", Ok(numbered(25)));
    let by_steps = two.append("k", "hi", "hello");

    assert_eq!(by_update.messages, by_steps.messages);
    assert_eq!(by_update.len(), 20);
    assert_eq!(by_update.messages[0], message("user", "m7"));
}
