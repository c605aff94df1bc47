use chat_memory::{ChatMemory, Message, MAX_HISTORY_LEN};

fn message(role: &str, content: &str) -> Message {
    Message { role: role.to_string(), content: content.to_string() }
}

fn numbered(count: usize) -> ChatMemory {
    let mut memory = ChatMemory::new();
    for i in 0..count {
        memory.messages.push(message("user", &format!("m{}", i)));
    }
    memory
}

fn contents(memory: &ChatMemory) -> Vec<String> {
    memory.messages.iter().map(|m: &Message| m.content.clone()).collect()
}

#[test]
fn the_bound_is_twenty() {
    assert_eq!(MAX_HISTORY_LEN, 20);
}

#[test]
fn new_record_is_empty() {
    assert_eq!(ChatMemory::new().len(), 0);
    assert_eq!(ChatMemory::default().len(), 0);
    assert!(ChatMemory::new().messages.is_empty());
}

#[test]
fn user_and_assistant_messages_carry_their_roles() {
    assert_eq!(Message::user("hi"), message("user", "hi"));
    assert_eq!(Message::assistant("hello"), message("assistant", "hello"));
    assert_ne!(Message::user("hi"), Message::assistant("hi"));
    assert_ne!(Message::user("hi"), Message::user("ho"));
}

#[test]
fn append_adds_the_user_message_then_the_assistant_message() {
    let mut memory = ChatMemory::new();
    memory.append("hi", "hello");
    assert_eq!(memory.messages, vec![message("user", "hi"), message("assistant", "hello")]);
    memory.append("how are you", "fine");
    assert_eq!(
        memory.messages,
        vec![
            message("user", "hi"),
            message("assistant", "hello"),
            message("user", "how are you"),
            message("assistant", "fine"),
        ]
    );
    assert_eq!(memory.len(), 4);
}

#[test]
fn append_alone_never_drops_anything() {
    let mut memory = numbered(20);
    memory.append("u", "a");
    assert_eq!(memory.len(), 22);
    assert_eq!(memory.messages[0], message("user", "m0"));
    assert_eq!(memory.messages[20], message("user", "u"));
    assert_eq!(memory.messages[21], message("assistant", "a"));
}

#[test]
fn append_keeps_empty_texts() {
    let mut memory = ChatMemory::new();
    memory.append("", "");
    assert_eq!(memory.messages, vec![message("user", ""), message("assistant", "")]);
}

#[test]
fn truncate_leaves_a_short_record_alone() {
    let mut memory = numbered(0);
    memory.truncate();
    assert_eq!(memory.len(), 0);
    let mut memory = numbered(3);
    memory.truncate();
    assert_eq!(contents(&memory), vec!["m0", "m1", "m2"]);
}

#[test]
fn truncate_leaves_a_full_record_alone() {
    let mut memory = numbered(20);
    memory.truncate();
    assert_eq!(memory.len(), 20);
    assert_eq!(memory.messages[0].content, "m0");
    assert_eq!(memory.messages[19].content, "m19");
}

#[test]
fn truncate_drops_the_oldest_of_twenty_one() {
    let mut memory = numbered(21);
    memory.truncate();
    assert_eq!(memory.len(), 20);
    assert_eq!(memory.messages[0].content, "m1");
    assert_eq!(memory.messages[19].content, "m20");
}

#[test]
fn truncate_keeps_the_newest_twenty_in_order() {
    let mut memory = numbered(57);
    memory.truncate();
    let expected: Vec<String> = (37..57).map(|i: usize| format!("m{}", i)).collect();
    assert_eq!(contents(&memory), expected);
}

#[test]
fn truncate_twice_is_truncate_once() {
    let mut memory = numbered(30);
    memory.truncate();
    let once = contents(&memory);
    memory.truncate();
    assert_eq!(contents(&memory), once);
}

#[test]
fn a_record_stores_any_role_as_given() {
    let mut memory = ChatMemory::new();
    memory.messages.push(message("narrator", "once upon a time"));
    memory.truncate();
    assert_eq!(memory.messages, vec![message("narrator", "once upon a time")]);
}

#[test]
fn a_clone_is_equal_and_independent() {
    let mut memory = ChatMemory::new();
    memory.append("hi", "hello");
    let copy = memory.clone();
    memory.append("more", "again");
    assert_eq!(copy.messages, vec![message("user", "hi"), message("assistant", "hello")]);
    assert_eq!(memory.len(), 4);
    let one = message("user", "hi");
    assert_eq!(one.clone(), one);
}
