//! One request from start to finish, as far as it is decided here: what is
//! sent for completion, and what the caller is told in the end.

use vstd::prelude::*;
use vstd::string::StringExecFns;
use crate::record::{message_views, user_message, ChatMemory, Message, MessageView};

verus! {

/// The message a system prompt with the given text becomes.
pub open spec fn system_message(text: Seq<char>) -> MessageView {
    MessageView { role: "system"@, content: text }
}

/// The messages sent for completion: the system prompt unless it is empty,
/// then the history, then the new prompt as a user message.
pub open spec fn prompt_of(
    system_prompt: Seq<char>,
    history: Seq<MessageView>,
    prompt: Seq<char>,
) -> Seq<MessageView> {
    let opening = if system_prompt.len() > 0 {
        seq![system_message(system_prompt)]
    } else {
        Seq::empty()
    };
    opening + history + seq![user_message(prompt)]
}

/// What the caller is told where no API key was given; nothing where one
/// was.
pub fn missing_key_reply(api_key: &str) -> (reply: Option<String>)
    ensures
        match reply {
            Some(told) => api_key@.len() == 0 && told@ == "Error: Google API key is missing."@,
            None => api_key@.len() > 0,
        },
{
    if api_key.is_empty() {
        Some("Error: Google API key is missing.".to_string())
    } else {
        None
    }
}

/// The messages sent for completion of `prompt` after `history`.
pub fn messages_for_api(system_prompt: &str, history: &ChatMemory, prompt: &str) -> (messages: Vec<
    Message,
>)
    ensures
        message_views(messages@) == prompt_of(system_prompt@, history@, prompt@),
{
    let mut messages: Vec<Message> = Vec::new();
    if !system_prompt.is_empty() {
        messages.push(Message { role: "system".to_string(), content: system_prompt.to_string() });
    }
    let ghost opening = message_views(messages@);
    assert(opening =~= if system_prompt@.len() > 0 {
        seq![system_message(system_prompt@)]
    } else {
        Seq::empty()
    });
    let mut copied: usize = 0;
    assert(message_views(messages@) =~= opening + history@.take(0));
    while copied < history.messages.len()
        invariant
            copied <= history.messages.len(),
            message_views(messages@) == opening + history@.take(copied as int),
        decreases history.messages.len() - copied,
    {
        let ghost before = message_views(messages@);
        let next = history.messages[copied].clone();
        messages.push(next);
        proof {
            assert(message_views(messages@) =~= before.push(next@));
            assert(history@.take(copied + 1) =~= history@.take(copied as int).push(next@));
        }
        copied += 1;
    }
    let ghost before = message_views(messages@);
    messages.push(Message::user(prompt));
    proof {
        assert(history@.take(copied as int) =~= history@);
        assert(message_views(messages@) =~= before.push(user_message(prompt@)));
    }
    messages
}

/// What the caller is told at the end of a request: the reply of the
/// completion, or that it failed and why.
pub fn command_reply(completion: Result<String, String>) -> (reply: String)
    ensures
        match completion {
            Ok(text) => reply@ == text@,
            Err(why) => reply@ == "Ely had trouble thinking (API): "@ + why@,
        },
{
    match completion {
        Ok(text) => text,
        Err(why) => {
            let mut told = "Ely had trouble thinking (API): ".to_string();
            told.append(why.as_str());
            told
        },
    }
}

} // verus!
