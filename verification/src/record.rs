//! Conversation records and their retention policy.

use vstd::prelude::*;

verus! {

/// The most messages a conversation record keeps.
pub const MAX_HISTORY_LEN: usize = 20;

/// One role-tagged message of a conversation.
///
/// The role is kept as given: a record stores any role text verbatim.
#[derive(Debug)]
pub struct Message {
    pub role: String,
    pub content: String,
}

/// What a [`Message`] says, as mathematical text.
pub struct MessageView {
    pub role: Seq<char>,
    pub content: Seq<char>,
}

impl View for Message {
    type V = MessageView;

    open spec fn view(&self) -> MessageView {
        MessageView { role: self.role@, content: self.content@ }
    }
}

/// What a list of messages says.
pub open spec fn message_views(messages: Seq<Message>) -> Seq<MessageView> {
    messages.map_values(|message: Message| message@)
}

/// The ordered messages of one identity, oldest first.
///
/// A record as such may be of any length. The records that the memory cache
/// holds and hands out obey the retention bound; see [`within_bound`].
#[derive(Debug)]
pub struct ChatMemory {
    pub messages: Vec<Message>,
}

impl View for ChatMemory {
    type V = Seq<MessageView>;

    open spec fn view(&self) -> Seq<MessageView> {
        message_views(self.messages@)
    }
}

/// The message a user turn with the given text becomes.
pub open spec fn user_message(text: Seq<char>) -> MessageView {
    MessageView { role: "user"@, content: text }
}

/// The message an assistant turn with the given text becomes.
pub open spec fn assistant_message(text: Seq<char>) -> MessageView {
    MessageView { role: "assistant"@, content: text }
}

/// One completed exchange: the user's message, then the assistant's.
pub open spec fn exchange(user_text: Seq<char>, assistant_text: Seq<char>) -> Seq<MessageView> {
    seq![user_message(user_text), assistant_message(assistant_text)]
}

/// A history with one more exchange at its end.
pub open spec fn appended(
    history: Seq<MessageView>,
    user_text: Seq<char>,
    assistant_text: Seq<char>,
) -> Seq<MessageView> {
    history + exchange(user_text, assistant_text)
}

/// The newest `limit` items of `items`, in their order; all of them where
/// there are no more than `limit`.
pub open spec fn newest<T>(items: Seq<T>, limit: nat) -> Seq<T> {
    if items.len() > limit {
        items.subrange(items.len() - limit, items.len() as int)
    } else {
        items
    }
}

/// What the retention policy keeps of a history: its newest
/// [`MAX_HISTORY_LEN`] messages.
pub open spec fn retained(history: Seq<MessageView>) -> Seq<MessageView> {
    newest(history, MAX_HISTORY_LEN as nat)
}

/// Whether a history obeys the retention bound.
pub open spec fn within_bound(history: Seq<MessageView>) -> bool {
    history.len() <= MAX_HISTORY_LEN
}

impl PartialEq for Message {
    fn eq(&self, other: &Message) -> (same: bool) {
        self.role == other.role && self.content == other.content
    }
}

impl vstd::std_specs::cmp::PartialEqSpecImpl for Message {
    open spec fn obeys_eq_spec() -> bool {
        true
    }

    open spec fn eq_spec(&self, other: &Message) -> bool {
        self@ == other@
    }
}

impl Clone for Message {
    fn clone(&self) -> (copy: Self)
        ensures
            copy == *self,
    {
        Message { role: self.role.clone(), content: self.content.clone() }
    }
}

impl Message {
    /// A user message with the given text.
    pub fn user(text: &str) -> (message: Message)
        ensures
            message@ == user_message(text@),
    {
        Message { role: "user".to_string(), content: text.to_string() }
    }

    /// An assistant message with the given text.
    pub fn assistant(text: &str) -> (message: Message)
        ensures
            message@ == assistant_message(text@),
    {
        Message { role: "assistant".to_string(), content: text.to_string() }
    }
}

impl Default for ChatMemory {
    fn default() -> (memory: Self)
        ensures
            memory@ == Seq::<MessageView>::empty(),
    {
        ChatMemory { messages: Vec::new() }
    }
}

impl Clone for ChatMemory {
    fn clone(&self) -> (copy: Self)
        ensures
            copy@ == self@,
    {
        let copy = ChatMemory { messages: self.messages.clone() };
        assert(copy.messages@ =~= self.messages@);
        copy
    }
}

impl ChatMemory {
    /// An empty record, as a new identity has.
    pub fn new() -> (memory: Self)
        ensures
            memory@ == Seq::<MessageView>::empty(),
    {
        ChatMemory { messages: Vec::new() }
    }

    /// Number of messages held.
    pub fn len(&self) -> (count: usize)
        ensures
            count == self@.len(),
    {
        self.messages.len()
    }

    /// Adds one exchange at the end: the user's message, then the
    /// assistant's. Nothing is dropped here; see [`ChatMemory::truncate`].
    pub fn append(&mut self, user_text: &str, assistant_text: &str)
        ensures
            final(self)@ == appended(old(self)@, user_text@, assistant_text@),
    {
        self.messages.push(Message::user(user_text));
        self.messages.push(Message::assistant(assistant_text));
        assert(self@ =~= appended(old(self)@, user_text@, assistant_text@));
    }

    /// Drops the oldest messages until no more than [`MAX_HISTORY_LEN`]
    /// are left.
    pub fn truncate(&mut self)
        ensures
            final(self)@ == retained(old(self)@),
    {
        if self.messages.len() > MAX_HISTORY_LEN {
            let start_index = self.messages.len() - MAX_HISTORY_LEN;
            let kept = self.messages.split_off(start_index);
            self.messages = kept;
            assert(self@ =~= retained(old(self)@));
        }
    }
}

/// Retention keeps the newest messages, in their order, and no more than
/// the bound: what is kept is the tail of the history, as long as the
/// history or as [`MAX_HISTORY_LEN`], whichever is less.
pub proof fn lemma_retained_is_newest(history: Seq<MessageView>)
    ensures
        within_bound(retained(history)),
        retained(history).len() == if history.len() <= MAX_HISTORY_LEN {
            history.len()
        } else {
            MAX_HISTORY_LEN as nat
        },
        forall|i: int|
            0 <= i < retained(history).len() ==> #[trigger] retained(history)[i]
                == history[history.len() - retained(history).len() + i],
{
}

/// A history within the bound is kept whole.
pub proof fn lemma_retained_within_bound(history: Seq<MessageView>)
    requires
        within_bound(history),
    ensures
        retained(history) == history,
{
}

/// Retaining twice keeps what retaining once keeps.
pub proof fn lemma_retained_idempotent(history: Seq<MessageView>)
    ensures
        retained(retained(history)) == retained(history),
{
}

/// After an exchange is appended and the history is cut, the exchange is
/// still there, whole and last: the user's message, then the assistant's.
/// Where the history had room for both, nothing else changed.
pub proof fn lemma_newest_exchange_is_last(
    history: Seq<MessageView>,
    user_text: Seq<char>,
    assistant_text: Seq<char>,
)
    ensures
        ({
            let kept = retained(appended(history, user_text, assistant_text));
            &&& 2 <= kept.len() <= MAX_HISTORY_LEN
            &&& kept[kept.len() - 2] == user_message(user_text)
            &&& kept[kept.len() - 1] == assistant_message(assistant_text)
            &&& history.len() + 2 <= MAX_HISTORY_LEN ==> kept == appended(
                history,
                user_text,
                assistant_text,
            )
        }),
{
}

/// Cutting a history before more messages are added changes nothing of what
/// is kept afterwards.
pub proof fn lemma_retain_before_extend(history: Seq<MessageView>, more: Seq<MessageView>)
    ensures
        retained(retained(history) + more) == retained(history + more),
{
    assert(retained(retained(history) + more) =~= retained(history + more));
}

} // verus!
