//! The conversation that the bot keeps with the AI in each chat.
//!
//! A turn is prepared here: the user's message is added to the chat's history
//! and the messages of the request are put together; once the AI has answered,
//! its reply is added too. Sending the request is left to the caller.
use vstd::prelude::*;
use dashmap::DashMap;
use vstd::string::StringExecFns;

verus! {

/// Who wrote a message of a conversation.
#[derive(Clone, Copy, Debug, PartialEq, Eq)]
pub enum Role {
    System,
    User,
    Assistant,
}

/// One message of a conversation.
#[derive(Debug)]
pub struct ChatMessage {
    pub role: Role,
    pub content: String,
}

impl View for ChatMessage {
    type V = (Role, Seq<char>);

    open spec fn view(&self) -> (Role, Seq<char>) {
        (self.role, self.content@)
    }
}

/// `dashmap::DashMap`, a concurrent hash map; its contents are seen through
/// `chat_contents`.
#[verifier::external_type_specification]
#[verifier::external_body]
#[verifier::reject_recursive_types(K)]
#[verifier::reject_recursive_types(V)]
#[verifier::reject_recursive_types(S)]
pub struct ExDashMap<K, V, S>(DashMap<K, V, S>);

/// A message by its role and text.
pub type MessageView = (Role, Seq<char>);

/// Conversations by chat, each a sequence of messages.
pub type Conversations = Map<i64, Seq<MessageView>>;

/// A concurrent map from chats to their conversations.
pub type ChatMap = DashMap<i64, Vec<ChatMessage>>;

/// The conversations that a concurrent map holds, by chat.
pub uninterp spec fn chat_contents(m: DashMap<i64, Vec<ChatMessage>>) -> Conversations;

/// The messages of a vector, each by its role and text.
pub open spec fn messages_view(v: Seq<ChatMessage>) -> Seq<MessageView> {
    v.map_values(|m: ChatMessage| m@)
}

/// An empty concurrent map.
///
/// Trusted: calls `DashMap::new`, which creates an empty map.
#[verifier::external_body]
fn chat_map_new() -> (res: ChatMap)
    ensures
        chat_contents(res) == Conversations::empty(),
{
    DashMap::new()
}

/// Takes the conversation of `chat_id` out of the map.
///
/// Trusted: calls `DashMap::remove`, which removes the key and returns the
/// value that it held, if any.
#[verifier::external_body]
fn chat_map_remove(m: &mut DashMap<i64, Vec<ChatMessage>>, chat_id: i64) -> (res: Option<
    Vec<ChatMessage>,
>)
    ensures
        chat_contents(*final(m)) == chat_contents(*old(m)).remove(chat_id),
        match res {
            Some(v) => chat_contents(*old(m)).contains_key(chat_id) && messages_view(v@)
                == chat_contents(*old(m))[chat_id],
            None => !chat_contents(*old(m)).contains_key(chat_id),
        },
{
    match m.remove(&chat_id) {
        Some((_, v)) => Some(v),
        None => None,
    }
}

/// Stores `messages` as the conversation of `chat_id`.
///
/// Trusted: calls `DashMap::insert`, which maps the key to the value in place
/// of any value it had.
#[verifier::external_body]
fn chat_map_insert(m: &mut DashMap<i64, Vec<ChatMessage>>, chat_id: i64, messages: Vec<ChatMessage>)
    ensures
        chat_contents(*final(m)) == chat_contents(*old(m)).insert(chat_id, messages_view(messages@)),
{
    m.insert(chat_id, messages);
}

/// The messages of the conversation in `chat`; empty when there is none.
pub open spec fn conversation(m: Conversations, chat: i64) -> Seq<MessageView> {
    if m.contains_key(chat) {
        m[chat]
    } else {
        Seq::empty()
    }
}

/// The conversations after `message` is added to the one in `chat`.
pub open spec fn after_message(m: Conversations, chat: i64, message: (Role, Seq<char>)) -> Conversations {
    m.insert(chat, conversation(m, chat).push(message))
}

/// The text of the AI's reply: the content of the first choice, and a fixed
/// notice when there is no choice or the first one has no content.
pub open spec fn reply_of(first_contents: Seq<Option<Seq<char>>>) -> Seq<char> {
    if first_contents.len() > 0 && first_contents[0] is Some {
        first_contents[0]->Some_0
    } else {
        "AI returned empty response"@
    }
}

fn copy_messages(v: &Vec<ChatMessage>) -> (res: Vec<ChatMessage>)
    ensures
        messages_view(res@) == messages_view(v@),
{
    let mut res: Vec<ChatMessage> = Vec::new();
    let n = v.len();
    let mut i: usize = 0;
    while i < n
        invariant
            n == v.len(),
            i <= n,
            messages_view(res@) == messages_view(v@).take(i as int),
        decreases n - i,
    {
        let ghost before = res@;
        let m = ChatMessage { role: v[i].role, content: v[i].content.clone() };
        assert(m@ == v@[i as int]@);
        res.push(m);
        assert(res@ == before.push(m));
        assert(messages_view(res@) =~= messages_view(before).push(m@));
        assert(messages_view(res@) =~= messages_view(v@).take(i + 1));
        i = i + 1;
    }
    assert(messages_view(v@).take(n as int) =~= messages_view(v@));
    res
}

/// The conversation that the bot keeps with the AI in each chat.
pub struct ChatHistory {
    history: DashMap<i64, Vec<ChatMessage>>,
}

impl View for ChatHistory {
    type V = Conversations;

    closed spec fn view(&self) -> Conversations {
        chat_contents(self.history)
    }
}

impl ChatHistory {
    /// No conversation yet.
    pub fn new() -> (res: ChatHistory)
        ensures
            res@ == Map::<i64, Seq<MessageView>>::empty(),
    {
        ChatHistory { history: chat_map_new() }
    }

    /// Forgets the conversation of `chat_id`.
    pub fn clear_history(&mut self, chat_id: i64)
        ensures
            final(self)@ == old(self)@.remove(chat_id),
    {
        let _ = chat_map_remove(&mut self.history, chat_id);
    }

    /// Adds `message` to the conversation of `chat_id` and returns the whole
    /// conversation.
    fn add_message(&mut self, chat_id: i64, message: ChatMessage) -> (res: Vec<ChatMessage>)
        ensures
            final(self)@ == after_message(old(self)@, chat_id, message@),
            messages_view(res@) == conversation(final(self)@, chat_id),
    {
        let mut messages = match chat_map_remove(&mut self.history, chat_id) {
            Some(v) => v,
            None => Vec::new(),
        };
        assert(messages_view(messages@) == conversation(old(self)@, chat_id));
        messages.push(message);
        assert(messages_view(messages@) =~= conversation(old(self)@, chat_id).push(message@));
        let copy = copy_messages(&messages);
        chat_map_insert(&mut self.history, chat_id, messages);
        copy
    }

    /// Starts a turn: adds the user's `user_input` to the conversation of
    /// `chat_id`, and returns the messages to send to the AI, which are the
    /// system instructions followed by the whole conversation.
    pub fn begin_turn(&mut self, chat_id: i64, system_instructions: &str, user_input: &str) -> (request: Vec<ChatMessage>)
        ensures
            final(self)@ == after_message(old(self)@, chat_id, (Role::User, user_input@)),
            messages_view(request@) == seq![(Role::System, system_instructions@)] + conversation(final(self)@, chat_id),
    {
        let user = ChatMessage { role: Role::User, content: String::from_str(user_input) };
        let conversation = self.add_message(chat_id, user);
        let mut request: Vec<ChatMessage> = Vec::new();
        request.push(ChatMessage { role: Role::System, content: String::from_str(system_instructions) });
        let mut rest = conversation;
        request.append(&mut rest);
        assert(messages_view(request@) =~= seq![(Role::System, system_instructions@)] + messages_view(conversation@));
        request
    }

    /// Ends a turn: adds the AI's `reply` to the conversation of `chat_id`.
    pub fn finish_turn(&mut self, chat_id: i64, reply: &str)
        ensures
            final(self)@ == after_message(old(self)@, chat_id, (Role::Assistant, reply@)),
    {
        let _ = self.add_message(chat_id, ChatMessage { role: Role::Assistant, content: String::from_str(reply) });
    }
}

/// The text of the AI's reply, given the contents of the choices that it
/// returned.
pub fn reply_text(choice_contents: &Vec<Option<String>>) -> (res: String)
    ensures
        res@ == reply_of(choice_contents@.map_values(|c: Option<String>| match c {
            Some(s) => Some(s@),
            None => None,
        })),
{
    if choice_contents.len() > 0 {
        match &choice_contents[0] {
            Some(s) => return s.clone(),
            None => {},
        }
    }
    String::from_str("AI returned empty response")
}

} // verus!

verus! {

/// A completed turn adds exactly the user's message and then the AI's reply
/// to the chat's conversation.
pub proof fn lemma_turn_appends(m: Conversations, chat: i64, input: Seq<char>, reply: Seq<char>)
    ensures
        conversation(
            after_message(after_message(m, chat, (Role::User, input)), chat, (Role::Assistant, reply)),
            chat,
        ) == conversation(m, chat) + seq![(Role::User, input), (Role::Assistant, reply)],
{
    assert(conversation(m, chat).push((Role::User, input)).push((Role::Assistant, reply))
        =~= conversation(m, chat) + seq![(Role::User, input), (Role::Assistant, reply)]);
}

/// Adding a message to one chat leaves the conversations of the others as
/// they were.
pub proof fn lemma_other_chat_untouched(m: Conversations, chat: i64, other: i64, message: MessageView)
    requires
        chat != other,
    ensures
        conversation(after_message(m, chat, message), other) == conversation(m, other),
{
}

/// After a chat's history is cleared, its next request holds only the system
/// instructions and the new user message.
pub proof fn lemma_cleared_chat_starts_over(m: Conversations, chat: i64, system: Seq<char>, input: Seq<char>)
    ensures
        seq![(Role::System, system)] + conversation(
            after_message(m.remove(chat), chat, (Role::User, input)),
            chat,
        ) == seq![(Role::System, system), (Role::User, input)],
{
    assert(seq![(Role::System, system)] + conversation(m.remove(chat), chat).push((Role::User, input))
        =~= seq![(Role::System, system), (Role::User, input)]);
}

} // verus!
