//! The messages that the bot has sent in each chat, kept so that a reset can
//! delete them.
use vstd::prelude::*;
use std::collections::HashMap;

verus! {

broadcast use vstd::std_specs::hash::group_hash_axioms;

/// The ids recorded for `chat`, oldest first; empty when there are none.
pub open spec fn ids_of(m: Map<i64, Seq<i32>>, chat: i64) -> Seq<i32> {
    if m.contains_key(chat) {
        m[chat]
    } else {
        Seq::empty()
    }
}

/// The record after `id` is noted as sent in `chat`.
pub open spec fn after_track(m: Map<i64, Seq<i32>>, chat: i64, id: i32) -> Map<i64, Seq<i32>> {
    m.insert(chat, ids_of(m, chat).push(id))
}

/// The record after the ids of each message in `ids` are noted, in order.
pub open spec fn after_track_all(m: Map<i64, Seq<i32>>, chat: i64, ids: Seq<i32>) -> Map<
    i64,
    Seq<i32>,
>
    decreases ids.len(),
{
    if ids.len() == 0 {
        m
    } else {
        after_track(after_track_all(m, chat, ids.drop_last()), chat, ids.last())
    }
}

/// The ids of the messages that the bot has sent, by chat.
pub struct MessageTracker {
    sent: HashMap<i64, Vec<i32>>,
}

impl View for MessageTracker {
    type V = Map<i64, Seq<i32>>;

    closed spec fn view(&self) -> Map<i64, Seq<i32>> {
        self.sent@.map_values(|v: Vec<i32>| v@)
    }
}

impl MessageTracker {
    /// A tracker that has recorded nothing.
    pub fn new() -> (res: MessageTracker)
        ensures
            res@ == Map::<i64, Seq<i32>>::empty(),
    {
        let res = MessageTracker { sent: HashMap::new() };
        assert(res@ =~= Map::<i64, Seq<i32>>::empty());
        res
    }

    /// Notes that the message `msg_id` was sent in `chat_id`.
    pub fn track(&mut self, chat_id: i64, msg_id: i32)
        ensures
            final(self)@ == after_track(old(self)@, chat_id, msg_id),
    {
        let mut ids = match self.sent.remove(&chat_id) {
            Some(v) => v,
            None => Vec::new(),
        };
        assert(ids@ == ids_of(old(self)@, chat_id));
        ids.push(msg_id);
        self.sent.insert(chat_id, ids);
        assert(self@ =~= after_track(old(self)@, chat_id, msg_id));
    }

    /// Hands out the ids recorded for `chat_id`, oldest first, and forgets
    /// them.
    pub fn take_messages(&mut self, chat_id: i64) -> (res: Vec<i32>)
        ensures
            res@ == ids_of(old(self)@, chat_id),
            final(self)@ == old(self)@.remove(chat_id),
    {
        let res = match self.sent.remove(&chat_id) {
            Some(v) => v,
            None => Vec::new(),
        };
        assert(self@ =~= old(self)@.remove(chat_id));
        res
    }
}

/// What is taken for a chat is what was tracked there since it was last
/// taken, in the order it was tracked.
pub proof fn lemma_take_returns_tracked(m: Map<i64, Seq<i32>>, chat: i64, ids: Seq<i32>)
    ensures
        ids_of(after_track_all(m.remove(chat), chat, ids), chat) == ids,
    decreases ids.len(),
{
    if ids.len() == 0 {
        assert(ids_of(m.remove(chat), chat) =~= ids);
    } else {
        lemma_take_returns_tracked(m, chat, ids.drop_last());
        assert(ids.drop_last().push(ids.last()) =~= ids);
    }
}

/// Tracking in one chat leaves every other chat's record as it was.
pub proof fn lemma_track_other_chat(m: Map<i64, Seq<i32>>, chat: i64, other: i64, id: i32)
    requires
        chat != other,
    ensures
        ids_of(after_track(m, chat, id), other) == ids_of(m, other),
{
}

/// Once taken, a chat's record is empty until something is tracked again.
pub proof fn lemma_take_empties(m: Map<i64, Seq<i32>>, chat: i64)
    ensures
        ids_of(m.remove(chat), chat) == Seq::<i32>::empty(),
{
}

} // verus!
