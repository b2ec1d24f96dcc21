//! The chat service's core: messages built from send requests, and a history
//! that keeps the most recent messages up to a fixed limit.

use vstd::prelude::*;
use std::collections::VecDeque;

verus! {

/// A chat message as stored and listed.
#[derive(Debug, PartialEq, Eq)]
pub struct Message {
    pub id: String,
    pub room_id: String,
    pub sender_id: String,
    pub content: String,
    pub reply_to_message_id: String,
    pub attachments: Vec<String>,
    pub edited: bool,
    pub deleted: bool,
}

/// A message as plain values.
pub struct MessageView {
    pub id: Seq<char>,
    pub room_id: Seq<char>,
    pub sender_id: Seq<char>,
    pub content: Seq<char>,
    pub reply_to_message_id: Seq<char>,
    pub attachments: Seq<Seq<char>>,
    pub edited: bool,
    pub deleted: bool,
}

impl View for Message {
    type V = MessageView;

    open spec fn view(&self) -> MessageView {
        MessageView {
            id: self.id@,
            room_id: self.room_id@,
            sender_id: self.sender_id@,
            content: self.content@,
            reply_to_message_id: self.reply_to_message_id@,
            attachments: self.attachments@.map_values(|a: String| a@),
            edited: self.edited,
            deleted: self.deleted,
        }
    }
}

impl Clone for Message {
    fn clone(&self) -> (r: Self)
        ensures
            r@ == self@,
    {
        let attachments = self.attachments.clone();
        assert(attachments@ =~= self.attachments@);
        Message {
            id: self.id.clone(),
            room_id: self.room_id.clone(),
            sender_id: self.sender_id.clone(),
            content: self.content.clone(),
            reply_to_message_id: self.reply_to_message_id.clone(),
            attachments,
            edited: self.edited,
            deleted: self.deleted,
        }
    }
}

/// What a client sends to post a message.
#[derive(Debug, PartialEq, Eq)]
pub struct SendMessageRequest {
    pub room_id: String,
    pub content: String,
    pub reply_to_message_id: String,
    pub attachments: Vec<String>,
}

/// The identifier given to a posted message.
#[derive(Debug, PartialEq, Eq)]
pub struct SendMessageResponse {
    pub message_id: String,
}

/// A request for the stored messages; a negative limit stands for the
/// service's own limit.
#[derive(Debug, PartialEq, Eq)]
pub struct ListMessagesRequest {
    pub room_id: String,
    pub limit: i32,
}

/// The listed messages, oldest first.
#[derive(Debug, PartialEq, Eq)]
pub struct ListMessagesResponse {
    pub messages: Vec<Message>,
}

/// What can happen in a chat.
#[derive(Debug, Clone, PartialEq, Eq)]
pub enum Event {
    NewMessage(Message),
}

/// An event, possibly empty.
#[derive(Debug, Clone, PartialEq, Eq)]
pub struct ChatEvent {
    pub event: Option<Event>,
}

/// The text form of a version-7 UUID: 36 characters, hyphens at 8, 13, 18 and
/// 23, the version digit `7` at 14, a variant digit among `8 9 a b` at 19, and
/// lower-case hexadecimal digits elsewhere.
pub open spec fn is_uuid_v7_text(s: Seq<char>) -> bool {
    &&& s.len() == 36
    &&& forall|i: int|
        0 <= i < 36 ==> if i == 8 || i == 13 || i == 18 || i == 23 {
            #[trigger] s[i] == '-'
        } else {
            ('0' <= s[i] <= '9') || ('a' <= s[i] <= 'f')
        }
    &&& s[14] == '7'
    &&& (s[19] == '8' || s[19] == '9' || s[19] == 'a' || s[19] == 'b')
}

/// A fresh message identifier: `uuid::Uuid::now_v7()` in its `Display` form,
/// the hyphenated lower-case text. Which identifier comes out depends on the
/// clock and on chance; only its shape is stated.
#[verifier::external_body]
fn new_message_id() -> (id: String)
    ensures
        is_uuid_v7_text(id@),
{
    uuid::Uuid::now_v7().to_string()
}

/// The message that a send request becomes.
pub open spec fn message_of(request: SendMessageRequest, sender_id: Seq<char>, id: Seq<char>) -> MessageView {
    MessageView {
        id,
        room_id: request.room_id@,
        sender_id,
        content: request.content@,
        reply_to_message_id: request.reply_to_message_id@,
        attachments: request.attachments@.map_values(|a: String| a@),
        edited: false,
        deleted: false,
    }
}

/// The message that a send request becomes keeps every field of the request
/// unchanged (room, content, the message it replies to, attachments), carries
/// the given sender and identifier, and is neither edited nor deleted.
pub proof fn lemma_message_keeps_request(request: SendMessageRequest, sender_id: Seq<char>, id: Seq<char>)
    ensures
        message_of(request, sender_id, id).id == id,
        message_of(request, sender_id, id).room_id == request.room_id@,
        message_of(request, sender_id, id).sender_id == sender_id,
        message_of(request, sender_id, id).content == request.content@,
        message_of(request, sender_id, id).reply_to_message_id == request.reply_to_message_id@,
        message_of(request, sender_id, id).attachments.len() == request.attachments@.len(),
        forall|k: int| 0 <= k < request.attachments@.len()
            ==> #[trigger] message_of(request, sender_id, id).attachments[k] == request.attachments@[k]@,
        !message_of(request, sender_id, id).edited,
        !message_of(request, sender_id, id).deleted,
{
}

impl Message {
    /// The message posted by `request`, from `sender_id` (empty when the
    /// sender's address is unknown), under the identifier `id`; neither edited
    /// nor deleted.
    pub fn from_request(request: SendMessageRequest, sender_id: String, id: String) -> (m: Message)
        ensures
            m@ == message_of(request, sender_id@, id@),
            m.id@ == id@,
            m.room_id@ == request.room_id@,
            m.sender_id@ == sender_id@,
            m.content@ == request.content@,
            m.reply_to_message_id@ == request.reply_to_message_id@,
            m.attachments@ == request.attachments@,
            !m.edited,
            !m.deleted,
    {
        Message {
            id,
            room_id: request.room_id,
            sender_id,
            content: request.content,
            reply_to_message_id: request.reply_to_message_id,
            attachments: request.attachments,
            edited: false,
            deleted: false,
        }
    }
}

/// The last `n` items of `s` (all of them when there are fewer).
pub open spec fn last_n<A>(s: Seq<A>, n: nat) -> Seq<A> {
    if s.len() <= n { s } else { s.skip(s.len() - n) }
}

/// A history that keeps `limit` messages never holds more than `limit`, and
/// the message that joined it last is its newest; while there is room, nothing
/// is dropped.
pub proof fn lemma_newest_kept<A>(s: Seq<A>, m: A, limit: nat)
    requires
        0 < limit,
    ensures
        last_n(s.push(m), limit).len() <= limit,
        last_n(s.push(m), limit).len() > 0,
        last_n(s.push(m), limit).last() == m,
        s.len() < limit ==> last_n(s.push(m), limit) == s.push(m),
{
}

/// The number of messages that a listing with `requested` returns out of
/// `stored`, for a service keeping `limit` messages.
pub open spec fn listed_count(requested: i32, limit: usize, stored: nat) -> nat {
    let wanted: nat = if requested >= 0 { requested as nat } else { limit as nat };
    if wanted <= stored { wanted } else { stored }
}

/// The history reached from an empty one by adding the items of `ms` in
/// order, each time keeping the last `limit`, as `push_event` does.
pub open spec fn history_after_pushes<A>(ms: Seq<A>, limit: nat) -> Seq<A>
    decreases ms.len(),
{
    if ms.len() == 0 {
        Seq::empty()
    } else {
        last_n(history_after_pushes(ms.drop_last(), limit).push(ms.last()), limit)
    }
}

/// Keeping the last `n` items before adding one changes nothing about which
/// `n` items are kept after it.
pub proof fn lemma_last_n_push<A>(s: Seq<A>, m: A, n: nat)
    requires
        0 < n,
    ensures
        last_n(last_n(s, n).push(m), n) == last_n(s.push(m), n),
{
    if s.len() > n {
        assert(last_n(last_n(s, n).push(m), n) =~= last_n(s.push(m), n));
    }
}

/// Adding messages one by one to an empty history that keeps `limit`
/// messages leaves exactly the newest `limit` of them, oldest first.
pub proof fn lemma_pushes_keep_newest<A>(ms: Seq<A>, limit: nat)
    requires
        0 < limit,
    ensures
        history_after_pushes(ms, limit) == last_n(ms, limit),
        history_after_pushes(ms, limit).len() <= limit,
    decreases ms.len(),
{
    if ms.len() > 0 {
        lemma_pushes_keep_newest(ms.drop_last(), limit);
        lemma_last_n_push(ms.drop_last(), ms.last(), limit);
        assert(ms.drop_last().push(ms.last()) =~= ms);
    }
}

/// A listing whose limit is at least the number of stored messages returns
/// the whole history; after a message was posted, its last item is that
/// message.
pub proof fn lemma_full_listing_ends_with_newest(
    h: Seq<MessageView>,
    m: MessageView,
    limit: usize,
    requested: i32,
)
    requires
        0 < limit,
        requested >= 0,
        requested >= last_n(h.push(m), limit as nat).len(),
    ensures
        ({
            let stored = last_n(h.push(m), limit as nat);
            let listed = stored.take(listed_count(requested, limit, stored.len()) as int);
            &&& listed == stored
            &&& listed.last() == m
        }),
{
    let stored = last_n(h.push(m), limit as nat);
    lemma_newest_kept(h, m, limit as nat);
    assert(stored.take(stored.len() as int) =~= stored);
}

/// The stored history of a chat: at most `limit` messages, oldest first.
pub struct ChatService {
    limit: usize,
    history: VecDeque<Message>,
}

impl ChatService {
    /// The history holds at most `limit` messages, and the limit is positive.
    pub closed spec fn wf(self) -> bool {
        &&& 0 < self.limit
        &&& self.history@.len() <= self.limit
    }

    /// The largest number of messages kept.
    pub closed spec fn limit(self) -> nat {
        self.limit as nat
    }

    /// The stored messages, oldest first.
    pub closed spec fn messages(self) -> Seq<MessageView> {
        self.history@.map_values(|m: Message| m@)
    }

    /// A well-formed history keeps a positive limit and holds at most that
    /// many messages.
    pub proof fn lemma_wf_bounds(self)
        requires
            self.wf(),
        ensures
            0 < self.limit(),
            self.messages().len() <= self.limit(),
    {
    }

    /// An empty history keeping at most `limit` messages. The limit is also
    /// the capacity of the event channel beside it, which must lie between 1
    /// and `usize::MAX / 2`.
    pub fn new(limit: usize) -> (r: Self)
        requires
            0 < limit <= usize::MAX / 2,
        ensures
            r.wf(),
            r.limit() == limit,
            0 < r.limit(),
            r.messages() == Seq::<MessageView>::empty(),
    {
        let r = ChatService { limit, history: VecDeque::new() };
        assert(r.messages() =~= Seq::<MessageView>::empty());
        r
    }

    /// The largest number of messages kept.
    pub fn get_limit(&self) -> (r: usize)
        ensures
            r == self.limit(),
    {
        self.limit
    }

    /// Applies `event`: a new message joins the history, the oldest ones
    /// leaving so that at most `limit` remain; an empty event changes nothing.
    pub fn push_event(&mut self, event: ChatEvent)
        requires
            old(self).wf(),
        ensures
            final(self).wf(),
            final(self).limit() == old(self).limit(),
            0 < final(self).limit(),
            final(self).messages().len() <= final(self).limit(),
            final(self).messages() == match event.event {
                Some(Event::NewMessage(m)) => last_n(old(self).messages().push(m@), old(self).limit()),
                None => old(self).messages(),
            },
    {
        let message = match event.event {
            Some(Event::NewMessage(m)) => m,
            None => return,
        };
        let ghost start = self.history@;
        let ghost popped: int = 0;
        while self.history.len() >= self.limit
            invariant
                0 < self.limit,
                self.limit == old(self).limit,
                0 <= popped <= start.len(),
                self.history@ == start.skip(popped),
                popped == 0 || start.len() - popped >= self.limit - 1,
            decreases self.history@.len(),
        {
            self.history.pop_front();
            proof {
                popped = popped + 1;
                assert(self.history@ =~= start.skip(popped));
            }
        }
        let ghost kept = self.history@;
        self.history.push_back(message);
        proof {
            let old_view = start.map_values(|m: Message| m@);
            let pushed = old_view.push(message@);
            assert(self.messages() =~= last_n(pushed, self.limit as nat)) by {
                if pushed.len() > self.limit {
                    assert(popped == pushed.len() - self.limit);
                }
            }
        }
    }

    /// Posts the message of `request` from `sender_id` under a fresh
    /// version-7 UUID, and answers with that identifier.
    pub fn send_message(&mut self, request: SendMessageRequest, sender_id: String) -> (r: SendMessageResponse)
        requires
            old(self).wf(),
        ensures
            final(self).wf(),
            final(self).limit() == old(self).limit(),
            0 < final(self).limit(),
            final(self).messages().len() <= final(self).limit(),
            final(self).messages().len() > 0,
            final(self).messages().last() == message_of(request, sender_id@, r.message_id@),
            is_uuid_v7_text(r.message_id@),
            final(self).messages() == last_n(
                old(self).messages().push(message_of(request, sender_id@, r.message_id@)),
                old(self).limit(),
            ),
    {
        let id = new_message_id();
        let message = Message::from_request(request, sender_id, id);
        let message_id = message.id.clone();
        self.push_event(ChatEvent { event: Some(Event::NewMessage(message)) });
        SendMessageResponse { message_id }
    }

    /// The stored messages, oldest first, cut to the requested limit (to the
    /// service's limit when the request's is negative). The room is not
    /// consulted.
    pub fn list_messages(&self, request: &ListMessagesRequest) -> (r: ListMessagesResponse)
        requires
            self.wf(),
        ensures
            r.messages@.map_values(|m: Message| m@) == self.messages().take(
                listed_count(request.limit, self.limit() as usize, self.messages().len()) as int,
            ),
            request.limit < 0 ==> r.messages@.map_values(|m: Message| m@) == self.messages(),
            request.limit >= self.messages().len() ==> r.messages@.map_values(|m: Message| m@) == self.messages(),
    {
        let n = self.history.len();
        let mut messages: Vec<Message> = Vec::new();
        for i in 0..n
            invariant
                n == self.history@.len(),
                messages@.len() == i,
                forall|j: int| 0 <= j < i ==> (#[trigger] messages@[j])@ == self.history@[j]@,
        {
            messages.push(self.history[i].clone());
        }
        let wanted: usize = if request.limit >= 0 { request.limit as usize } else { self.limit };
        messages.truncate(wanted);
        assert(messages@.map_values(|m: Message| m@) =~= self.messages().take(
            listed_count(request.limit, self.limit, self.messages().len()) as int,
        ));
        ListMessagesResponse { messages }
    }
}

} // verus!
