//! The message log: what was sent, in the order in which it was sent.
//! Messages are appended and never changed, moved or taken out.

use vstd::prelude::*;
use crate::text::is_blank;

verus! {

/// What a message holds.
pub struct MessageView {
    /// The message's number in the session, counted from 1.
    pub sequence: nat,
    /// The alias that was in use when the message was sent.
    pub author: Seq<char>,
    /// The text as it was sent.
    pub body: Seq<char>,
}

/// One message of the log.
#[derive(Debug, PartialEq, Eq)]
pub struct Message {
    pub sequence: usize,
    pub author: String,
    pub body: String,
}

impl View for Message {
    type V = MessageView;

    open spec fn view(&self) -> MessageView {
        MessageView { sequence: self.sequence as nat, author: self.author@, body: self.body@ }
    }
}

/// What a list of messages holds.
pub open spec fn messages_of(list: Seq<Message>) -> Seq<MessageView> {
    Seq::new(list.len(), |i: int| list[i]@)
}

/// The message at position `i` has the number `i + 1`, and no message has a
/// blank body.
pub open spec fn log_wf(log: Seq<MessageView>) -> bool {
    forall|i: int|
        0 <= i < log.len() ==> (#[trigger] log[i]).sequence == i + 1 && !is_blank(log[i].body)
}

/// The message that a log of this content receives next, for this author
/// and body.
pub open spec fn next_message(
    log: Seq<MessageView>,
    author: Seq<char>,
    body: Seq<char>,
) -> MessageView {
    MessageView { sequence: log.len() + 1, author, body }
}

/// The log with one more message behind the last one.
pub open spec fn appended(
    log: Seq<MessageView>,
    author: Seq<char>,
    body: Seq<char>,
) -> Seq<MessageView> {
    log.push(next_message(log, author, body))
}

/// The message log of a session.
#[derive(Debug)]
pub struct MessageLog {
    messages: Vec<Message>,
}

impl View for MessageLog {
    type V = Seq<MessageView>;

    closed spec fn view(&self) -> Seq<MessageView> {
        messages_of(self.messages@)
    }
}

impl MessageLog {
    /// Whether the log is valid: see [`log_wf`].
    pub open spec fn wf(&self) -> bool {
        log_wf(self@)
    }

    /// The empty log.
    pub fn new() -> (r: MessageLog)
        ensures
            r@ == Seq::<MessageView>::empty(),
            r.wf(),
    {
        let r = MessageLog { messages: Vec::new() };
        assert(r@ =~= Seq::<MessageView>::empty());
        r
    }

    /// How many messages the log holds.
    pub fn len(&self) -> (r: usize)
        ensures
            r == self@.len(),
    {
        self.messages.len()
    }

    /// The messages, oldest first.
    pub fn messages(&self) -> (r: &Vec<Message>)
        ensures
            messages_of(r@) == self@,
    {
        &self.messages
    }

    /// The message at position `i`, where the log has one.
    pub fn get(&self, i: usize) -> (r: Option<&Message>)
        ensures
            i < self@.len() ==> r is Some && r->0@ == self@[i as int],
            i >= self@.len() ==> r is None,
    {
        if i < self.messages.len() {
            Some(&self.messages[i])
        } else {
            None
        }
    }

    /// Appends a message with the next number. No earlier message changes.
    /// The body is text that is not blank, and the log has room for one more
    /// message.
    pub fn append(&mut self, author: String, body: String)
        requires
            old(self)@.len() < usize::MAX,
            !is_blank(body@),
        ensures
            old(self).wf() ==> final(self).wf(),
            final(self)@ == appended(old(self)@, author@, body@),
            final(self)@.len() == old(self)@.len() + 1,
            final(self)@.last().sequence == old(self)@.len() + 1,
            forall|i: int| 0 <= i < old(self)@.len() ==> final(self)@[i] == old(self)@[i],
    {
        let sequence: usize = self.messages.len() + 1;
        self.messages.push(Message { sequence, author, body });
        assert(self@ =~= appended(old(self)@, author@, body@));
    }
}

} // verus!
