//! The mailbox between agents: a queue with numbered messages.

use crate::protocol::agent::InterAgentMessage;
use vstd::prelude::*;

verus! {

/// The sending end: messages that are on their way, and the number of the last one.
#[derive(Debug)]
pub struct Mailbox {
    sent: Vec<InterAgentMessage>,
    last_seq: u64,
}

/// The receiving end: messages that have arrived and are not taken yet.
#[derive(Debug)]
pub struct MailboxReceiver {
    pending: Vec<InterAgentMessage>,
}

impl Mailbox {
    /// The messages on their way, oldest first.
    pub closed spec fn in_flight(&self) -> Seq<InterAgentMessage> {
        self.sent@
    }

    /// The number of the last message; zero where none was sent.
    pub closed spec fn seq(&self) -> u64 {
        self.last_seq
    }

    pub fn new() -> (r: (Self, MailboxReceiver))
        ensures
            r.0.in_flight() == Seq::<InterAgentMessage>::empty(),
            r.0.seq() == 0,
            r.1.waiting() == Seq::<InterAgentMessage>::empty(),
    {
        (Mailbox { sent: Vec::new(), last_seq: 0 }, MailboxReceiver { pending: Vec::new() })
    }

    /// Sends a message and returns its number, counted from one.
    pub fn send(&mut self, msg: InterAgentMessage) -> (r: u64)
        requires
            old(self).seq() < u64::MAX,
        ensures
            r == old(self).seq() + 1,
            final(self).seq() == r,
            final(self).in_flight() == old(self).in_flight().push(msg),
    {
        self.last_seq = self.last_seq + 1;
        self.sent.push(msg);
        self.last_seq
    }

    /// The number that subscribers see: that of the last message.
    pub fn subscribe(&self) -> (r: u64)
        ensures
            r == self.seq(),
    {
        self.last_seq
    }
}

impl MailboxReceiver {
    /// The messages that have arrived, oldest first.
    pub closed spec fn waiting(&self) -> Seq<InterAgentMessage> {
        self.pending@
    }

    /// Takes in what is on its way.
    fn sync(&mut self, mailbox: &mut Mailbox)
        ensures
            final(self).waiting() == old(self).waiting() + old(mailbox).in_flight(),
            final(mailbox).in_flight() == Seq::<InterAgentMessage>::empty(),
            final(mailbox).seq() == old(mailbox).seq(),
    {
        self.pending.append(&mut mailbox.sent);
    }

    pub fn has_pending(&mut self, mailbox: &mut Mailbox) -> (r: bool)
        ensures
            final(self).waiting() == old(self).waiting() + old(mailbox).in_flight(),
            final(mailbox).in_flight() == Seq::<InterAgentMessage>::empty(),
            final(mailbox).seq() == old(mailbox).seq(),
            r == (final(self).waiting().len() > 0),
    {
        self.sync(mailbox);
        self.pending.len() > 0
    }

    /// Whether one of the messages starts a turn.
    pub fn has_trigger_turn(&mut self, mailbox: &mut Mailbox) -> (r: bool)
        ensures
            final(self).waiting() == old(self).waiting() + old(mailbox).in_flight(),
            final(mailbox).in_flight() == Seq::<InterAgentMessage>::empty(),
            final(mailbox).seq() == old(mailbox).seq(),
            r == exists|i: int|
                0 <= i < final(self).waiting().len() && (#[trigger] final(self).waiting()[i]).trigger_turn,
    {
        self.sync(mailbox);
        let mut i: usize = 0;
        while i < self.pending.len()
            invariant
                i <= self.pending.len(),
                self.waiting() == old(self).waiting() + old(mailbox).in_flight(),
                mailbox.in_flight() == Seq::<InterAgentMessage>::empty(),
                mailbox.seq() == old(mailbox).seq(),
                forall|j: int| 0 <= j < i ==> !(#[trigger] self.pending@[j]).trigger_turn,
            decreases self.pending.len() - i,
        {
            if self.pending[i].trigger_turn {
                assert(self.waiting()[i as int].trigger_turn);
                return true;
            }
            i = i + 1;
        }
        false
    }

    /// Takes all messages out, in the order in which they were sent.
    pub fn drain(&mut self, mailbox: &mut Mailbox) -> (r: Vec<InterAgentMessage>)
        ensures
            r@ == old(self).waiting() + old(mailbox).in_flight(),
            final(self).waiting() == Seq::<InterAgentMessage>::empty(),
            final(mailbox).in_flight() == Seq::<InterAgentMessage>::empty(),
            final(mailbox).seq() == old(mailbox).seq(),
    {
        self.sync(mailbox);
        let mut out: Vec<InterAgentMessage> = Vec::new();
        out.append(&mut self.pending);
        assert(out@ =~= old(self).waiting() + old(mailbox).in_flight());
        out
    }
}

/// Messages are numbered upwards from one without a gap, and taken out once, in the order in
/// which they were sent, behind those that were there before.
pub proof fn law_messages_arrive_in_order(
    start: Mailbox,
    once: Mailbox,
    twice: Mailbox,
    receiver: MailboxReceiver,
    first: InterAgentMessage,
    second: InterAgentMessage,
    taken: Seq<InterAgentMessage>,
)
    requires
        once.in_flight() == start.in_flight().push(first),
        once.seq() == start.seq() + 1,
        twice.in_flight() == once.in_flight().push(second),
        twice.seq() == once.seq() + 1,
        taken == receiver.waiting() + twice.in_flight(),
    ensures
        taken == receiver.waiting() + start.in_flight() + seq![first, second],
        start.seq() < once.seq() < twice.seq(),
{
    assert(taken =~= receiver.waiting() + start.in_flight() + seq![first, second]);
}

} // verus!
