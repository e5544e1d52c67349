use vstd::prelude::*;

use crate::message::{Message, Role};

verus! {

/// The ordered message history of one conversation, oldest first.
#[derive(Debug)]
pub struct Conversation(pub Vec<Message>);

/// The views of a sequence of messages, in the same order.
pub open spec fn history_of(messages: Seq<Message>) -> Seq<(Role, Seq<char>)> {
    Seq::new(messages.len(), |i: int| messages[i]@)
}

impl View for Conversation {
    type V = Seq<(Role, Seq<char>)>;

    open spec fn view(&self) -> Seq<(Role, Seq<char>)> {
        history_of(self.0@)
    }
}

impl Conversation {
    /// A conversation holding only the system message that seeds it.
    pub fn seeded(system: &str) -> (r: Conversation)
        ensures
            r@ == seq![(Role::System, system@)],
    {
        let mut v: Vec<Message> = Vec::new();
        v.push(Message::new(Role::System, system));
        let r = Conversation(v);
        assert(r@ =~= seq![(Role::System, system@)]);
        r
    }

    pub fn len(&self) -> (r: usize)
        ensures
            r == self@.len(),
    {
        self.0.len()
    }

    /// Appends one message at the end of the history.
    pub fn push(&mut self, message: Message)
        ensures
            final(self)@ == old(self)@.push(message@),
    {
        self.0.push(message);
        assert(final(self)@ =~= old(self)@.push(message@));
    }

    /// A copy of the whole history.
    pub fn duplicate(&self) -> (r: Conversation)
        ensures
            r@ == self@,
    {
        let mut v: Vec<Message> = Vec::new();
        let mut i: usize = 0;
        while i < self.0.len()
            invariant
                i <= self.0@.len(),
                v@.len() == i,
                history_of(v@) == self@.subrange(0, i as int),
            decreases self.0@.len() - i,
        {
            let m = self.0[i].duplicate();
            let ghost before = v@;
            v.push(m);
            proof {
                assert forall|k: int| 0 <= k <= i implies #[trigger] history_of(v@)[k]
                    == self@[k] by {
                    if k < i {
                        assert(history_of(before)[k] == self@.subrange(0, i as int)[k]);
                    }
                }
            }
            i = i + 1;
            assert(history_of(v@) =~= self@.subrange(0, i as int));
        }
        let r = Conversation(v);
        assert(r@ =~= self@);
        r
    }
}

} // verus!
