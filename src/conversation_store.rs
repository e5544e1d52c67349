use vstd::prelude::*;

use crate::conversation::Conversation;
use crate::message::{Message, Role};
use crate::registry::Registry;

verus! {

/// Per-id conversation histories with get-or-create semantics.
///
/// Exactly one history exists per id; `create` on an id that already has
/// one replaces it.
pub trait ConversationStore {
    /// The invariant that every operation keeps.
    spec fn well_formed(&self) -> bool;

    /// The history held under each conversation id.
    spec fn conversations(&self) -> Map<Seq<char>, Seq<(Role, Seq<char>)>>;

    /// A copy of the history held under `id`, if there is one.
    fn get(&self, id: &str) -> (r: Option<Conversation>)
        requires
            self.well_formed(),
        ensures
            r is Some <==> self.conversations().contains_key(id@),
            r matches Some(c) ==> c@ == self.conversations()[id@],
    ;

    /// Stores `conversation` under `id`, replacing what was there.
    fn create(&mut self, id: &str, conversation: Conversation)
        requires
            old(self).well_formed(),
        ensures
            final(self).well_formed(),
            final(self).conversations() == old(self).conversations().insert(id@, conversation@),
    ;

    /// Appends `message` to the history under `id`; false, with nothing
    /// changed, when there is none.
    fn append(&mut self, id: &str, message: Message) -> (r: bool)
        requires
            old(self).well_formed(),
        ensures
            final(self).well_formed(),
            r == old(self).conversations().contains_key(id@),
            r ==> final(self).conversations() == old(self).conversations().insert(
                id@,
                old(self).conversations()[id@].push(message@),
            ),
            !r ==> final(self).conversations() == old(self).conversations(),
    ;
}

/// The history of each conversation in `conversations`.
pub open spec fn histories_of(
    conversations: Map<Seq<char>, Conversation>,
) -> Map<Seq<char>, Seq<(Role, Seq<char>)>> {
    Map::new(|k: Seq<char>| conversations.contains_key(k), |k: Seq<char>| conversations[k]@)
}

/// A conversation store that keeps every history in memory for the
/// lifetime of the process.
pub struct InMemoryConversationStore {
    conversations: Registry<Conversation>,
}

impl InMemoryConversationStore {
    pub fn new() -> (r: InMemoryConversationStore)
        ensures
            r.well_formed(),
            r.conversations() == Map::<Seq<char>, Seq<(Role, Seq<char>)>>::empty(),
    {
        let r = InMemoryConversationStore { conversations: Registry::new() };
        assert(r.conversations() =~= Map::<Seq<char>, Seq<(Role, Seq<char>)>>::empty());
        r
    }

    /// Number of conversations held.
    pub fn len(&self) -> (r: usize)
        requires
            self.well_formed(),
        ensures
            r == self.conversations().len(),
    {
        assert(self.conversations().dom() =~= self.conversations.view().dom());
        self.conversations.len()
    }
}

impl ConversationStore for InMemoryConversationStore {
    closed spec fn well_formed(&self) -> bool {
        self.conversations.well_formed()
    }

    closed spec fn conversations(&self) -> Map<Seq<char>, Seq<(Role, Seq<char>)>> {
        histories_of(self.conversations.view())
    }

    fn get(&self, id: &str) -> (r: Option<Conversation>) {
        match self.conversations.get(id) {
            Some(c) => Some(c.duplicate()),
            None => None,
        }
    }

    fn create(&mut self, id: &str, conversation: Conversation) {
        self.conversations.insert(id, conversation);
        assert(self.conversations() =~= old(self).conversations().insert(id@, conversation@));
    }

    fn append(&mut self, id: &str, message: Message) -> (r: bool) {
        match self.conversations.get(id) {
            Some(c) => {
                let mut updated = c.duplicate();
                updated.push(message);
                let ghost view = updated@;
                self.conversations.insert(id, updated);
                assert(self.conversations() =~= old(self).conversations().insert(id@, view));
                true
            },
            None => false,
        }
    }
}

impl Default for InMemoryConversationStore {
    fn default() -> (r: InMemoryConversationStore)
        ensures
            r.well_formed(),
            r.conversations() == Map::<Seq<char>, Seq<(Role, Seq<char>)>>::empty(),
    {
        InMemoryConversationStore::new()
    }
}

} // verus!
