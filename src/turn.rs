use vstd::prelude::*;

use crate::conversation::Conversation;
use crate::conversation_store::ConversationStore;
use crate::message::{Message, Role};

verus! {

/// The text of the system message that seeds a new conversation: the
/// agent's prompt, a line break, then the serialized retrieval context.
pub open spec fn seed_text(prompt: Seq<char>, context: Seq<char>) -> Seq<char> {
    prompt + seq!['\n'] + context
}

/// The histories after the first half of a question: the conversation under
/// `id` is created with its system message when absent, then the question is
/// appended as a user message.
pub open spec fn opened(
    convs: Map<Seq<char>, Seq<(Role, Seq<char>)>>,
    id: Seq<char>,
    prompt: Seq<char>,
    context: Seq<char>,
    query: Seq<char>,
) -> Map<Seq<char>, Seq<(Role, Seq<char>)>> {
    let base = if convs.contains_key(id) {
        convs[id]
    } else {
        seq![(Role::System, seed_text(prompt, context))]
    };
    convs.insert(id, base.push((Role::User, query)))
}

/// The histories after the second half of a question: the answer is
/// appended as an assistant message, where the conversation exists.
pub open spec fn answered(
    convs: Map<Seq<char>, Seq<(Role, Seq<char>)>>,
    id: Seq<char>,
    response: Seq<char>,
) -> Map<Seq<char>, Seq<(Role, Seq<char>)>> {
    if convs.contains_key(id) {
        convs.insert(id, convs[id].push((Role::Assistant, response)))
    } else {
        convs
    }
}

/// The histories after one whole question on `id` that was answered with
/// `response`.
pub open spec fn asked(
    convs: Map<Seq<char>, Seq<(Role, Seq<char>)>>,
    id: Seq<char>,
    prompt: Seq<char>,
    context: Seq<char>,
    query: Seq<char>,
    response: Seq<char>,
) -> Map<Seq<char>, Seq<(Role, Seq<char>)>> {
    answered(opened(convs, id, prompt, context, query), id, response)
}

/// The first critical section of a question: get or create the conversation
/// under `id`, append `query` as a user message, and hand back the whole
/// history to send to the language model.
pub fn begin_turn<C: ConversationStore>(
    store: &mut C,
    id: &str,
    prompt: &str,
    context: &str,
    query: &str,
) -> (history: Conversation)
    requires
        old(store).well_formed(),
    ensures
        final(store).well_formed(),
        final(store).conversations() == opened(
            old(store).conversations(),
            id@,
            prompt@,
            context@,
            query@,
        ),
        history@ == final(store).conversations()[id@],
{
    let mut conversation = match store.get(id) {
        Some(existing) => existing,
        None => {
            let mut text = prompt.to_owned();
            proof {
                reveal_strlit("\n");
            }
            text.append("\n");
            text.append(context);
            assert(text@ =~= seed_text(prompt@, context@));
            Conversation::seeded(text.as_str())
        },
    };
    conversation.push(Message::new(Role::User, query));
    let history = conversation.duplicate();
    store.create(id, conversation);
    proof {
        assert(store.conversations() =~= opened(
            old(store).conversations(),
            id@,
            prompt@,
            context@,
            query@,
        ));
    }
    history
}

/// The second critical section of a question: append the language model's
/// `response` to the conversation under `id`; false, with nothing changed,
/// when there is no such conversation.
pub fn finish_turn<C: ConversationStore>(store: &mut C, id: &str, response: &str) -> (r: bool)
    requires
        old(store).well_formed(),
    ensures
        final(store).well_formed(),
        r == old(store).conversations().contains_key(id@),
        final(store).conversations() == answered(old(store).conversations(), id@, response@),
{
    store.append(id, Message::new(Role::Assistant, response))
}

/// One whole question, as the conversation store sees it.
pub struct Question {
    pub id: Seq<char>,
    pub prompt: Seq<char>,
    pub context: Seq<char>,
    pub query: Seq<char>,
    pub response: Seq<char>,
}

/// The histories after the questions, one after the other, in order.
pub open spec fn replay(
    convs: Map<Seq<char>, Seq<(Role, Seq<char>)>>,
    questions: Seq<Question>,
) -> Map<Seq<char>, Seq<(Role, Seq<char>)>>
    decreases questions.len(),
{
    if questions.len() == 0 {
        convs
    } else {
        let q = questions.last();
        asked(replay(convs, questions.drop_last()), q.id, q.prompt, q.context, q.query, q.response)
    }
}

/// The questions on `id`, in their order.
pub open spec fn questions_on(questions: Seq<Question>, id: Seq<char>) -> Seq<Question>
    decreases questions.len(),
{
    if questions.len() == 0 {
        questions
    } else if questions.last().id == id {
        questions_on(questions.drop_last(), id).push(questions.last())
    } else {
        questions_on(questions.drop_last(), id)
    }
}

/// A first question on an id that has no conversation yet leaves three
/// messages there: the system seed, the question, the answer. A second
/// question on the same id leaves five, and keeps the system message that
/// the first one wrote.
pub proof fn lemma_first_then_second_question(
    convs: Map<Seq<char>, Seq<(Role, Seq<char>)>>,
    id: Seq<char>,
    first: Question,
    second: Question,
)
    requires
        !convs.contains_key(id),
        first.id == id,
        second.id == id,
    ensures
        ({
            let one = asked(convs, id, first.prompt, first.context, first.query, first.response);
            let two = asked(one, id, second.prompt, second.context, second.query, second.response);
            &&& one[id] == seq![
                (Role::System, seed_text(first.prompt, first.context)),
                (Role::User, first.query),
                (Role::Assistant, first.response),
            ]
            &&& two[id].len() == 5
            &&& two[id][0] == one[id][0]
            &&& two[id] == one[id] + seq![(Role::User, second.query), (Role::Assistant, second.response)]
        }),
{
    let one = asked(convs, id, first.prompt, first.context, first.query, first.response);
    let two = asked(one, id, second.prompt, second.context, second.query, second.response);
    assert(one[id] =~= seq![
        (Role::System, seed_text(first.prompt, first.context)),
        (Role::User, first.query),
        (Role::Assistant, first.response),
    ]);
    assert(two[id] =~= one[id] + seq![(Role::User, second.query), (Role::Assistant, second.response)]);
}

/// A question changes the conversation under its own id only.
pub proof fn lemma_question_frame(
    convs: Map<Seq<char>, Seq<(Role, Seq<char>)>>,
    q: Question,
    other: Seq<char>,
)
    requires
        q.id != other,
    ensures
        asked(convs, q.id, q.prompt, q.context, q.query, q.response).contains_key(other)
            == convs.contains_key(other),
        asked(convs, q.id, q.prompt, q.context, q.query, q.response)[other] == convs[other],
{
}

/// What the conversation under `id` holds after any interleaving of whole
/// questions depends on the questions on `id` alone.
pub proof fn lemma_questions_isolated(
    convs: Map<Seq<char>, Seq<(Role, Seq<char>)>>,
    questions: Seq<Question>,
    id: Seq<char>,
)
    ensures
        replay(convs, questions).contains_key(id) == replay(
            convs,
            questions_on(questions, id),
        ).contains_key(id),
        replay(convs, questions)[id] == replay(convs, questions_on(questions, id))[id],
    decreases questions.len(),
{
    if questions.len() > 0 {
        lemma_questions_isolated(convs, questions.drop_last(), id);
        let q = questions.last();
        if q.id != id {
            lemma_question_frame(replay(convs, questions.drop_last()), q, id);
        } else {
            let on = questions_on(questions, id);
            assert(on.drop_last() =~= questions_on(questions.drop_last(), id));
        }
    }
}

/// Every question that `questions_on` keeps is on `id`.
proof fn lemma_questions_on_id(questions: Seq<Question>, id: Seq<char>)
    ensures
        forall|i: int|
            0 <= i < questions_on(questions, id).len() ==> #[trigger] questions_on(
                questions,
                id,
            )[i].id == id,
    decreases questions.len(),
{
    if questions.len() > 0 {
        let init = questions.drop_last();
        lemma_questions_on_id(init, id);
        let prev = questions_on(init, id);
        assert forall|i: int|
            0 <= i < questions_on(questions, id).len() implies #[trigger] questions_on(
            questions,
            id,
        )[i].id == id by {
            if questions.last().id == id && i < prev.len() {
                assert(questions_on(questions, id)[i] == prev[i]);
            }
        }
    }
}

/// Starting from no conversations, M questions all on one id leave one
/// conversation there of 1 + 2M messages.
proof fn lemma_single_id_length(questions: Seq<Question>, id: Seq<char>)
    requires
        forall|i: int| 0 <= i < questions.len() ==> #[trigger] questions[i].id == id,
    ensures
        replay(Map::empty(), questions).contains_key(id) == (questions.len() > 0),
        questions.len() > 0 ==> replay(Map::empty(), questions)[id].len() == 1 + 2
            * questions.len(),
    decreases questions.len(),
{
    if questions.len() > 0 {
        let init = questions.drop_last();
        assert forall|i: int| 0 <= i < init.len() implies #[trigger] init[i].id == id by {
            assert(init[i] == questions[i]);
        }
        lemma_single_id_length(init, id);
        assert(questions.last().id == id);
    }
}

/// Questions on several conversation ids, interleaved in any order, starting
/// from no conversations: the conversation under `id` exists exactly when M
/// of them, M > 0, were on `id`; it then holds 1 + 2M messages, and holds
/// exactly what those M questions alone would have left.
pub proof fn lemma_interleaved_questions(questions: Seq<Question>, id: Seq<char>)
    ensures
        ({
            let m = questions_on(questions, id).len();
            let after = replay(Map::empty(), questions);
            &&& after.contains_key(id) == (m > 0)
            &&& m > 0 ==> after[id].len() == 1 + 2 * m
            &&& m > 0 ==> after[id] == replay(Map::empty(), questions_on(questions, id))[id]
        }),
{
    lemma_questions_isolated(Map::empty(), questions, id);
    lemma_questions_on_id(questions, id);
    lemma_single_id_length(questions_on(questions, id), id);
}

} // verus!
