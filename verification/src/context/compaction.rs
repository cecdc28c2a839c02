//! Compaction of a conversation: the request for a summary and the history that
//! starts from one.

use crate::model;
use crate::model::{MessageRole, MessageView, ModelMessage};
use crate::text;
use vstd::prelude::*;

verus! {

/// A message that only has a text.
pub open spec fn plain(role: MessageRole, content: Seq<char>) -> MessageView {
    MessageView {
        role,
        content: Some(content),
        tool_calls: Seq::empty(),
        tool_call_id: None,
        reasoning_content: None,
    }
}

/// A message that only has a text.
pub fn plain_message(role: MessageRole, content: String) -> (r: ModelMessage)
    ensures
        r@ == plain(role, content@),
{
    let r = ModelMessage {
        role,
        content: Some(content),
        tool_calls: Vec::new(),
        tool_call_id: None,
        reasoning_content: None,
    };
    assert(r@.tool_calls =~= Seq::empty());
    r
}

/// The copy of a slice of messages.
pub fn copy_messages(v: &[ModelMessage]) -> (r: Vec<ModelMessage>)
    ensures
        model::messages(r@) == model::messages(v@),
{
    let mut r: Vec<ModelMessage> = Vec::new();
    append_copies(&mut r, v);
    assert(model::messages(r@) =~= model::messages(v@));
    r
}

/// Puts copies of messages behind a list.
pub fn append_copies(list: &mut Vec<ModelMessage>, v: &[ModelMessage])
    ensures
        model::messages(final(list)@) == model::messages(old(list)@) + model::messages(v@),
{
    let ghost start = list@;
    let mut i: usize = 0;
    assert(model::messages(start) + model::messages(v@.take(0)) =~= model::messages(start));
    while i < v.len()
        invariant
            i <= v.len(),
            model::messages(list@) == model::messages(start) + model::messages(v@.take(i as int)),
        decreases v.len() - i,
    {
        let ghost prior = list@;
        list.push(v[i].clone());
        proof {
            assert(model::messages(list@) =~= model::messages(prior).push(v@[i as int]@));
            assert(model::messages(v@.take(i + 1)) =~= model::messages(v@.take(i as int)).push(v@[i as int]@));
        }
        i = i + 1;
    }
    assert(v@.take(i as int) =~= v@);
}

/// The history with a request for a summary behind it.
pub fn build_compaction_request(history: &[ModelMessage]) -> (r: Vec<ModelMessage>)
    ensures
        model::messages(r@) == model::messages(history@).push(
            plain(
                MessageRole::User,
                "Please summarize the conversation above, including key decisions, file changes made, and any unresolved issues. Keep the summary concise."@,
            ),
        ),
{
    let mut r = copy_messages(history);
    let ghost prior = r@;
    let m = plain_message(
        MessageRole::User,
        text::owned(
            "Please summarize the conversation above, including key decisions, file changes made, and any unresolved issues. Keep the summary concise.",
        ),
    );
    r.push(m);
    assert(model::messages(r@) =~= model::messages(prior).push(m@));
    r
}

/// The history after a compaction: a message with the summary, then the recent
/// messages.
pub fn build_compacted_history(summary: &str, recent_user_messages: &[ModelMessage]) -> (r: Vec<
    ModelMessage,
>)
    ensures
        model::messages(r@) == seq![
            plain(
                MessageRole::User,
                "This conversation was compacted. Summary of previous context:"@ + "\n"@ + summary@,
            ),
        ] + model::messages(recent_user_messages@),
{
    let m = plain_message(
        MessageRole::User,
        text::cat3(
            "This conversation was compacted. Summary of previous context:",
            "\n",
            summary,
        ),
    );
    let mut r: Vec<ModelMessage> = Vec::new();
    r.push(m);
    assert(model::messages(r@) =~= seq![m@]);
    append_copies(&mut r, recent_user_messages);
    r
}

/// A plain message says just its text, in its role.
pub proof fn law_plain_message_says_its_text(role: MessageRole, content: Seq<char>)
    ensures
        plain(role, content).role == role,
        plain(role, content).content == Some(content),
        plain(role, content).tool_calls.len() == 0,
        plain(role, content).tool_call_id is None,
        plain(role, content).reasoning_content is None,
{
}

} // verus!
