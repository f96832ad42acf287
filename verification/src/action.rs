//! The compensating action and its outcome.
//!
//! The action itself is one REST call made by an outside client: remove
//! every reaction of the matched emoji from the message. This module
//! classifies the call's reported result into the audit record that is
//! logged, and models the removal itself to state its idempotence: the
//! call clears every matching reaction, so repeating it, or invoking it
//! on an already-cleared message, changes nothing and still succeeds.

use crate::policy::ActionRequest;
use vstd::prelude::*;

verus! {

/// What the outside REST client reported for the one removal call.
pub enum ActionResult {
    Completed,
    Failed { detail: String },
}

/// The audit record of one compensating action, surfaced only as a log
/// line: success carries the message and reacting user for context,
/// failure carries the error detail. A failure is never retried and never
/// escalated.
pub enum ModerationOutcome {
    Removed { message_id: u64, user_id: u64 },
    RemovalFailed { message_id: u64, detail: String },
}

/// The audit record owed for a request and the result its call reported.
pub open spec fn spec_outcome(req: ActionRequest, result: ActionResult) -> ModerationOutcome {
    match result {
        ActionResult::Completed => ModerationOutcome::Removed {
            message_id: req.message_id,
            user_id: req.user_id,
        },
        ActionResult::Failed { detail } => ModerationOutcome::RemovalFailed {
            message_id: req.message_id,
            detail,
        },
    }
}

/// Classifies the reported result of one removal call.
pub fn report_outcome(req: &ActionRequest, result: ActionResult) -> (r: ModerationOutcome)
    ensures
        r == spec_outcome(*req, result),
        r is Removed <==> result is Completed,
{
    match result {
        ActionResult::Completed => ModerationOutcome::Removed {
            message_id: req.message_id,
            user_id: req.user_id,
        },
        ActionResult::Failed { detail } => ModerationOutcome::RemovalFailed {
            message_id: req.message_id,
            detail,
        },
    }
}

/// One reaction standing on a message, in the model of the platform's
/// state that the removal call operates on.
pub struct ReactionRecord {
    pub user_id: u64,
    pub emoji: Seq<char>,
}

/// The removal call's effect on a message's reactions: every reaction of
/// the given emoji is dropped, from all users, and nothing else changes.
pub open spec fn clear_emoji(reactions: Seq<ReactionRecord>, emoji: Seq<char>) -> Seq<
    ReactionRecord,
>
    decreases reactions.len(),
{
    if reactions.len() == 0 {
        reactions
    } else {
        let rest = clear_emoji(reactions.drop_last(), emoji);
        if reactions.last().emoji == emoji {
            rest
        } else {
            rest.push(reactions.last())
        }
    }
}

/// Nothing that the removal leaves behind matches the removed emoji.
pub proof fn lemma_clear_emoji_complete(reactions: Seq<ReactionRecord>, emoji: Seq<char>)
    ensures
        forall|i: int|
            0 <= i < clear_emoji(reactions, emoji).len() ==> clear_emoji(reactions, emoji)[i].emoji
                != emoji,
    decreases reactions.len(),
{
    if reactions.len() > 0 {
        lemma_clear_emoji_complete(reactions.drop_last(), emoji);
        let rest = clear_emoji(reactions.drop_last(), emoji);
        if reactions.last().emoji != emoji {
            let cleared = rest.push(reactions.last());
            assert forall|i: int| 0 <= i < cleared.len() implies (#[trigger] cleared[i]).emoji
                != emoji by {
                if i < rest.len() {
                    assert(cleared[i] == rest[i]);
                } else {
                    assert(cleared[i] == reactions.last());
                }
            }
        }
    }
}

/// Removing an emoji none of whose reactions remain is a no-op: the
/// reaction set is unchanged, and the call still completes.
pub proof fn lemma_clear_emoji_noop(reactions: Seq<ReactionRecord>, emoji: Seq<char>)
    requires
        forall|i: int| 0 <= i < reactions.len() ==> reactions[i].emoji != emoji,
    ensures
        clear_emoji(reactions, emoji) == reactions,
    decreases reactions.len(),
{
    if reactions.len() > 0 {
        lemma_clear_emoji_noop(reactions.drop_last(), emoji);
        assert(clear_emoji(reactions, emoji) =~= reactions);
    }
}

/// Re-invoking the removal on an already-cleared reaction set changes
/// nothing: the compensating action is idempotent.
pub proof fn lemma_clear_emoji_idempotent(reactions: Seq<ReactionRecord>, emoji: Seq<char>)
    ensures
        clear_emoji(clear_emoji(reactions, emoji), emoji) == clear_emoji(reactions, emoji),
{
    lemma_clear_emoji_complete(reactions, emoji);
    lemma_clear_emoji_noop(clear_emoji(reactions, emoji), emoji);
}

} // verus!
