//! The reaction policy engine.
//!
//! Given one inbound event, the engine decides whether a compensating
//! removal is warranted: the event must be a reaction addition, the
//! channel must be eligible under the allow-list, and the reaction must be
//! a literal flag emoji. Custom (non-unicode) emoji are never acted on.

use crate::allowlist::spec_allow_list;
use crate::allowlist::channel_allowed;
use crate::allowlist::parse_allow_list;
use crate::emoji::is_flag_emoji;
use crate::emoji::spec_is_flag_emoji;
use vstd::prelude::*;

verus! {

/// A reaction's emoji, as the platform describes it: either a reference
/// to a platform-specific custom emoji, or a literal unicode string.
pub enum EmojiDescriptor {
    Custom { id: u64 },
    Unicode { name: String },
}

/// One reaction-added notification: where it happened and what was added.
pub struct ReactionEvent {
    pub channel_id: u64,
    pub message_id: u64,
    pub user_id: u64,
    pub emoji: EmojiDescriptor,
}

/// An inbound platform event. The policy acts only on reaction additions;
/// every other event kind is collapsed into `Other` and ignored.
pub enum InboundEvent {
    ReactionAdded(ReactionEvent),
    Other,
}

/// What the engine asks the action executor to do: remove every reaction
/// of this emoji from this message. The reacting user is carried along
/// for the audit log only.
pub struct ActionRequest {
    pub channel_id: u64,
    pub message_id: u64,
    pub user_id: u64,
    pub emoji_name: String,
}

/// The engine's verdict on one event.
pub enum PolicyDecision {
    Act(ActionRequest),
    NoAction,
}

/// Whether the allow-list admits a channel: an empty list restricts
/// nothing, a non-empty list admits exactly its members.
pub open spec fn channel_eligible(allow: Seq<u64>, channel_id: u64) -> bool {
    allow.len() == 0 || allow.contains(channel_id)
}

/// Whether a reaction's emoji is a literal flag emoji. A custom emoji
/// never is, whatever it depicts.
pub open spec fn is_flag_reaction(emoji: EmojiDescriptor) -> bool {
    match emoji {
        EmojiDescriptor::Unicode { name } => spec_is_flag_emoji(name@),
        EmojiDescriptor::Custom { .. } => false,
    }
}

/// Whether an event warrants the compensating action under the given
/// allow-list configuration.
pub open spec fn should_act(event: InboundEvent, cfg: Seq<char>) -> bool {
    match event {
        InboundEvent::ReactionAdded(re) => channel_eligible(spec_allow_list(cfg), re.channel_id)
            && is_flag_reaction(re.emoji),
        InboundEvent::Other => false,
    }
}

/// The decision the engine owes for an event: act exactly when
/// `should_act`, and then on the event's own channel, message, user and
/// emoji text.
pub open spec fn spec_decide(event: InboundEvent, cfg: Seq<char>) -> PolicyDecision {
    match event {
        InboundEvent::ReactionAdded(re) => if channel_eligible(spec_allow_list(cfg), re.channel_id) {
            match re.emoji {
                EmojiDescriptor::Unicode { name } => if spec_is_flag_emoji(name@) {
                    PolicyDecision::Act(
                        ActionRequest {
                            channel_id: re.channel_id,
                            message_id: re.message_id,
                            user_id: re.user_id,
                            emoji_name: name,
                        },
                    )
                } else {
                    PolicyDecision::NoAction
                },
                EmojiDescriptor::Custom { .. } => PolicyDecision::NoAction,
            }
        } else {
            PolicyDecision::NoAction
        },
        InboundEvent::Other => PolicyDecision::NoAction,
    }
}

/// Decides one event. The allow-list is parsed from its configuration
/// string on every invocation, as each event is handled independently.
pub fn decide(event: &InboundEvent, allow_cfg: &str) -> (r: PolicyDecision)
    ensures
        r == spec_decide(*event, allow_cfg@),
        r is Act <==> should_act(*event, allow_cfg@),
{
    match event {
        InboundEvent::ReactionAdded(re) => {
            let list = parse_allow_list(allow_cfg);
            if !channel_allowed(&list, re.channel_id) {
                return PolicyDecision::NoAction;
            }
            match &re.emoji {
                EmojiDescriptor::Unicode { name } => {
                    if is_flag_emoji(name.as_str()) {
                        PolicyDecision::Act(
                            ActionRequest {
                                channel_id: re.channel_id,
                                message_id: re.message_id,
                                user_id: re.user_id,
                                emoji_name: name.clone(),
                            },
                        )
                    } else {
                        PolicyDecision::NoAction
                    }
                },
                EmojiDescriptor::Custom { .. } => PolicyDecision::NoAction,
            }
        },
        InboundEvent::Other => PolicyDecision::NoAction,
    }
}

/// A custom-emoji reaction never triggers an action, whatever the channel
/// and whatever the allow-list.
pub proof fn lemma_custom_emoji_never_acts(re: ReactionEvent, cfg: Seq<char>)
    requires
        re.emoji is Custom,
    ensures
        !should_act(InboundEvent::ReactionAdded(re), cfg),
        spec_decide(InboundEvent::ReactionAdded(re), cfg) is NoAction,
{
}

/// A literal emoji of any shape other than exactly two regional indicator
/// symbols never triggers an action.
pub proof fn lemma_non_flag_literal_never_acts(re: ReactionEvent, cfg: Seq<char>)
    requires
        re.emoji matches EmojiDescriptor::Unicode { name } && !spec_is_flag_emoji(name@),
    ensures
        !should_act(InboundEvent::ReactionAdded(re), cfg),
        spec_decide(InboundEvent::ReactionAdded(re), cfg) is NoAction,
{
}

/// A literal emoji of exactly two regional indicator symbols triggers the
/// action whenever the channel is eligible, and the action names the
/// event's own channel, message and emoji.
pub proof fn lemma_flag_in_eligible_channel_acts(re: ReactionEvent, cfg: Seq<char>)
    requires
        re.emoji matches EmojiDescriptor::Unicode { name } && spec_is_flag_emoji(name@),
        channel_eligible(spec_allow_list(cfg), re.channel_id),
    ensures
        should_act(InboundEvent::ReactionAdded(re), cfg),
        spec_decide(InboundEvent::ReactionAdded(re), cfg) matches PolicyDecision::Act(req)
            && req.channel_id == re.channel_id && req.message_id == re.message_id && req.user_id
            == re.user_id && req.emoji_name == re.emoji->name,
{
}

/// Under an empty allow-list every channel is eligible, so a flag
/// reaction triggers the action in any channel at all.
pub proof fn lemma_empty_allow_list_all_channels(re: ReactionEvent, cfg: Seq<char>)
    requires
        spec_allow_list(cfg).len() == 0,
        re.emoji matches EmojiDescriptor::Unicode { name } && spec_is_flag_emoji(name@),
    ensures
        channel_eligible(spec_allow_list(cfg), re.channel_id),
        should_act(InboundEvent::ReactionAdded(re), cfg),
{
}

/// Under a non-empty allow-list, a reaction in an unlisted channel never
/// triggers an action, and one in a listed channel does for a flag emoji.
pub proof fn lemma_allow_list_restricts(re: ReactionEvent, cfg: Seq<char>)
    requires
        spec_allow_list(cfg).len() > 0,
    ensures
        !spec_allow_list(cfg).contains(re.channel_id) ==> !should_act(
            InboundEvent::ReactionAdded(re),
            cfg,
        ),
        spec_allow_list(cfg).contains(re.channel_id) && is_flag_reaction(re.emoji) ==> should_act(
            InboundEvent::ReactionAdded(re),
            cfg,
        ),
{
}

} // verus!
