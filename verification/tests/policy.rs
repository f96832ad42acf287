use flagmod::policy::decide;
use flagmod::policy::EmojiDescriptor;
use flagmod::policy::InboundEvent;
use flagmod::policy::PolicyDecision;
use flagmod::policy::ReactionEvent;

fn flag_reaction(channel_id: u64) -> InboundEvent {
    InboundEvent::ReactionAdded(ReactionEvent {
        channel_id,
        message_id: 900,
        user_id: 42,
        emoji: EmojiDescriptor::Unicode { name: String::from("\u{1F1E9}\u{1F1EA}") },
    })
}

#[test]
fn custom_emoji_never_acts() {
    let event = InboundEvent::ReactionAdded(ReactionEvent {
        channel_id: 111,
        message_id: 900,
        user_id: 42,
        emoji: EmojiDescriptor::Custom { id: 123456 },
    });
    assert!(matches!(decide(&event, ""), PolicyDecision::NoAction));
    let event = InboundEvent::ReactionAdded(ReactionEvent {
        channel_id: 333,
        message_id: 900,
        user_id: 42,
        emoji: EmojiDescriptor::Custom { id: 123456 },
    });
    assert!(matches!(decide(&event, "111,222,333"), PolicyDecision::NoAction));
}

#[test]
fn non_flag_literal_never_acts() {
    let event = InboundEvent::ReactionAdded(ReactionEvent {
        channel_id: 111,
        message_id: 900,
        user_id: 42,
        emoji: EmojiDescriptor::Unicode { name: String::from("\u{1F600}") },
    });
    assert!(matches!(decide(&event, ""), PolicyDecision::NoAction));
    let event = InboundEvent::ReactionAdded(ReactionEvent {
        channel_id: 111,
        message_id: 900,
        user_id: 42,
        emoji: EmojiDescriptor::Unicode {
            name: String::from("\u{1F1E9}\u{1F1EA}\u{1F1EB}"),
        },
    });
    assert!(matches!(decide(&event, ""), PolicyDecision::NoAction));
}

#[test]
fn flag_acts_and_names_the_event() {
    match decide(&flag_reaction(111), "111,222") {
        PolicyDecision::Act(req) => {
            assert_eq!(req.channel_id, 111);
            assert_eq!(req.message_id, 900);
            assert_eq!(req.user_id, 42);
            assert_eq!(req.emoji_name, "\u{1F1E9}\u{1F1EA}");
        }
        PolicyDecision::NoAction => panic!("a flag in a listed channel must act"),
    }
}

#[test]
fn empty_allow_list_makes_every_channel_eligible() {
    assert!(matches!(decide(&flag_reaction(1), ""), PolicyDecision::Act(_)));
    assert!(matches!(decide(&flag_reaction(333), ""), PolicyDecision::Act(_)));
    assert!(matches!(decide(&flag_reaction(u64::MAX), ""), PolicyDecision::Act(_)));
}

#[test]
fn unlisted_channel_never_acts_and_listed_channel_does() {
    assert!(matches!(decide(&flag_reaction(333), "111,222"), PolicyDecision::NoAction));
    assert!(matches!(decide(&flag_reaction(111), "111,222"), PolicyDecision::Act(_)));
}

#[test]
fn other_events_are_ignored() {
    assert!(matches!(decide(&InboundEvent::Other, ""), PolicyDecision::NoAction));
    assert!(matches!(decide(&InboundEvent::Other, "111"), PolicyDecision::NoAction));
}
