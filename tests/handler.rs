use swissarmybot::announce::{VoiceState, VoiceTransition};
use swissarmybot::graphql::Query;
use swissarmybot::handler::{Dispatch, GatewayEvent, Handler, QuoteCommand, SlashCommand};
use swissarmybot::moderation::{Emoji, MessageRef, ReactionEvent};
use swissarmybot::uiua::format_stack;

#[test]
fn reactions_go_to_the_moderator() {
    let ev = ReactionEvent {
        emoji: Emoji::Unicode("⬇️".to_string()),
        message: MessageRef { channel_id: 1, message_id: 2 },
    };
    match Handler::dispatch(GatewayEvent::ReactionAdd(ev)) {
        Dispatch::Moderate(m) => assert_eq!(m.event.message.message_id, 2),
        _ => panic!("expected the moderator"),
    }
}

#[test]
fn voice_updates_go_to_the_announcer() {
    let t = VoiceTransition {
        old: None,
        new: VoiceState {
            user_id: 3,
            guild_id: Some(4),
            channel_id: Some(5),
            member_id: Some(3),
            self_deaf: false,
        },
    };
    match Handler::dispatch(GatewayEvent::VoiceStateUpdate(t)) {
        Dispatch::Announce(a) => assert_eq!(a.transition, t),
        _ => panic!("expected the announcer"),
    }
}

#[test]
fn other_events_are_ignored() {
    assert!(matches!(Handler::dispatch(GatewayEvent::Other), Dispatch::Ignore));
}

#[test]
fn commands_by_name() {
    assert_eq!(Handler::command_for("quote"), SlashCommand::Quote);
    assert_eq!(Handler::command_for("drunk"), SlashCommand::Drunk);
    assert_eq!(Handler::command_for("spill"), SlashCommand::Spill);
    assert_eq!(Handler::command_for("Quote"), SlashCommand::Unknown);
    assert_eq!(Handler::command_for(""), SlashCommand::Unknown);
}

#[test]
fn quote_commands_by_name() {
    assert_eq!(Handler::quote_command_for("add"), QuoteCommand::Add);
    assert_eq!(Handler::quote_command_for("remove"), QuoteCommand::Remove);
    assert_eq!(Handler::quote_command_for("get"), QuoteCommand::Get);
    assert_eq!(Handler::quote_command_for("list"), QuoteCommand::List);
    assert_eq!(Handler::quote_command_for("lists"), QuoteCommand::Unknown);
}

#[test]
fn stack_one_value_per_line() {
    let stack = vec!["1".to_string(), "[2 3]".to_string()];
    assert_eq!(format_stack(&stack), "1\n[2 3]\n");
    assert_eq!(format_stack(&[]), "");
}

#[test]
fn api_version() {
    assert_eq!(Query::apiVersion(), "1.0");
}
