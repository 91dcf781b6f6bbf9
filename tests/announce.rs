use swissarmybot::announce::{
    compose_announcement, AnnouncerAnswer, AnnouncerCall, AnnouncerOutcome, JoinAnnouncer,
    VoiceState, VoiceTransition,
};
use swissarmybot::config::{PolicyConfig, ANNOUNCE_CHANNEL_ID, RETRACT_DELAY_SECS};

fn joined(user: u64, channel: Option<u64>, deaf: bool) -> VoiceTransition {
    VoiceTransition {
        old: None,
        new: VoiceState {
            user_id: user,
            guild_id: Some(5),
            channel_id: channel,
            member_id: Some(user),
            self_deaf: deaf,
        },
    }
}

fn run(t: VoiceTransition, answers: Vec<AnnouncerAnswer>) -> (Vec<AnnouncerCall>, JoinAnnouncer) {
    let cfg = PolicyConfig::standard();
    let mut a = JoinAnnouncer::new(t);
    let mut calls = Vec::new();
    let mut answers = answers.into_iter();
    let mut answer = None;
    while let Some(call) = a.step(&cfg, answer) {
        calls.push(call);
        answer = answers.next();
    }
    (calls, a)
}

#[test]
fn lone_joiner_is_announced_then_retracted() {
    let (calls, announcer) = run(
        joined(1001, Some(7), false),
        vec![
            AnnouncerAnswer::Members(vec![1001]),
            AnnouncerAnswer::Sent(900),
            AnnouncerAnswer::Elapsed,
            AnnouncerAnswer::Done,
        ],
    );
    assert_eq!(calls.len(), 4);
    assert!(matches!(calls[0], AnnouncerCall::FetchMembers { guild_id: 5, channel_id: 7 }));
    match &calls[1] {
        AnnouncerCall::Send { channel_id, text } => {
            assert_eq!(*channel_id, ANNOUNCE_CHANNEL_ID);
            let head = "<@&1395071978838167623> <@1001> ";
            let tail = " <#7>";
            assert!(text.starts_with(head));
            assert!(text.ends_with(tail));
            let phrase = &text[head.len()..text.len() - tail.len()];
            let cfg = PolicyConfig::standard();
            assert!(cfg.phrases.iter().any(|p| p == phrase));
        }
        _ => panic!("second call is not the announcement"),
    }
    assert!(matches!(calls[2], AnnouncerCall::Wait { seconds: 600 }));
    assert!(matches!(
        calls[3],
        AnnouncerCall::Delete { channel_id, message_id: 900 } if channel_id == ANNOUNCE_CHANNEL_ID
    ));
    assert_eq!(announcer.outcome(), Some(AnnouncerOutcome::Retracted));
}

#[test]
fn announcement_text_is_exact() {
    let cfg = PolicyConfig::standard();
    let text = compose_announcement(&cfg, 1001, 7, "joined");
    assert_eq!(text, "<@&1395071978838167623> <@1001> joined <#7>");
}

#[test]
fn step_with_phrase_uses_the_phrase() {
    let cfg = PolicyConfig::standard();
    let mut a = JoinAnnouncer::new(joined(3, Some(44), false));
    assert!(a.step_with_phrase(&cfg, None, "mounted").is_some());
    let call = a.step_with_phrase(&cfg, Some(AnnouncerAnswer::Members(vec![3])), "mounted");
    match call {
        Some(AnnouncerCall::Send { text, .. }) => {
            assert_eq!(text, "<@&1395071978838167623> <@3> mounted <#44>")
        }
        _ => panic!("expected the announcement"),
    }
}

#[test]
fn self_transition_fetches_nothing() {
    let mut t = joined(1001, Some(7), false);
    t.old = Some(VoiceState {
        user_id: 1001,
        guild_id: Some(5),
        channel_id: Some(7),
        member_id: Some(1001),
        self_deaf: false,
    });
    let (calls, announcer) = run(t, vec![AnnouncerAnswer::Members(vec![1001])]);
    assert!(calls.is_empty());
    assert_eq!(announcer.outcome(), Some(AnnouncerOutcome::SelfTransition));
}

#[test]
fn occupied_channel_is_not_announced() {
    let (calls, announcer) =
        run(joined(1001, Some(7), false), vec![AnnouncerAnswer::Members(vec![1001, 1002])]);
    assert_eq!(calls.len(), 1);
    assert_eq!(announcer.outcome(), Some(AnnouncerOutcome::NotAlone));
}

#[test]
fn empty_snapshot_is_not_announced() {
    let (calls, announcer) = run(joined(1001, Some(7), false), vec![AnnouncerAnswer::Members(vec![])]);
    assert_eq!(calls.len(), 1);
    assert_eq!(announcer.outcome(), Some(AnnouncerOutcome::NotAlone));
}

#[test]
fn deafened_joiner_is_not_announced() {
    let (calls, announcer) =
        run(joined(1001, Some(7), true), vec![AnnouncerAnswer::Members(vec![1001])]);
    assert_eq!(calls.len(), 1);
    assert!(!calls.iter().any(|c| matches!(c, AnnouncerCall::Send { .. })));
    assert_eq!(announcer.outcome(), Some(AnnouncerOutcome::Deafened));
}

#[test]
fn leaving_voice_is_malformed() {
    let (calls, announcer) = run(joined(1001, None, false), vec![]);
    assert!(calls.is_empty());
    assert_eq!(announcer.outcome(), Some(AnnouncerOutcome::Malformed));
    assert!(AnnouncerOutcome::Malformed.is_failure());
}

#[test]
fn missing_member_is_malformed() {
    let mut t = joined(1001, Some(7), false);
    t.new.member_id = None;
    let (calls, announcer) = run(t, vec![AnnouncerAnswer::Members(vec![1001])]);
    assert_eq!(calls.len(), 1);
    assert_eq!(announcer.outcome(), Some(AnnouncerOutcome::Malformed));
}

#[test]
fn failed_fetch_aborts_before_announcing() {
    let (calls, announcer) = run(joined(1001, Some(7), false), vec![AnnouncerAnswer::Failed]);
    assert_eq!(calls.len(), 1);
    assert_eq!(announcer.outcome(), Some(AnnouncerOutcome::FetchFailed));
}

#[test]
fn failed_send_ends_the_run() {
    let (calls, announcer) = run(
        joined(1001, Some(7), false),
        vec![AnnouncerAnswer::Members(vec![1001]), AnnouncerAnswer::Failed],
    );
    assert_eq!(calls.len(), 2);
    assert_eq!(announcer.outcome(), Some(AnnouncerOutcome::SendFailed));
}

#[test]
fn failed_retraction_is_reported() {
    let (calls, announcer) = run(
        joined(1001, Some(7), false),
        vec![
            AnnouncerAnswer::Members(vec![1001]),
            AnnouncerAnswer::Sent(900),
            AnnouncerAnswer::Elapsed,
            AnnouncerAnswer::Failed,
        ],
    );
    assert_eq!(calls.len(), 4);
    assert_eq!(announcer.outcome(), Some(AnnouncerOutcome::RetractFailed));
    assert!(!AnnouncerOutcome::Retracted.is_failure());
}

#[test]
fn standard_config_values() {
    let cfg = PolicyConfig::standard();
    assert_eq!(cfg.downvote_emoji, "⬇️");
    assert_eq!(cfg.downvote_threshold, 5);
    assert_eq!(cfg.retract_delay_secs, RETRACT_DELAY_SECS);
    assert_eq!(cfg.retract_delay_secs, 600);
    assert_eq!(cfg.announce_channel, 741129884470083634);
    assert_eq!(cfg.announce_role, 1395071978838167623);
    assert_eq!(cfg.phrases.len(), 17);
    assert_eq!(cfg.phrases[0], "joined");
    assert_eq!(cfg.phrases[16], "awaits your presence in");
}
