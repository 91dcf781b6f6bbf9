use swissarmybot::config::PolicyConfig;
use swissarmybot::moderation::{
    find_tally, same_emoji, DownvoteModerator, Emoji, MessageRef, ModeratorAnswer, ModeratorCall,
    ModeratorOutcome, ReactionEvent, ReactionTally,
};

fn down() -> Emoji {
    Emoji::Unicode("⬇️".to_string())
}

fn event(emoji: Emoji, message_id: u64) -> ReactionEvent {
    ReactionEvent { emoji, message: MessageRef { channel_id: 9, message_id } }
}

fn tally(emoji: Emoji, count: u64) -> ReactionTally {
    ReactionTally { emoji, count }
}

/// Runs a moderator, answering each call from `answers` in turn, and returns
/// the calls it made.
fn run(ev: ReactionEvent, answers: Vec<ModeratorAnswer>) -> (Vec<ModeratorCall>, DownvoteModerator) {
    let cfg = PolicyConfig::standard();
    let mut m = DownvoteModerator::new(ev);
    let mut calls = Vec::new();
    let mut answers = answers.into_iter();
    let mut answer = None;
    while let Some(call) = m.step(&cfg, answer) {
        calls.push(call);
        answer = answers.next();
    }
    (calls, m)
}

#[test]
fn downvotes_at_threshold_reply_then_delete() {
    let m = MessageRef { channel_id: 9, message_id: 42 };
    let (calls, moderator) = run(
        event(down(), 42),
        vec![
            ModeratorAnswer::Message(vec![tally(down(), 5)]),
            ModeratorAnswer::Done,
            ModeratorAnswer::Done,
        ],
    );
    assert_eq!(calls.len(), 3);
    assert!(matches!(calls[0], ModeratorCall::FetchMessage(r) if r == m));
    match &calls[1] {
        ModeratorCall::Reply(r, text) => {
            assert_eq!(*r, m);
            assert_eq!(text, "Message deleted, get fucked.");
        }
        _ => panic!("second call is not the reply"),
    }
    assert!(matches!(calls[2], ModeratorCall::DeleteMessage(r) if r == m));
    assert_eq!(moderator.outcome(), Some(ModeratorOutcome::Deleted));
}

#[test]
fn other_emoji_makes_no_call() {
    let (calls, moderator) = run(
        event(Emoji::Unicode("👍".to_string()), 42),
        vec![ModeratorAnswer::Message(vec![tally(down(), 50)])],
    );
    assert!(calls.is_empty());
    assert_eq!(moderator.outcome(), Some(ModeratorOutcome::NotDownvote));
}

#[test]
fn custom_emoji_makes_no_call() {
    let custom = Emoji::Custom { animated: false, id: 77, name: Some("⬇️".to_string()) };
    let (calls, moderator) = run(event(custom, 42), vec![]);
    assert!(calls.is_empty());
    assert_eq!(moderator.outcome(), Some(ModeratorOutcome::NotDownvote));
}

#[test]
fn below_threshold_only_fetches() {
    let (calls, moderator) = run(
        event(down(), 42),
        vec![ModeratorAnswer::Message(vec![tally(down(), 4)]), ModeratorAnswer::Done],
    );
    assert_eq!(calls.len(), 1);
    assert!(matches!(calls[0], ModeratorCall::FetchMessage(_)));
    assert_eq!(moderator.outcome(), Some(ModeratorOutcome::BelowThreshold));
}

#[test]
fn above_threshold_deletes() {
    let (calls, moderator) = run(
        event(down(), 42),
        vec![
            ModeratorAnswer::Message(vec![tally(down(), 12)]),
            ModeratorAnswer::Done,
            ModeratorAnswer::Done,
        ],
    );
    assert_eq!(calls.len(), 3);
    assert_eq!(moderator.outcome(), Some(ModeratorOutcome::Deleted));
}

#[test]
fn missing_tally_does_nothing() {
    let (calls, moderator) = run(
        event(down(), 42),
        vec![ModeratorAnswer::Message(vec![tally(Emoji::Unicode("👍".to_string()), 9)])],
    );
    assert_eq!(calls.len(), 1);
    assert_eq!(moderator.outcome(), Some(ModeratorOutcome::NoTally));
}

#[test]
fn repeat_on_deleted_message_exits_cleanly() {
    let (first, m1) = run(
        event(down(), 42),
        vec![
            ModeratorAnswer::Message(vec![tally(down(), 5)]),
            ModeratorAnswer::Done,
            ModeratorAnswer::Done,
        ],
    );
    assert_eq!(first.len(), 3);
    assert_eq!(m1.outcome(), Some(ModeratorOutcome::Deleted));
    let (second, m2) = run(event(down(), 42), vec![ModeratorAnswer::NotFound]);
    assert_eq!(second.len(), 1);
    assert!(matches!(second[0], ModeratorCall::FetchMessage(_)));
    assert_eq!(m2.outcome(), Some(ModeratorOutcome::MessageGone));
    assert!(!ModeratorOutcome::MessageGone.is_failure());
}

#[test]
fn failed_fetch_is_a_failure() {
    let (calls, moderator) = run(event(down(), 42), vec![ModeratorAnswer::Failed]);
    assert_eq!(calls.len(), 1);
    assert_eq!(moderator.outcome(), Some(ModeratorOutcome::Failed));
    assert!(ModeratorOutcome::Failed.is_failure());
}

#[test]
fn failed_reply_skips_the_delete() {
    let (calls, moderator) = run(
        event(down(), 42),
        vec![ModeratorAnswer::Message(vec![tally(down(), 5)]), ModeratorAnswer::Failed],
    );
    assert_eq!(calls.len(), 2);
    assert_eq!(moderator.outcome(), Some(ModeratorOutcome::Failed));
}

#[test]
fn failed_delete_is_a_failure() {
    let (calls, moderator) = run(
        event(down(), 42),
        vec![
            ModeratorAnswer::Message(vec![tally(down(), 5)]),
            ModeratorAnswer::Done,
            ModeratorAnswer::NotFound,
        ],
    );
    assert_eq!(calls.len(), 3);
    assert_eq!(moderator.outcome(), Some(ModeratorOutcome::Failed));
}

#[test]
fn first_matching_tally_counts() {
    let tallies = vec![
        tally(Emoji::Unicode("👍".to_string()), 7),
        tally(down(), 3),
        tally(down(), 8),
    ];
    assert_eq!(find_tally(&tallies, &down()), Some(3));
    assert_eq!(find_tally(&tallies, &Emoji::Unicode("🎉".to_string())), None);
    assert_eq!(find_tally(&vec![], &down()), None);
}

#[test]
fn emoji_equality_compares_every_field() {
    let a = Emoji::Custom { animated: false, id: 1, name: Some("x".to_string()) };
    let b = Emoji::Custom { animated: false, id: 1, name: Some("x".to_string()) };
    let c = Emoji::Custom { animated: true, id: 1, name: Some("x".to_string()) };
    let d = Emoji::Custom { animated: false, id: 1, name: None };
    assert!(same_emoji(&a, &b));
    assert!(!same_emoji(&a, &c));
    assert!(!same_emoji(&a, &d));
    assert!(!same_emoji(&a, &down()));
    assert!(same_emoji(&down(), &down()));
}
