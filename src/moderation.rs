use crate::config::{PolicyConfig, PolicyConfigView};
use crate::opt_seq;
use vstd::prelude::*;
use vstd::string::StringExecFns;

verus! {

/// The emoji of a reaction: a unicode glyph, or a custom emoji of a guild.
pub enum Emoji {
    Unicode(String),
    Custom { animated: bool, id: u64, name: Option<String> },
}

pub enum EmojiView {
    Unicode(Seq<char>),
    Custom { animated: bool, id: u64, name: Option<Seq<char>> },
}

impl View for Emoji {
    type V = EmojiView;

    open spec fn view(&self) -> EmojiView {
        match self {
            Emoji::Unicode(s) => EmojiView::Unicode(s@),
            Emoji::Custom { animated, id, name } => EmojiView::Custom {
                animated: *animated,
                id: *id,
                name: match name {
                    Some(n) => Some(n@),
                    None => None,
                },
            },
        }
    }
}

/// Whether two emoji are the same reaction: same kind and same fields.
pub fn same_emoji(a: &Emoji, b: &Emoji) -> (r: bool)
    ensures
        r == (a@ == b@),
{
    match (a, b) {
        (Emoji::Unicode(x), Emoji::Unicode(y)) => *x == *y,
        (
            Emoji::Custom { animated: a1, id: i1, name: n1 },
            Emoji::Custom { animated: a2, id: i2, name: n2 },
        ) => {
            let names = match (n1, n2) {
                (Some(x), Some(y)) => *x == *y,
                (None, None) => true,
                _ => false,
            };
            *a1 == *a2 && *i1 == *i2 && names
        },
        _ => false,
    }
}

/// A message, by the channel that holds it and its own id.
#[derive(Clone, Copy, PartialEq, Eq, Structural, Debug)]
pub struct MessageRef {
    pub channel_id: u64,
    pub message_id: u64,
}

/// One reaction added to a message.
pub struct ReactionEvent {
    pub emoji: Emoji,
    pub message: MessageRef,
}

pub struct ReactionEventView {
    pub emoji: EmojiView,
    pub message: MessageRef,
}

impl View for ReactionEvent {
    type V = ReactionEventView;

    open spec fn view(&self) -> ReactionEventView {
        ReactionEventView { emoji: self.emoji@, message: self.message }
    }
}

/// How many members reacted to a message with one emoji.
pub struct ReactionTally {
    pub emoji: Emoji,
    pub count: u64,
}

pub struct ReactionTallyView {
    pub emoji: EmojiView,
    pub count: u64,
}

impl View for ReactionTally {
    type V = ReactionTallyView;

    open spec fn view(&self) -> ReactionTallyView {
        ReactionTallyView { emoji: self.emoji@, count: self.count }
    }
}

/// What the platform answered to the moderator's last call.
pub enum ModeratorAnswer {
    /// The message was fetched; these are its reactions.
    Message(Vec<ReactionTally>),
    /// The message no longer exists.
    NotFound,
    /// The call failed in transport or was refused.
    Failed,
    /// The reply was posted, or the message deleted.
    Done,
}

pub enum ModeratorAnswerView {
    Message(Seq<ReactionTallyView>),
    NotFound,
    Failed,
    Done,
}

impl View for ModeratorAnswer {
    type V = ModeratorAnswerView;

    open spec fn view(&self) -> ModeratorAnswerView {
        match self {
            ModeratorAnswer::Message(t) => ModeratorAnswerView::Message(
                t@.map_values(|x: ReactionTally| x@),
            ),
            ModeratorAnswer::NotFound => ModeratorAnswerView::NotFound,
            ModeratorAnswer::Failed => ModeratorAnswerView::Failed,
            ModeratorAnswer::Done => ModeratorAnswerView::Done,
        }
    }
}

pub open spec fn answer_view(a: Option<ModeratorAnswer>) -> Option<ModeratorAnswerView> {
    match a {
        Some(x) => Some(x@),
        None => None,
    }
}

/// A platform call that the moderator asks for.
pub enum ModeratorCall {
    /// Fetch the message with its current reactions.
    FetchMessage(MessageRef),
    /// Post a public reply to the message.
    Reply(MessageRef, String),
    /// Delete the message.
    DeleteMessage(MessageRef),
}

pub enum ModeratorCallView {
    FetchMessage(MessageRef),
    Reply(MessageRef, Seq<char>),
    DeleteMessage(MessageRef),
}

impl View for ModeratorCall {
    type V = ModeratorCallView;

    open spec fn view(&self) -> ModeratorCallView {
        match self {
            ModeratorCall::FetchMessage(m) => ModeratorCallView::FetchMessage(*m),
            ModeratorCall::Reply(m, t) => ModeratorCallView::Reply(*m, t@),
            ModeratorCall::DeleteMessage(m) => ModeratorCallView::DeleteMessage(*m),
        }
    }
}

pub open spec fn call_view(c: Option<ModeratorCall>) -> Option<ModeratorCallView> {
    match c {
        Some(x) => Some(x@),
        None => None,
    }
}

/// How a moderation run ended.
#[derive(Clone, Copy, PartialEq, Eq, Structural, Debug)]
pub enum ModeratorOutcome {
    /// The reaction was not the downvote emoji; nothing was fetched.
    NotDownvote,
    /// The message had no tally for the downvote emoji any more.
    NoTally,
    /// The downvotes were fewer than the threshold.
    BelowThreshold,
    /// The message was already gone.
    MessageGone,
    /// The reply was posted and the message deleted.
    Deleted,
    /// A platform call failed; the run was abandoned.
    Failed,
}

impl ModeratorOutcome {
    pub open spec fn spec_is_failure(self) -> bool {
        self is Failed
    }

    /// Whether the run ended on an error worth reporting.
    #[verifier::when_used_as_spec(spec_is_failure)]
    pub fn is_failure(self) -> (r: bool)
        ensures
            r == self.spec_is_failure(),
    {
        match self {
            ModeratorOutcome::Failed => true,
            _ => false,
        }
    }
}

/// Where a moderation run stands.
#[derive(Clone, Copy, PartialEq, Eq, Structural, Debug)]
pub enum ModeratorStage {
    Start,
    AwaitMessage,
    AwaitReply,
    AwaitDelete,
    Finished(ModeratorOutcome),
}

/// The text of the reply posted before a message is deleted.
pub open spec fn reply_text() -> Seq<char> {
    "Message deleted, get fucked."@
}

/// The count of the first tally, from position `i` on, whose emoji is `e`.
pub open spec fn tally_count_from(t: Seq<ReactionTallyView>, e: EmojiView, i: int) -> Option<u64>
    decreases t.len() - i,
{
    if i < 0 || i >= t.len() {
        None
    } else if t[i].emoji == e {
        Some(t[i].count)
    } else {
        tally_count_from(t, e, i + 1)
    }
}

/// The count that a message's reactions give for emoji `e`.
pub open spec fn tally_count(t: Seq<ReactionTallyView>, e: EmojiView) -> Option<u64> {
    tally_count_from(t, e, 0)
}

/// Whether the event is a downvote under the settings.
pub open spec fn is_downvote(cfg: PolicyConfigView, ev: ReactionEventView) -> bool {
    ev.emoji == EmojiView::Unicode(cfg.downvote_emoji)
}

/// One step of the moderator: from its stage and the answer to its last call,
/// the next stage and the next call.
pub open spec fn moderator_step(
    cfg: PolicyConfigView,
    ev: ReactionEventView,
    stage: ModeratorStage,
    answer: Option<ModeratorAnswerView>,
) -> (ModeratorStage, Option<ModeratorCallView>) {
    match stage {
        ModeratorStage::Start => {
            if is_downvote(cfg, ev) {
                (ModeratorStage::AwaitMessage, Some(ModeratorCallView::FetchMessage(ev.message)))
            } else {
                (ModeratorStage::Finished(ModeratorOutcome::NotDownvote), None)
            }
        },
        ModeratorStage::AwaitMessage => match answer {
            Some(ModeratorAnswerView::Message(t)) => match tally_count(t, ev.emoji) {
                None => (ModeratorStage::Finished(ModeratorOutcome::NoTally), None),
                Some(c) => if c >= cfg.downvote_threshold {
                    (
                        ModeratorStage::AwaitReply,
                        Some(ModeratorCallView::Reply(ev.message, reply_text())),
                    )
                } else {
                    (ModeratorStage::Finished(ModeratorOutcome::BelowThreshold), None)
                },
            },
            Some(ModeratorAnswerView::NotFound) => (
                ModeratorStage::Finished(ModeratorOutcome::MessageGone),
                None,
            ),
            _ => (ModeratorStage::Finished(ModeratorOutcome::Failed), None),
        },
        ModeratorStage::AwaitReply => match answer {
            Some(ModeratorAnswerView::Done) => (
                ModeratorStage::AwaitDelete,
                Some(ModeratorCallView::DeleteMessage(ev.message)),
            ),
            _ => (ModeratorStage::Finished(ModeratorOutcome::Failed), None),
        },
        ModeratorStage::AwaitDelete => match answer {
            Some(ModeratorAnswerView::Done) => (
                ModeratorStage::Finished(ModeratorOutcome::Deleted),
                None,
            ),
            _ => (ModeratorStage::Finished(ModeratorOutcome::Failed), None),
        },
        ModeratorStage::Finished(o) => (ModeratorStage::Finished(o), None),
    }
}

/// The first reaction tally whose emoji is `e`, by its count.
pub fn find_tally(tallies: &Vec<ReactionTally>, e: &Emoji) -> (r: Option<u64>)
    ensures
        r == tally_count(tallies@.map_values(|x: ReactionTally| x@), e@),
{
    let ghost t = tallies@.map_values(|x: ReactionTally| x@);
    let mut i: usize = 0;
    while i < tallies.len()
        invariant
            i <= tallies@.len(),
            t == tallies@.map_values(|x: ReactionTally| x@),
            tally_count_from(t, e@, 0) == tally_count_from(t, e@, i as int),
        decreases tallies@.len() - i,
    {
        if same_emoji(&tallies[i].emoji, e) {
            return Some(tallies[i].count);
        }
        i = i + 1;
    }
    None
}

/// The downvote moderator for one reaction event.
pub struct DownvoteModerator {
    pub event: ReactionEvent,
    pub stage: ModeratorStage,
}

impl DownvoteModerator {
    /// A moderator that has not acted on the event yet.
    pub fn new(event: ReactionEvent) -> (r: DownvoteModerator)
        ensures
            r.event@ == event@,
            r.stage == ModeratorStage::Start,
    {
        DownvoteModerator { event, stage: ModeratorStage::Start }
    }

    /// Takes the answer to the last call (none on the first step) and returns
    /// the next call to make, or none once the run is over.
    pub fn step(&mut self, cfg: &PolicyConfig, answer: Option<ModeratorAnswer>) -> (call: Option<
        ModeratorCall,
    >)
        ensures
            final(self).event@ == old(self).event@,
            (final(self).stage, call_view(call)) == moderator_step(
                cfg@,
                old(self).event@,
                old(self).stage,
                answer_view(answer),
            ),
    {
        let msg = self.event.message;
        match self.stage {
            ModeratorStage::Start => {
                let is_down = match &self.event.emoji {
                    Emoji::Unicode(s) => *s == cfg.downvote_emoji,
                    _ => false,
                };
                if is_down {
                    self.stage = ModeratorStage::AwaitMessage;
                    Some(ModeratorCall::FetchMessage(msg))
                } else {
                    self.stage = ModeratorStage::Finished(ModeratorOutcome::NotDownvote);
                    None
                }
            },
            ModeratorStage::AwaitMessage => match answer {
                Some(ModeratorAnswer::Message(t)) => match find_tally(&t, &self.event.emoji) {
                    None => {
                        self.stage = ModeratorStage::Finished(ModeratorOutcome::NoTally);
                        None
                    },
                    Some(c) => {
                        if c >= cfg.downvote_threshold {
                            self.stage = ModeratorStage::AwaitReply;
                            Some(
                                ModeratorCall::Reply(
                                    msg,
                                    String::from_str("Message deleted, get fucked."),
                                ),
                            )
                        } else {
                            self.stage = ModeratorStage::Finished(ModeratorOutcome::BelowThreshold);
                            None
                        }
                    },
                },
                Some(ModeratorAnswer::NotFound) => {
                    self.stage = ModeratorStage::Finished(ModeratorOutcome::MessageGone);
                    None
                },
                _ => {
                    self.stage = ModeratorStage::Finished(ModeratorOutcome::Failed);
                    None
                },
            },
            ModeratorStage::AwaitReply => match answer {
                Some(ModeratorAnswer::Done) => {
                    self.stage = ModeratorStage::AwaitDelete;
                    Some(ModeratorCall::DeleteMessage(msg))
                },
                _ => {
                    self.stage = ModeratorStage::Finished(ModeratorOutcome::Failed);
                    None
                },
            },
            ModeratorStage::AwaitDelete => match answer {
                Some(ModeratorAnswer::Done) => {
                    self.stage = ModeratorStage::Finished(ModeratorOutcome::Deleted);
                    None
                },
                _ => {
                    self.stage = ModeratorStage::Finished(ModeratorOutcome::Failed);
                    None
                },
            },
            ModeratorStage::Finished(_) => None,
        }
    }

    /// How the run ended, once it has.
    pub fn outcome(&self) -> (r: Option<ModeratorOutcome>)
        ensures
            r == (match self.stage {
                ModeratorStage::Finished(o) => Some(o),
                _ => None,
            }),
    {
        match self.stage {
            ModeratorStage::Finished(o) => Some(o),
            _ => None,
        }
    }
}

/// A whole run of the moderator: the answers fed to it one step at a time,
/// and the stage it ends in with every call it asked for, in order.
pub open spec fn moderator_run(
    cfg: PolicyConfigView,
    ev: ReactionEventView,
    stage: ModeratorStage,
    answers: Seq<Option<ModeratorAnswerView>>,
) -> (ModeratorStage, Seq<ModeratorCallView>)
    decreases answers.len(),
{
    if answers.len() == 0 {
        (stage, Seq::empty())
    } else {
        let (next, call) = moderator_step(cfg, ev, stage, answers[0]);
        let (last, calls) = moderator_run(cfg, ev, next, answers.drop_first());
        (last, opt_seq(call) + calls)
    }
}

/// The calls of a run that deletes a message, in order.
pub open spec fn deletion_calls(ev: ReactionEventView) -> Seq<ModeratorCallView> {
    seq![
        ModeratorCallView::FetchMessage(ev.message),
        ModeratorCallView::Reply(ev.message, reply_text()),
        ModeratorCallView::DeleteMessage(ev.message),
    ]
}

/// A finished run stays finished and asks for nothing more.
pub proof fn lemma_finished_is_quiet(
    cfg: PolicyConfigView,
    ev: ReactionEventView,
    o: ModeratorOutcome,
    answers: Seq<Option<ModeratorAnswerView>>,
)
    ensures
        moderator_run(cfg, ev, ModeratorStage::Finished(o), answers) == (
            ModeratorStage::Finished(o),
            Seq::<ModeratorCallView>::empty(),
        ),
    decreases answers.len(),
{
    if answers.len() > 0 {
        lemma_finished_is_quiet(cfg, ev, o, answers.drop_first());
        assert(opt_seq::<ModeratorCallView>(None) + Seq::<ModeratorCallView>::empty()
            =~= Seq::<ModeratorCallView>::empty());
    }
}

proof fn lemma_calls_after_delete_asked(
    cfg: PolicyConfigView,
    ev: ReactionEventView,
    answers: Seq<Option<ModeratorAnswerView>>,
)
    ensures
        moderator_run(cfg, ev, ModeratorStage::AwaitDelete, answers).1 =~= deletion_calls(
            ev,
        ).subrange(3, 3),
{
    if answers.len() > 0 {
        let (next, call) = moderator_step(cfg, ev, ModeratorStage::AwaitDelete, answers[0]);
        if let ModeratorStage::Finished(o) = next {
            lemma_finished_is_quiet(cfg, ev, o, answers.drop_first());
        }
    }
}

proof fn lemma_calls_after_reply_asked(
    cfg: PolicyConfigView,
    ev: ReactionEventView,
    answers: Seq<Option<ModeratorAnswerView>>,
)
    ensures
        ({
            let calls = moderator_run(cfg, ev, ModeratorStage::AwaitReply, answers).1;
            calls =~= deletion_calls(ev).subrange(2, 2) || calls =~= deletion_calls(
                ev,
            ).subrange(2, 3)
        }),
{
    if answers.len() > 0 {
        let (next, call) = moderator_step(cfg, ev, ModeratorStage::AwaitReply, answers[0]);
        if let ModeratorStage::Finished(o) = next {
            lemma_finished_is_quiet(cfg, ev, o, answers.drop_first());
        } else {
            lemma_calls_after_delete_asked(cfg, ev, answers.drop_first());
        }
    }
}

proof fn lemma_calls_after_fetch_asked(
    cfg: PolicyConfigView,
    ev: ReactionEventView,
    answers: Seq<Option<ModeratorAnswerView>>,
)
    ensures
        ({
            let calls = moderator_run(cfg, ev, ModeratorStage::AwaitMessage, answers).1;
            calls =~= deletion_calls(ev).subrange(1, 1) || calls =~= deletion_calls(
                ev,
            ).subrange(1, 2) || calls =~= deletion_calls(ev).subrange(1, 3)
        }),
{
    if answers.len() > 0 {
        let (next, call) = moderator_step(cfg, ev, ModeratorStage::AwaitMessage, answers[0]);
        if let ModeratorStage::Finished(o) = next {
            lemma_finished_is_quiet(cfg, ev, o, answers.drop_first());
        } else {
            lemma_calls_after_reply_asked(cfg, ev, answers.drop_first());
        }
    }
}

/// A reaction with any emoji but the downvote emoji leads to no call at all:
/// no fetch, no reply and no delete, whatever the platform would answer.
pub proof fn law_other_emoji_is_ignored(
    cfg: PolicyConfigView,
    ev: ReactionEventView,
    answers: Seq<Option<ModeratorAnswerView>>,
)
    requires
        !is_downvote(cfg, ev),
        answers.len() > 0,
    ensures
        moderator_run(cfg, ev, ModeratorStage::Start, answers) == (
            ModeratorStage::Finished(ModeratorOutcome::NotDownvote),
            Seq::<ModeratorCallView>::empty(),
        ),
{
    lemma_finished_is_quiet(cfg, ev, ModeratorOutcome::NotDownvote, answers.drop_first());
    assert(opt_seq::<ModeratorCallView>(None) + Seq::<ModeratorCallView>::empty()
        =~= Seq::<ModeratorCallView>::empty());
}

/// Whatever the platform answers, the calls of a run are the fetch, then the
/// reply, then the delete, or a prefix of that: at most one reply, at most one
/// delete, and never a delete before the reply.
pub proof fn law_calls_keep_their_order(
    cfg: PolicyConfigView,
    ev: ReactionEventView,
    answers: Seq<Option<ModeratorAnswerView>>,
)
    ensures
        moderator_run(cfg, ev, ModeratorStage::Start, answers).1.is_prefix_of(
            deletion_calls(ev),
        ),
{
    let calls = moderator_run(cfg, ev, ModeratorStage::Start, answers).1;
    if answers.len() > 0 {
        let (next, call) = moderator_step(cfg, ev, ModeratorStage::Start, answers[0]);
        if let ModeratorStage::Finished(o) = next {
            lemma_finished_is_quiet(cfg, ev, o, answers.drop_first());
            assert(calls =~= deletion_calls(ev).subrange(0, 0));
        } else {
            lemma_calls_after_fetch_asked(cfg, ev, answers.drop_first());
            let rest = moderator_run(cfg, ev, next, answers.drop_first()).1;
            assert(calls == seq![ModeratorCallView::FetchMessage(ev.message)] + rest);
            if rest =~= deletion_calls(ev).subrange(1, 1) {
                assert(calls =~= deletion_calls(ev).subrange(0, 1));
            } else if rest =~= deletion_calls(ev).subrange(1, 2) {
                assert(calls =~= deletion_calls(ev).subrange(0, 2));
            } else {
                assert(calls =~= deletion_calls(ev).subrange(0, 3));
            }
        }
    } else {
        assert(calls =~= deletion_calls(ev).subrange(0, 0));
    }
}

/// A downvote whose fetched count is under the threshold asks for the fetch
/// and nothing else.
pub proof fn law_below_threshold_takes_no_action(
    cfg: PolicyConfigView,
    ev: ReactionEventView,
    answers: Seq<Option<ModeratorAnswerView>>,
    tallies: Seq<ReactionTallyView>,
)
    requires
        is_downvote(cfg, ev),
        answers.len() >= 2,
        answers[1] == Some(ModeratorAnswerView::Message(tallies)),
        tally_count(tallies, ev.emoji) matches Some(c) && c < cfg.downvote_threshold,
    ensures
        moderator_run(cfg, ev, ModeratorStage::Start, answers) == (
            ModeratorStage::Finished(ModeratorOutcome::BelowThreshold),
            seq![ModeratorCallView::FetchMessage(ev.message)],
        ),
{
    let rest = answers.drop_first();
    assert(rest[0] == answers[1]);
    let below = ModeratorStage::Finished(ModeratorOutcome::BelowThreshold);
    lemma_finished_is_quiet(cfg, ev, ModeratorOutcome::BelowThreshold, rest.drop_first());
    let e = Seq::<ModeratorCallView>::empty();
    let f = ModeratorCallView::FetchMessage(ev.message);
    assert(opt_seq::<ModeratorCallView>(None) + e =~= e);
    assert(moderator_run(cfg, ev, ModeratorStage::AwaitMessage, rest) == (below, e));
    assert(seq![f] + e =~= seq![f]);
}

/// A downvote whose fetched count reaches the threshold asks, when the
/// platform carries out each call, for the fetch, one reply and then one
/// delete, and ends with the message deleted.
pub proof fn law_threshold_reply_then_delete(
    cfg: PolicyConfigView,
    ev: ReactionEventView,
    answers: Seq<Option<ModeratorAnswerView>>,
    tallies: Seq<ReactionTallyView>,
)
    requires
        is_downvote(cfg, ev),
        answers.len() >= 4,
        answers[1] == Some(ModeratorAnswerView::Message(tallies)),
        answers[2] == Some(ModeratorAnswerView::Done),
        answers[3] == Some(ModeratorAnswerView::Done),
        tally_count(tallies, ev.emoji) matches Some(c) && c >= cfg.downvote_threshold,
    ensures
        moderator_run(cfg, ev, ModeratorStage::Start, answers) == (
            ModeratorStage::Finished(ModeratorOutcome::Deleted),
            deletion_calls(ev),
        ),
{
    let a1 = answers.drop_first();
    let a2 = a1.drop_first();
    let a3 = a2.drop_first();
    let a4 = a3.drop_first();
    assert(a1[0] == answers[1]);
    assert(a2[0] == answers[2]);
    assert(a3[0] == answers[3]);
    lemma_finished_is_quiet(cfg, ev, ModeratorOutcome::Deleted, a4);
    let e = Seq::<ModeratorCallView>::empty();
    let r = ModeratorCallView::Reply(ev.message, reply_text());
    let d = ModeratorCallView::DeleteMessage(ev.message);
    let f = ModeratorCallView::FetchMessage(ev.message);
    let deleted = ModeratorStage::Finished(ModeratorOutcome::Deleted);
    assert(opt_seq::<ModeratorCallView>(None) + e =~= e);
    assert(moderator_run(cfg, ev, ModeratorStage::AwaitDelete, a3) == (deleted, e));
    assert(seq![d] + e =~= seq![d]);
    assert(moderator_run(cfg, ev, ModeratorStage::AwaitReply, a2) == (deleted, seq![d]));
    assert(seq![r] + seq![d] =~= seq![r, d]);
    assert(moderator_run(cfg, ev, ModeratorStage::AwaitMessage, a1) == (deleted, seq![r, d]));
    assert(seq![f] + seq![r, d] =~= deletion_calls(ev));
}

/// Running the moderator again on a message that its first run deleted is
/// harmless: the fetch reports the message gone, the run ends cleanly, and
/// nothing is replied to or deleted a second time.
pub proof fn law_repeat_after_delete_is_clean(
    cfg: PolicyConfigView,
    ev: ReactionEventView,
    first: Seq<Option<ModeratorAnswerView>>,
    second: Seq<Option<ModeratorAnswerView>>,
    tallies: Seq<ReactionTallyView>,
)
    requires
        is_downvote(cfg, ev),
        first.len() >= 4,
        first[1] == Some(ModeratorAnswerView::Message(tallies)),
        first[2] == Some(ModeratorAnswerView::Done),
        first[3] == Some(ModeratorAnswerView::Done),
        tally_count(tallies, ev.emoji) matches Some(c) && c >= cfg.downvote_threshold,
        second.len() >= 2,
        second[1] == Some(ModeratorAnswerView::NotFound),
    ensures
        moderator_run(cfg, ev, ModeratorStage::Start, first).0 == ModeratorStage::Finished(
            ModeratorOutcome::Deleted,
        ),
        moderator_run(cfg, ev, ModeratorStage::Start, second) == (
            ModeratorStage::Finished(ModeratorOutcome::MessageGone),
            seq![ModeratorCallView::FetchMessage(ev.message)],
        ),
        !ModeratorOutcome::MessageGone.is_failure(),
{
    law_threshold_reply_then_delete(cfg, ev, first, tallies);
    let rest = second.drop_first();
    assert(rest[0] == second[1]);
    let gone = ModeratorStage::Finished(ModeratorOutcome::MessageGone);
    lemma_finished_is_quiet(cfg, ev, ModeratorOutcome::MessageGone, rest.drop_first());
    let e = Seq::<ModeratorCallView>::empty();
    let f = ModeratorCallView::FetchMessage(ev.message);
    assert(opt_seq::<ModeratorCallView>(None) + e =~= e);
    assert(moderator_run(cfg, ev, ModeratorStage::AwaitMessage, rest) == (gone, e));
    assert(seq![f] + e =~= seq![f]);
}

} // verus!
