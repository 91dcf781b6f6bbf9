use crate::config::{PolicyConfig, PolicyConfigView};
use crate::mention::{
    channel_mention, channel_mention_text, role_mention, role_mention_text, user_mention,
    user_mention_text,
};
use rand::seq::IndexedRandom;
use crate::opt_seq;
use vstd::prelude::*;
use vstd::string::StringExecFns;

verus! {

/// A member's voice state, as the platform reports it.
#[derive(Clone, Copy, PartialEq, Eq, Structural, Debug)]
pub struct VoiceState {
    pub user_id: u64,
    pub guild_id: Option<u64>,
    pub channel_id: Option<u64>,
    /// The user id of the guild member the state belongs to, where the
    /// platform sent the member along.
    pub member_id: Option<u64>,
    pub self_deaf: bool,
}

/// A change of voice state: the previous one, if the platform knew it, and
/// the new one.
#[derive(Clone, Copy, PartialEq, Eq, Structural, Debug)]
pub struct VoiceTransition {
    pub old: Option<VoiceState>,
    pub new: VoiceState,
}

impl VoiceTransition {
    /// The ids that the announcement mentions are real platform ids.
    pub open spec fn wf(self) -> bool {
        &&& (self.new.channel_id matches Some(c) ==> c != 0)
        &&& (self.new.member_id matches Some(m) ==> m != 0)
    }

    /// An update that repeats the state of the same user, not a move.
    pub open spec fn is_self_transition(self) -> bool {
        self.old matches Some(o) && o.user_id == self.new.user_id
    }
}

/// What the platform answered to the announcer's last call.
pub enum AnnouncerAnswer {
    /// The live member list of the voice channel, by user id.
    Members(Vec<u64>),
    /// The call failed, or what it looked for does not exist.
    Failed,
    /// The announcement was posted under this message id.
    Sent(u64),
    /// The wait is over.
    Elapsed,
    /// The announcement was deleted.
    Done,
}

pub enum AnnouncerAnswerView {
    Members(Seq<u64>),
    Failed,
    Sent(u64),
    Elapsed,
    Done,
}

impl View for AnnouncerAnswer {
    type V = AnnouncerAnswerView;

    open spec fn view(&self) -> AnnouncerAnswerView {
        match self {
            AnnouncerAnswer::Members(m) => AnnouncerAnswerView::Members(m@),
            AnnouncerAnswer::Failed => AnnouncerAnswerView::Failed,
            AnnouncerAnswer::Sent(id) => AnnouncerAnswerView::Sent(*id),
            AnnouncerAnswer::Elapsed => AnnouncerAnswerView::Elapsed,
            AnnouncerAnswer::Done => AnnouncerAnswerView::Done,
        }
    }
}

pub open spec fn answer_view(a: Option<AnnouncerAnswer>) -> Option<AnnouncerAnswerView> {
    match a {
        Some(x) => Some(x@),
        None => None,
    }
}

/// A platform call, or a wait, that the announcer asks for.
pub enum AnnouncerCall {
    /// Fetch the live member list of a voice channel of a guild.
    FetchMembers { guild_id: u64, channel_id: u64 },
    /// Post a message to a text channel.
    Send { channel_id: u64, text: String },
    /// Suspend this run, and only this run, for a number of seconds.
    Wait { seconds: u64 },
    /// Delete a message.
    Delete { channel_id: u64, message_id: u64 },
}

pub enum AnnouncerCallView {
    FetchMembers { guild_id: u64, channel_id: u64 },
    Send { channel_id: u64, text: Seq<char> },
    Wait { seconds: u64 },
    Delete { channel_id: u64, message_id: u64 },
}

impl View for AnnouncerCall {
    type V = AnnouncerCallView;

    open spec fn view(&self) -> AnnouncerCallView {
        match self {
            AnnouncerCall::FetchMembers { guild_id, channel_id } => AnnouncerCallView::FetchMembers {
                guild_id: *guild_id,
                channel_id: *channel_id,
            },
            AnnouncerCall::Send { channel_id, text } => AnnouncerCallView::Send {
                channel_id: *channel_id,
                text: text@,
            },
            AnnouncerCall::Wait { seconds } => AnnouncerCallView::Wait { seconds: *seconds },
            AnnouncerCall::Delete { channel_id, message_id } => AnnouncerCallView::Delete {
                channel_id: *channel_id,
                message_id: *message_id,
            },
        }
    }
}

pub open spec fn call_view(c: Option<AnnouncerCall>) -> Option<AnnouncerCallView> {
    match c {
        Some(x) => Some(x@),
        None => None,
    }
}

/// How an announcer run ended.
#[derive(Clone, Copy, PartialEq, Eq, Structural, Debug)]
pub enum AnnouncerOutcome {
    /// The update repeated the same user's state; nothing was fetched.
    SelfTransition,
    /// The update lacked the channel, the guild or the member.
    Malformed,
    /// The member list could not be had.
    FetchFailed,
    /// The joiner was not alone in the channel.
    NotAlone,
    /// The joiner was deafened.
    Deafened,
    /// The announcement could not be posted.
    SendFailed,
    /// The announcement was posted and later deleted.
    Retracted,
    /// The announcement was posted but not deleted.
    RetractFailed,
}

impl AnnouncerOutcome {
    pub open spec fn spec_is_failure(self) -> bool {
        self is Malformed || self is FetchFailed || self is SendFailed || self is RetractFailed
    }

    /// Whether the run ended on an error worth logging.
    #[verifier::when_used_as_spec(spec_is_failure)]
    pub fn is_failure(self) -> (r: bool)
        ensures
            r == self.spec_is_failure(),
    {
        match self {
            AnnouncerOutcome::Malformed => true,
            AnnouncerOutcome::FetchFailed => true,
            AnnouncerOutcome::SendFailed => true,
            AnnouncerOutcome::RetractFailed => true,
            _ => false,
        }
    }
}

/// Where an announcer run stands.
#[derive(Clone, Copy, PartialEq, Eq, Structural, Debug)]
pub enum AnnouncerStage {
    Start,
    AwaitMembers,
    AwaitSent,
    /// Waiting before deleting the announcement with this message id.
    AwaitDelay(u64),
    AwaitRetract,
    Finished(AnnouncerOutcome),
}

/// The announcement: the role ping, the member, the verb phrase and the
/// voice channel, separated by single spaces.
pub open spec fn announcement_text(
    cfg: PolicyConfigView,
    member_id: u64,
    channel_id: u64,
    phrase: Seq<char>,
) -> Seq<char> {
    role_mention_text(cfg.announce_role) + seq![' '] + user_mention_text(member_id) + seq![' ']
        + phrase + seq![' '] + channel_mention_text(channel_id)
}

/// One step of the announcer: from its stage and the answer to its last call,
/// the next stage and the next call. `phrase` is the verb phrase that an
/// announcement made in this step uses.
pub open spec fn announcer_step(
    cfg: PolicyConfigView,
    t: VoiceTransition,
    stage: AnnouncerStage,
    answer: Option<AnnouncerAnswerView>,
    phrase: Seq<char>,
) -> (AnnouncerStage, Option<AnnouncerCallView>) {
    let fail = |o: AnnouncerOutcome| (AnnouncerStage::Finished(o), None::<AnnouncerCallView>);
    match stage {
        AnnouncerStage::Start => {
            if t.is_self_transition() {
                fail(AnnouncerOutcome::SelfTransition)
            } else {
                match (t.new.channel_id, t.new.guild_id) {
                    (Some(c), Some(g)) => (
                        AnnouncerStage::AwaitMembers,
                        Some(AnnouncerCallView::FetchMembers { guild_id: g, channel_id: c }),
                    ),
                    _ => fail(AnnouncerOutcome::Malformed),
                }
            }
        },
        AnnouncerStage::AwaitMembers => match answer {
            Some(AnnouncerAnswerView::Members(ms)) => {
                if ms.len() != 1 {
                    fail(AnnouncerOutcome::NotAlone)
                } else {
                    match (t.new.member_id, t.new.channel_id) {
                        (Some(m), Some(c)) => {
                            if t.new.self_deaf {
                                fail(AnnouncerOutcome::Deafened)
                            } else {
                                (
                                    AnnouncerStage::AwaitSent,
                                    Some(
                                        AnnouncerCallView::Send {
                                            channel_id: cfg.announce_channel,
                                            text: announcement_text(cfg, m, c, phrase),
                                        },
                                    ),
                                )
                            }
                        },
                        _ => fail(AnnouncerOutcome::Malformed),
                    }
                }
            },
            _ => fail(AnnouncerOutcome::FetchFailed),
        },
        AnnouncerStage::AwaitSent => match answer {
            Some(AnnouncerAnswerView::Sent(id)) => (
                AnnouncerStage::AwaitDelay(id),
                Some(AnnouncerCallView::Wait { seconds: cfg.retract_delay_secs }),
            ),
            _ => fail(AnnouncerOutcome::SendFailed),
        },
        AnnouncerStage::AwaitDelay(id) => match answer {
            Some(AnnouncerAnswerView::Elapsed) => (
                AnnouncerStage::AwaitRetract,
                Some(AnnouncerCallView::Delete { channel_id: cfg.announce_channel, message_id: id }),
            ),
            _ => fail(AnnouncerOutcome::RetractFailed),
        },
        AnnouncerStage::AwaitRetract => match answer {
            Some(AnnouncerAnswerView::Done) => fail(AnnouncerOutcome::Retracted),
            _ => fail(AnnouncerOutcome::RetractFailed),
        },
        AnnouncerStage::Finished(o) => fail(o),
    }
}

/// The announcement for a member who joined a voice channel, with the given
/// verb phrase.
pub fn compose_announcement(cfg: &PolicyConfig, member_id: u64, channel_id: u64, phrase: &str) -> (r:
    String)
    requires
        cfg.wf(),
        member_id != 0,
        channel_id != 0,
    ensures
        r@ == announcement_text(cfg@, member_id, channel_id, phrase@),
{
    proof {
        reveal_strlit(" ");
    }
    let mut text = role_mention(cfg.announce_role);
    text.append(" ");
    let member = user_mention(member_id);
    text.append(member.as_str());
    text.append(" ");
    text.append(phrase);
    text.append(" ");
    let channel = channel_mention(channel_id);
    text.append(channel.as_str());
    text
}

/// Relies on rand's `IndexedRandom::choose` with the thread-local generator:
/// one element of the list, or none when the list is empty. The element is
/// cloned, which keeps its text.
#[verifier::external_body]
fn choose_phrase(phrases: &Vec<String>) -> (r: Option<String>)
    ensures
        phrases@.len() == 0 <==> r is None,
        r matches Some(p) ==> exists|i: int| 0 <= i < phrases@.len() && phrases@[i]@ == p@,
{
    phrases.as_slice().choose(&mut rand::rng()).cloned()
}

/// The join announcer for one voice state update.
pub struct JoinAnnouncer {
    pub transition: VoiceTransition,
    pub stage: AnnouncerStage,
}

impl JoinAnnouncer {
    /// An announcer that has not acted on the update yet.
    pub fn new(transition: VoiceTransition) -> (r: JoinAnnouncer)
        ensures
            r.transition == transition,
            r.stage == AnnouncerStage::Start,
    {
        JoinAnnouncer { transition, stage: AnnouncerStage::Start }
    }

    /// One step with the verb phrase given: takes the answer to the last call
    /// (none on the first step) and returns the next call to make, or none
    /// once the run is over.
    pub fn step_with_phrase(
        &mut self,
        cfg: &PolicyConfig,
        answer: Option<AnnouncerAnswer>,
        phrase: &str,
    ) -> (call: Option<AnnouncerCall>)
        requires
            cfg.wf(),
            old(self).transition.wf(),
        ensures
            final(self).transition == old(self).transition,
            (final(self).stage, call_view(call)) == announcer_step(
                cfg@,
                old(self).transition,
                old(self).stage,
                answer_view(answer),
                phrase@,
            ),
    {
        let t = self.transition;
        match self.stage {
            AnnouncerStage::Start => {
                let repeated = match t.old {
                    Some(o) => o.user_id == t.new.user_id,
                    None => false,
                };
                if repeated {
                    self.stage = AnnouncerStage::Finished(AnnouncerOutcome::SelfTransition);
                    return None;
                }
                match (t.new.channel_id, t.new.guild_id) {
                    (Some(c), Some(g)) => {
                        self.stage = AnnouncerStage::AwaitMembers;
                        Some(AnnouncerCall::FetchMembers { guild_id: g, channel_id: c })
                    },
                    _ => {
                        self.stage = AnnouncerStage::Finished(AnnouncerOutcome::Malformed);
                        None
                    },
                }
            },
            AnnouncerStage::AwaitMembers => match answer {
                Some(AnnouncerAnswer::Members(ms)) => {
                    if ms.len() != 1 {
                        self.stage = AnnouncerStage::Finished(AnnouncerOutcome::NotAlone);
                        return None;
                    }
                    match (t.new.member_id, t.new.channel_id) {
                        (Some(m), Some(c)) => {
                            if t.new.self_deaf {
                                self.stage = AnnouncerStage::Finished(AnnouncerOutcome::Deafened);
                                None
                            } else {
                                let text = compose_announcement(cfg, m, c, phrase);
                                self.stage = AnnouncerStage::AwaitSent;
                                Some(AnnouncerCall::Send { channel_id: cfg.announce_channel, text })
                            }
                        },
                        _ => {
                            self.stage = AnnouncerStage::Finished(AnnouncerOutcome::Malformed);
                            None
                        },
                    }
                },
                _ => {
                    self.stage = AnnouncerStage::Finished(AnnouncerOutcome::FetchFailed);
                    None
                },
            },
            AnnouncerStage::AwaitSent => match answer {
                Some(AnnouncerAnswer::Sent(id)) => {
                    self.stage = AnnouncerStage::AwaitDelay(id);
                    Some(AnnouncerCall::Wait { seconds: cfg.retract_delay_secs })
                },
                _ => {
                    self.stage = AnnouncerStage::Finished(AnnouncerOutcome::SendFailed);
                    None
                },
            },
            AnnouncerStage::AwaitDelay(id) => match answer {
                Some(AnnouncerAnswer::Elapsed) => {
                    self.stage = AnnouncerStage::AwaitRetract;
                    Some(AnnouncerCall::Delete { channel_id: cfg.announce_channel, message_id: id })
                },
                _ => {
                    self.stage = AnnouncerStage::Finished(AnnouncerOutcome::RetractFailed);
                    None
                },
            },
            AnnouncerStage::AwaitRetract => match answer {
                Some(AnnouncerAnswer::Done) => {
                    self.stage = AnnouncerStage::Finished(AnnouncerOutcome::Retracted);
                    None
                },
                _ => {
                    self.stage = AnnouncerStage::Finished(AnnouncerOutcome::RetractFailed);
                    None
                },
            },
            AnnouncerStage::Finished(_) => None,
        }
    }

    /// One step, with the verb phrase of an announcement drawn at random from
    /// the configured list.
    pub fn step(&mut self, cfg: &PolicyConfig, answer: Option<AnnouncerAnswer>) -> (call: Option<
        AnnouncerCall,
    >)
        requires
            cfg.wf(),
            old(self).transition.wf(),
        ensures
            final(self).transition == old(self).transition,
            exists|i: int|
                0 <= i < cfg@.phrases.len() && (final(self).stage, call_view(call))
                    == announcer_step(
                    cfg@,
                    old(self).transition,
                    old(self).stage,
                    answer_view(answer),
                    #[trigger] cfg@.phrases[i],
                ),
    {
        let picked = choose_phrase(&cfg.phrases);
        let phrase = match picked {
            Some(p) => p,
            None => String::new(),
        };
        let call = self.step_with_phrase(cfg, answer, phrase.as_str());
        proof {
            let i = choose|i: int| 0 <= i < cfg.phrases@.len() && cfg.phrases@[i]@ == phrase@;
            assert(cfg@.phrases[i] == phrase@);
        }
        call
    }

    /// How the run ended, once it has.
    pub fn outcome(&self) -> (r: Option<AnnouncerOutcome>)
        ensures
            r == (match self.stage {
                AnnouncerStage::Finished(o) => Some(o),
                _ => None,
            }),
    {
        match self.stage {
            AnnouncerStage::Finished(o) => Some(o),
            _ => None,
        }
    }
}

/// A whole run of the announcer: the answers fed to it one step at a time,
/// and the stage it ends in with every call it asked for, in order.
pub open spec fn announcer_run(
    cfg: PolicyConfigView,
    t: VoiceTransition,
    stage: AnnouncerStage,
    answers: Seq<Option<AnnouncerAnswerView>>,
    phrase: Seq<char>,
) -> (AnnouncerStage, Seq<AnnouncerCallView>)
    decreases answers.len(),
{
    if answers.len() == 0 {
        (stage, Seq::empty())
    } else {
        let (next, call) = announcer_step(cfg, t, stage, answers[0], phrase);
        let (last, calls) = announcer_run(cfg, t, next, answers.drop_first(), phrase);
        (last, opt_seq(call) + calls)
    }
}

/// None of the calls posts a message.
pub open spec fn sends_nothing(calls: Seq<AnnouncerCallView>) -> bool {
    forall|i: int| 0 <= i < calls.len() ==> !(#[trigger] calls[i] is Send)
}

/// A finished run stays finished and asks for nothing more.
pub proof fn lemma_finished_is_quiet(
    cfg: PolicyConfigView,
    t: VoiceTransition,
    o: AnnouncerOutcome,
    answers: Seq<Option<AnnouncerAnswerView>>,
    phrase: Seq<char>,
)
    ensures
        announcer_run(cfg, t, AnnouncerStage::Finished(o), answers, phrase) == (
            AnnouncerStage::Finished(o),
            Seq::<AnnouncerCallView>::empty(),
        ),
    decreases answers.len(),
{
    if answers.len() > 0 {
        lemma_finished_is_quiet(cfg, t, o, answers.drop_first(), phrase);
        assert(opt_seq::<AnnouncerCallView>(None) + Seq::<AnnouncerCallView>::empty()
            =~= Seq::<AnnouncerCallView>::empty());
    }
}

/// How many calls a run can still ask for once the announcement is posted.
pub open spec fn calls_left_after_send(stage: AnnouncerStage) -> int {
    match stage {
        AnnouncerStage::AwaitSent => 2,
        AnnouncerStage::AwaitDelay(_) => 1,
        _ => 0,
    }
}

/// Once the announcement is posted, or the run is over, nothing more is posted.
proof fn lemma_after_send_nothing_is_sent(
    cfg: PolicyConfigView,
    t: VoiceTransition,
    stage: AnnouncerStage,
    answers: Seq<Option<AnnouncerAnswerView>>,
    phrase: Seq<char>,
)
    requires
        stage is AwaitSent || stage is AwaitDelay || stage is AwaitRetract || stage is Finished,
    ensures
        sends_nothing(announcer_run(cfg, t, stage, answers, phrase).1),
        announcer_run(cfg, t, stage, answers, phrase).1.len() <= calls_left_after_send(stage),
    decreases answers.len(),
{
    if answers.len() > 0 {
        let (next, call) = announcer_step(cfg, t, stage, answers[0], phrase);
        lemma_after_send_nothing_is_sent(cfg, t, next, answers.drop_first(), phrase);
        let rest = announcer_run(cfg, t, next, answers.drop_first(), phrase).1;
        let calls = opt_seq(call) + rest;
        assert forall|i: int| 0 <= i < calls.len() implies !(#[trigger] calls[i] is Send) by {
            if call is Some && i == 0 {
            } else if call is Some {
                assert(calls[i] == rest[i - 1]);
            } else {
                assert(calls[i] == rest[i]);
            }
        }
    }
}

/// An update that repeats the same user's state asks for nothing: no fetch
/// of the channel and no announcement.
pub proof fn law_self_transition_is_ignored(
    cfg: PolicyConfigView,
    t: VoiceTransition,
    answers: Seq<Option<AnnouncerAnswerView>>,
    phrase: Seq<char>,
)
    requires
        t.is_self_transition(),
        answers.len() > 0,
    ensures
        announcer_run(cfg, t, AnnouncerStage::Start, answers, phrase) == (
            AnnouncerStage::Finished(AnnouncerOutcome::SelfTransition),
            Seq::<AnnouncerCallView>::empty(),
        ),
{
    lemma_finished_is_quiet(
        cfg,
        t,
        AnnouncerOutcome::SelfTransition,
        answers.drop_first(),
        phrase,
    );
    assert(opt_seq::<AnnouncerCallView>(None) + Seq::<AnnouncerCallView>::empty()
        =~= Seq::<AnnouncerCallView>::empty());
}

/// A member who is alone in the voice channel they joined, and not deafened,
/// gets one announcement in the announcement channel with the role ping,
/// their mention, the phrase and the channel's mention; after the configured
/// delay that same message is deleted, once.
pub proof fn law_lone_joiner_is_announced_then_retracted(
    cfg: PolicyConfigView,
    t: VoiceTransition,
    answers: Seq<Option<AnnouncerAnswerView>>,
    phrase: Seq<char>,
    members: Seq<u64>,
    message_id: u64,
)
    requires
        !t.is_self_transition(),
        t.new.channel_id is Some,
        t.new.guild_id is Some,
        t.new.member_id is Some,
        !t.new.self_deaf,
        members.len() == 1,
        answers.len() >= 5,
        answers[1] == Some(AnnouncerAnswerView::Members(members)),
        answers[2] == Some(AnnouncerAnswerView::Sent(message_id)),
        answers[3] == Some(AnnouncerAnswerView::Elapsed),
        answers[4] == Some(AnnouncerAnswerView::Done),
    ensures
        announcer_run(cfg, t, AnnouncerStage::Start, answers, phrase) == (
            AnnouncerStage::Finished(AnnouncerOutcome::Retracted),
            seq![
                AnnouncerCallView::FetchMembers {
                    guild_id: t.new.guild_id->Some_0,
                    channel_id: t.new.channel_id->Some_0,
                },
                AnnouncerCallView::Send {
                    channel_id: cfg.announce_channel,
                    text: announcement_text(
                        cfg,
                        t.new.member_id->Some_0,
                        t.new.channel_id->Some_0,
                        phrase,
                    ),
                },
                AnnouncerCallView::Wait { seconds: cfg.retract_delay_secs },
                AnnouncerCallView::Delete {
                    channel_id: cfg.announce_channel,
                    message_id: message_id,
                },
            ],
        ),
{
    let a1 = answers.drop_first();
    let a2 = a1.drop_first();
    let a3 = a2.drop_first();
    let a4 = a3.drop_first();
    let a5 = a4.drop_first();
    assert(a1[0] == answers[1]);
    assert(a2[0] == answers[2]);
    assert(a3[0] == answers[3]);
    assert(a4[0] == answers[4]);
    let done = AnnouncerStage::Finished(AnnouncerOutcome::Retracted);
    lemma_finished_is_quiet(cfg, t, AnnouncerOutcome::Retracted, a5, phrase);
    let e = Seq::<AnnouncerCallView>::empty();
    let f = AnnouncerCallView::FetchMembers {
        guild_id: t.new.guild_id->Some_0,
        channel_id: t.new.channel_id->Some_0,
    };
    let s = AnnouncerCallView::Send {
        channel_id: cfg.announce_channel,
        text: announcement_text(cfg, t.new.member_id->Some_0, t.new.channel_id->Some_0, phrase),
    };
    let w = AnnouncerCallView::Wait { seconds: cfg.retract_delay_secs };
    let d = AnnouncerCallView::Delete { channel_id: cfg.announce_channel, message_id: message_id };
    assert(opt_seq::<AnnouncerCallView>(None) + e =~= e);
    assert(announcer_run(cfg, t, AnnouncerStage::AwaitRetract, a4, phrase) == (done, e));
    assert(seq![d] + e =~= seq![d]);
    assert(announcer_run(cfg, t, AnnouncerStage::AwaitDelay(message_id), a3, phrase) == (
        done,
        seq![d],
    ));
    assert(seq![w] + seq![d] =~= seq![w, d]);
    assert(announcer_run(cfg, t, AnnouncerStage::AwaitSent, a2, phrase) == (done, seq![w, d]));
    assert(seq![s] + seq![w, d] =~= seq![s, w, d]);
    assert(announcer_run(cfg, t, AnnouncerStage::AwaitMembers, a1, phrase) == (
        done,
        seq![s, w, d],
    ));
    assert(seq![f] + seq![s, w, d] =~= seq![f, s, w, d]);
}

/// A member who joins a voice channel that holds more than one member, with
/// them counted, is not announced: the fetch of the members is the only call.
pub proof fn law_occupied_channel_is_not_announced(
    cfg: PolicyConfigView,
    t: VoiceTransition,
    answers: Seq<Option<AnnouncerAnswerView>>,
    phrase: Seq<char>,
    members: Seq<u64>,
)
    requires
        !t.is_self_transition(),
        t.new.channel_id is Some,
        t.new.guild_id is Some,
        members.len() > 1,
        answers.len() >= 2,
        answers[1] == Some(AnnouncerAnswerView::Members(members)),
    ensures
        announcer_run(cfg, t, AnnouncerStage::Start, answers, phrase) == (
            AnnouncerStage::Finished(AnnouncerOutcome::NotAlone),
            seq![
                AnnouncerCallView::FetchMembers {
                    guild_id: t.new.guild_id->Some_0,
                    channel_id: t.new.channel_id->Some_0,
                },
            ],
        ),
{
    let a1 = answers.drop_first();
    assert(a1[0] == answers[1]);
    let stop = AnnouncerStage::Finished(AnnouncerOutcome::NotAlone);
    lemma_finished_is_quiet(cfg, t, AnnouncerOutcome::NotAlone, a1.drop_first(), phrase);
    let e = Seq::<AnnouncerCallView>::empty();
    let f = AnnouncerCallView::FetchMembers {
        guild_id: t.new.guild_id->Some_0,
        channel_id: t.new.channel_id->Some_0,
    };
    assert(opt_seq::<AnnouncerCallView>(None) + e =~= e);
    assert(announcer_run(cfg, t, AnnouncerStage::AwaitMembers, a1, phrase) == (stop, e));
    assert(seq![f] + e =~= seq![f]);
}

/// A member who joins deafened is never announced, whatever the platform
/// answers, even into an empty channel.
pub proof fn law_deafened_joiner_is_not_announced(
    cfg: PolicyConfigView,
    t: VoiceTransition,
    answers: Seq<Option<AnnouncerAnswerView>>,
    phrase: Seq<char>,
)
    requires
        t.new.self_deaf,
    ensures
        sends_nothing(announcer_run(cfg, t, AnnouncerStage::Start, answers, phrase).1),
{
    if answers.len() > 0 {
        let (next, call) = announcer_step(cfg, t, AnnouncerStage::Start, answers[0], phrase);
        let a1 = answers.drop_first();
        let rest = announcer_run(cfg, t, next, a1, phrase).1;
        if next is Finished {
            lemma_finished_is_quiet(cfg, t, next->Finished_0, a1, phrase);
        } else if a1.len() > 0 {
            let (n2, c2) = announcer_step(cfg, t, next, a1[0], phrase);
            lemma_finished_is_quiet(cfg, t, n2->Finished_0, a1.drop_first(), phrase);
            assert(rest =~= Seq::<AnnouncerCallView>::empty());
        }
        let calls = opt_seq(call) + rest;
        assert forall|i: int| 0 <= i < calls.len() implies !(#[trigger] calls[i] is Send) by {
            if call is Some && i == 0 {
            } else if call is Some {
                assert(calls[i] == rest[i - 1]);
            } else {
                assert(calls[i] == rest[i]);
            }
        }
    }
}

/// Whatever the platform answers, a run posts at most one announcement, as
/// its second call, and asks for at most four calls in all.
pub proof fn law_at_most_one_announcement(
    cfg: PolicyConfigView,
    t: VoiceTransition,
    answers: Seq<Option<AnnouncerAnswerView>>,
    phrase: Seq<char>,
)
    ensures
        ({
            let calls = announcer_run(cfg, t, AnnouncerStage::Start, answers, phrase).1;
            &&& calls.len() <= 4
            &&& forall|i: int| 0 <= i < calls.len() && (#[trigger] calls[i] is Send) ==> i == 1
        }),
{
    if answers.len() > 0 {
        let (next, call) = announcer_step(cfg, t, AnnouncerStage::Start, answers[0], phrase);
        let a1 = answers.drop_first();
        let rest = announcer_run(cfg, t, next, a1, phrase).1;
        let calls = opt_seq(call) + rest;
        if next is Finished {
            lemma_finished_is_quiet(cfg, t, next->Finished_0, a1, phrase);
            assert(calls =~= Seq::<AnnouncerCallView>::empty());
        } else if a1.len() > 0 {
            let (n2, c2) = announcer_step(cfg, t, next, a1[0], phrase);
            let rest2 = announcer_run(cfg, t, n2, a1.drop_first(), phrase).1;
            lemma_after_send_nothing_is_sent(cfg, t, n2, a1.drop_first(), phrase);
            assert(rest == opt_seq(c2) + rest2);
            assert(calls == seq![call->Some_0] + rest);
            assert forall|i: int| 0 <= i < calls.len() && (#[trigger] calls[i] is Send) implies i
                == 1 by {
                if i >= 2 {
                    if c2 is Some {
                        assert(calls[i] == rest2[i - 2]);
                    } else {
                        assert(calls[i] == rest2[i - 1]);
                    }
                }
            }
        } else {
            assert(calls =~= seq![call->Some_0]);
        }
    }
}

} // verus!
