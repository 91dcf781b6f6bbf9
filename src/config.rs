use vstd::prelude::*;
use vstd::string::StringExecFns;

verus! {

/// The reaction that counts as a downvote.
pub const DOWNVOTE_EMOJI: &'static str = "⬇️";

/// How many downvotes remove a message.
pub const DOWNVOTE_LIMIT: u64 = 5;

/// The channel that join announcements are posted to.
pub const ANNOUNCE_CHANNEL_ID: u64 = 741129884470083634;

/// The role that a join announcement pings.
pub const ANNOUNCE_ROLE_ID: u64 = 1395071978838167623;

/// How long a join announcement stays up, in seconds.
pub const RETRACT_DELAY_SECS: u64 = 600;

/// The settings of both policies.
pub struct PolicyConfig {
    pub downvote_emoji: String,
    pub downvote_threshold: u64,
    pub announce_channel: u64,
    pub announce_role: u64,
    pub retract_delay_secs: u64,
    pub phrases: Vec<String>,
}

pub struct PolicyConfigView {
    pub downvote_emoji: Seq<char>,
    pub downvote_threshold: u64,
    pub announce_channel: u64,
    pub announce_role: u64,
    pub retract_delay_secs: u64,
    pub phrases: Seq<Seq<char>>,
}

impl View for PolicyConfig {
    type V = PolicyConfigView;

    open spec fn view(&self) -> PolicyConfigView {
        PolicyConfigView {
            downvote_emoji: self.downvote_emoji@,
            downvote_threshold: self.downvote_threshold,
            announce_channel: self.announce_channel,
            announce_role: self.announce_role,
            retract_delay_secs: self.retract_delay_secs,
            phrases: self.phrases@.map_values(|p: String| p@),
        }
    }
}

impl PolicyConfigView {
    /// The ids are real platform ids and there is a phrase to pick from.
    pub open spec fn wf(self) -> bool {
        &&& self.announce_channel != 0
        &&& self.announce_role != 0
        &&& self.phrases.len() > 0
    }
}

/// The verbs that a join announcement picks from.
pub open spec fn standard_phrases() -> Seq<Seq<char>> {
    seq![
        "joined"@,
        "hopped in"@,
        "hopped on"@,
        "sidled over to"@,
        "wandered over to"@,
        "connected to"@,
        "hit the button on"@,
        "jumped into"@,
        "crashed"@,
        "landed on"@,
        "activated"@,
        "wants to hang in"@,
        "cordially invites you to"@,
        "has become a member of"@,
        "sat down at"@,
        "mounted"@,
        "awaits your presence in"@,
    ]
}

impl PolicyConfig {
    pub open spec fn wf(&self) -> bool {
        self@.wf()
    }

    /// The settings the bot runs with.
    pub fn standard() -> (r: PolicyConfig)
        ensures
            r.wf(),
            r@.downvote_emoji == DOWNVOTE_EMOJI@,
            r@.downvote_threshold == DOWNVOTE_LIMIT,
            r@.announce_channel == ANNOUNCE_CHANNEL_ID,
            r@.announce_role == ANNOUNCE_ROLE_ID,
            r@.retract_delay_secs == RETRACT_DELAY_SECS,
            r@.phrases == standard_phrases(),
    {
        let phrases = vec![
            String::from_str("joined"),
            String::from_str("hopped in"),
            String::from_str("hopped on"),
            String::from_str("sidled over to"),
            String::from_str("wandered over to"),
            String::from_str("connected to"),
            String::from_str("hit the button on"),
            String::from_str("jumped into"),
            String::from_str("crashed"),
            String::from_str("landed on"),
            String::from_str("activated"),
            String::from_str("wants to hang in"),
            String::from_str("cordially invites you to"),
            String::from_str("has become a member of"),
            String::from_str("sat down at"),
            String::from_str("mounted"),
            String::from_str("awaits your presence in"),
        ];
        let r = PolicyConfig {
            downvote_emoji: String::from_str(DOWNVOTE_EMOJI),
            downvote_threshold: DOWNVOTE_LIMIT,
            announce_channel: ANNOUNCE_CHANNEL_ID,
            announce_role: ANNOUNCE_ROLE_ID,
            retract_delay_secs: RETRACT_DELAY_SECS,
            phrases,
        };
        assert(r@.phrases =~= standard_phrases());
        r
    }
}

} // verus!
