use crate::announce::{AnnouncerStage, JoinAnnouncer, VoiceTransition};
use crate::moderation::{DownvoteModerator, ModeratorStage, ReactionEvent};
use vstd::prelude::*;
use vstd::string::StringExecFns;

verus! {

/// A gateway event, as far as the bot's policies care.
pub enum GatewayEvent {
    ReactionAdd(ReactionEvent),
    VoiceStateUpdate(VoiceTransition),
    /// Any other event; no policy handles it.
    Other,
}

/// The policy run that an event starts.
pub enum Dispatch {
    Moderate(DownvoteModerator),
    Announce(JoinAnnouncer),
    Ignore,
}

/// The slash commands the bot answers.
#[derive(Clone, Copy, PartialEq, Eq, Structural, Debug)]
pub enum SlashCommand {
    Quote,
    Drunk,
    Spill,
    Unknown,
}

/// The sub-commands of the quote command.
#[derive(Clone, Copy, PartialEq, Eq, Structural, Debug)]
pub enum QuoteCommand {
    Add,
    Remove,
    Get,
    List,
    Unknown,
}

/// Whether two texts are equal.
fn same_text(a: &str, b: &str) -> (r: bool)
    ensures
        r == (a@ == b@),
{
    String::from_str(a) == String::from_str(b)
}

/// The event handler: routes each gateway event to the policy that owns it.
pub struct Handler;

impl Handler {
    /// A reaction starts a downvote moderation, a voice state update starts a
    /// join announcement, and any other event starts nothing.
    pub fn dispatch(event: GatewayEvent) -> (r: Dispatch)
        ensures
            match event {
                GatewayEvent::ReactionAdd(e) => r matches Dispatch::Moderate(m) && m.event@ == e@
                    && m.stage == ModeratorStage::Start,
                GatewayEvent::VoiceStateUpdate(t) => r matches Dispatch::Announce(a)
                    && a.transition == t && a.stage == AnnouncerStage::Start,
                GatewayEvent::Other => r is Ignore,
            },
    {
        match event {
            GatewayEvent::ReactionAdd(e) => Dispatch::Moderate(DownvoteModerator::new(e)),
            GatewayEvent::VoiceStateUpdate(t) => Dispatch::Announce(JoinAnnouncer::new(t)),
            GatewayEvent::Other => Dispatch::Ignore,
        }
    }

    /// The slash command that a command name selects.
    pub fn command_for(name: &str) -> (r: SlashCommand)
        ensures
            r == (if name@ == "quote"@ {
                SlashCommand::Quote
            } else if name@ == "drunk"@ {
                SlashCommand::Drunk
            } else if name@ == "spill"@ {
                SlashCommand::Spill
            } else {
                SlashCommand::Unknown
            }),
    {
        if same_text(name, "quote") {
            SlashCommand::Quote
        } else if same_text(name, "drunk") {
            SlashCommand::Drunk
        } else if same_text(name, "spill") {
            SlashCommand::Spill
        } else {
            SlashCommand::Unknown
        }
    }

    /// The quote sub-command that a sub-command name selects.
    pub fn quote_command_for(name: &str) -> (r: QuoteCommand)
        ensures
            r == (if name@ == "add"@ {
                QuoteCommand::Add
            } else if name@ == "remove"@ {
                QuoteCommand::Remove
            } else if name@ == "get"@ {
                QuoteCommand::Get
            } else if name@ == "list"@ {
                QuoteCommand::List
            } else {
                QuoteCommand::Unknown
            }),
    {
        if same_text(name, "add") {
            QuoteCommand::Add
        } else if same_text(name, "remove") {
            QuoteCommand::Remove
        } else if same_text(name, "get") {
            QuoteCommand::Get
        } else if same_text(name, "list") {
            QuoteCommand::List
        } else {
            QuoteCommand::Unknown
        }
    }
}

} // verus!
