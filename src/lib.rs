//! Event policies of a Discord chat bot: the downvote moderator, which removes
//! a message once enough members reacted to it with the downvote emoji, and the
//! join announcer, which announces a member who enters an empty voice channel
//! and retracts the announcement after a delay.
//!
//! Each policy is a small state machine. The caller performs the platform calls
//! that a step asks for and hands the answers back; every decision is made here.

use vstd::prelude::*;

pub mod announce;
pub mod config;
pub mod graphql;
pub mod mention;
pub mod moderation;
pub mod handler;
pub mod uiua;

verus! {

/// The call of one step as a sequence of at most one element.
pub open spec fn opt_seq<A>(o: Option<A>) -> Seq<A> {
    match o {
        Some(x) => seq![x],
        None => Seq::empty(),
    }
}

} // verus!
