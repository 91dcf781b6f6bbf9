use serenity::model::id::{ChannelId, RoleId, UserId};
use serenity::model::mention::Mentionable;
use vstd::prelude::*;

verus! {

/// The character of a decimal digit.
pub open spec fn digit_char(d: nat) -> char {
    if d == 0 {
        '0'
    } else if d == 1 {
        '1'
    } else if d == 2 {
        '2'
    } else if d == 3 {
        '3'
    } else if d == 4 {
        '4'
    } else if d == 5 {
        '5'
    } else if d == 6 {
        '6'
    } else if d == 7 {
        '7'
    } else if d == 8 {
        '8'
    } else {
        '9'
    }
}

/// A number written in decimal, without leading zeros.
pub open spec fn decimal(n: nat) -> Seq<char>
    decreases n,
{
    if n < 10 {
        seq![digit_char(n)]
    } else {
        decimal(n / 10).push(digit_char(n % 10))
    }
}

/// How the platform renders a mention of a user: `<@id>`.
pub open spec fn user_mention_text(id: u64) -> Seq<char> {
    seq!['<', '@'] + decimal(id as nat) + seq!['>']
}

/// How the platform renders a mention of a role: `<@&id>`.
pub open spec fn role_mention_text(id: u64) -> Seq<char> {
    seq!['<', '@', '&'] + decimal(id as nat) + seq!['>']
}

/// How the platform renders a mention of a channel: `<#id>`.
pub open spec fn channel_mention_text(id: u64) -> Seq<char> {
    seq!['<', '#'] + decimal(id as nat) + seq!['>']
}

/// Relies on serenity's `UserId::new`, which panics on zero, and on the
/// `Display` of the `Mention` that `Mentionable::mention` makes of it:
/// `<@{id}>`, the id printed as a `u64`.
#[verifier::external_body]
pub(crate) fn user_mention(id: u64) -> (r: String)
    requires
        id != 0,
    ensures
        r@ == user_mention_text(id),
{
    UserId::new(id).mention().to_string()
}

/// Relies on serenity's `RoleId::new`, which panics on zero, and on the
/// `Display` of the `Mention` that `Mentionable::mention` makes of it:
/// `<@&{id}>`, the id printed as a `u64`.
#[verifier::external_body]
pub(crate) fn role_mention(id: u64) -> (r: String)
    requires
        id != 0,
    ensures
        r@ == role_mention_text(id),
{
    RoleId::new(id).mention().to_string()
}

/// Relies on serenity's `ChannelId::new`, which panics on zero, and on the
/// `Display` of the `Mention` that `Mentionable::mention` makes of it:
/// `<#{id}>`, the id printed as a `u64`.
#[verifier::external_body]
pub(crate) fn channel_mention(id: u64) -> (r: String)
    requires
        id != 0,
    ensures
        r@ == channel_mention_text(id),
{
    ChannelId::new(id).mention().to_string()
}

} // verus!
