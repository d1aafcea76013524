//! Moderation: banning and kicking members, and the slowmode of a channel.
use vstd::prelude::*;
use crate::embed::{respond, say, Reply, ReplyView};
use crate::parse::{parse_u64, parsed_u64};
use crate::text::{decimal, owned, push_decimal, push_str};

verus! {

/// Which of the two removals a command performs.
pub enum Removal {
    Ban,
    Kick,
}

/// What a ban or kick command does.
pub enum RemovalPlan {
    /// Answer in the channel and do nothing else.
    Refuse(Reply),
    /// Remove the member (a ban also deletes a day of messages), giving the
    /// reason where one was given, then answer the author.
    Remove { reason: Option<String>, reply: Reply },
}

pub enum RemovalPlanView {
    Refuse(ReplyView),
    Remove { reason: Option<Seq<char>>, reply: ReplyView },
}

impl View for RemovalPlan {
    type V = RemovalPlanView;

    open spec fn view(&self) -> RemovalPlanView {
        match self {
            RemovalPlan::Refuse(r) => RemovalPlanView::Refuse(r@),
            RemovalPlan::Remove { reason, reply } => RemovalPlanView::Remove { reason: reason.deep_view(), reply: reply@ },
        }
    }
}

/// The member a removal names.
pub struct Target {
    pub name: String,
    pub discriminator: u16,
    pub id: u64,
}

pub open spec fn removal_verb(kind: Removal) -> Seq<char> {
    match kind {
        Removal::Ban => "Banned"@,
        Removal::Kick => "Kicked"@,
    }
}

pub open spec fn removal_text(kind: Removal, t: Target, reason: Option<Seq<char>>) -> Seq<char> {
    removal_verb(kind) + " member `"@ + t.name@ + "#"@ + decimal(t.discriminator as nat) + "` with id `"@ + decimal(
        t.id as nat,
    ) + match reason {
        Some(r) => "` for reason `"@ + r + "`!"@,
        None => "`."@,
    }
}

pub open spec fn removal_plan(kind: Removal, private: bool, t: Target, reason: Option<Seq<char>>) -> RemovalPlanView {
    if private {
        RemovalPlanView::Refuse(ReplyView::Say("You can't kick anyone in private messages!"@))
    } else {
        RemovalPlanView::Remove { reason, reply: ReplyView::Respond(removal_text(kind, t, reason)) }
    }
}

/// What a ban or kick does: nothing in a private channel; otherwise remove
/// the member and say so.
pub fn plan_removal(kind: Removal, private: bool, t: &Target, reason: Option<String>) -> (p: RemovalPlan)
    ensures
        p@ == removal_plan(kind, private, *t, reason.deep_view()),
{
    if private {
        return RemovalPlan::Refuse(say(owned("You can't kick anyone in private messages!")));
    }
    let mut s = owned(match kind {
        Removal::Ban => "Banned",
        Removal::Kick => "Kicked",
    });
    push_str(&mut s, " member `");
    push_str(&mut s, t.name.as_str());
    push_str(&mut s, "#");
    push_decimal(&mut s, t.discriminator as u64);
    push_str(&mut s, "` with id `");
    push_decimal(&mut s, t.id);
    match &reason {
        Some(r) => {
            push_str(&mut s, "` for reason `");
            push_str(&mut s, r.as_str());
            push_str(&mut s, "`!");
        },
        None => push_str(&mut s, "`."),
    }
    assert(s@ =~= removal_text(kind, *t, reason.deep_view()));
    RemovalPlan::Remove { reason, reply: respond(s) }
}

// ---------------------------------------------------------------------------
// Slowmode
// ---------------------------------------------------------------------------

/// The rate the slowmode command was asked to set, if its first argument
/// reads as a whole number of seconds.
pub fn slowmode_rate(argument: Option<&str>) -> (r: Option<u64>)
    ensures
        r == match argument {
            Some(a) => match parsed_u64(a@) {
                Some(v) => Some(v as u64),
                None => None,
            },
            None => None,
        },
{
    match argument {
        Some(a) => parse_u64(a),
        None => None,
    }
}

/// The answer after setting a rate, given whether Discord accepted it.
pub open spec fn slowmode_set_text(rate: u64, accepted: bool) -> Seq<char> {
    if !accepted {
        "Failed to set slowmode to `"@ + decimal(rate as nat) + "` seconds."@
    } else if rate == 0 {
        "Successfully cleared the channel's slowmode rate."@
    } else {
        "Successfully set the slowmode rate to `"@ + decimal(rate as nat) + "` seconds."@
    }
}

pub fn slowmode_set_reply(rate: u64, accepted: bool) -> (r: Reply)
    ensures
        r@ == ReplyView::Say(slowmode_set_text(rate, accepted)),
{
    if !accepted {
        let mut s = owned("Failed to set slowmode to `");
        push_decimal(&mut s, rate);
        push_str(&mut s, "` seconds.");
        say(s)
    } else if rate == 0 {
        say(owned("Successfully cleared the channel's slowmode rate."))
    } else {
        let mut s = owned("Successfully set the slowmode rate to `");
        push_decimal(&mut s, rate);
        push_str(&mut s, "` seconds.");
        say(s)
    }
}

/// The answer when no rate was given: the channel's current rate, given
/// what the cache holds of the channel (`None` when it is not a cached
/// guild channel).
pub open spec fn slowmode_query_text(cached: Option<Option<u16>>) -> Seq<char> {
    match cached {
        Some(Some(rate)) => if rate == 0 {
            "Slowmode is not currently set in this channel."@
        } else {
            "Current slowmode rate is set to `"@ + decimal(rate as nat) + "` seconds."@
        },
        Some(None) => "Slowmode is not available for this channel type."@,
        None => "Failed to find channel in cache."@,
    }
}

pub fn slowmode_query_reply(cached: Option<Option<u16>>) -> (r: Reply)
    ensures
        r@ == ReplyView::Say(slowmode_query_text(cached)),
{
    match cached {
        Some(Some(rate)) => if rate == 0 {
            say(owned("Slowmode is not currently set in this channel."))
        } else {
            let mut s = owned("Current slowmode rate is set to `");
            push_decimal(&mut s, rate as u64);
            push_str(&mut s, "` seconds.");
            say(s)
        },
        Some(None) => say(owned("Slowmode is not available for this channel type.")),
        None => say(owned("Failed to find channel in cache.")),
    }
}

} // verus!
