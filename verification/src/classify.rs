//! Which events are answered, and by which flow.

use crate::event::{EventView, InboundEvent, Policy};
use crate::text::{decimal, decimal_string, occurs_in, str_contains};
use vstd::prelude::*;
use vstd::string::*;

verus! {

/// What is done about an event.
#[derive(Clone, Copy, Debug, PartialEq, Eq, Structural)]
pub enum Outcome {
    /// It arrived in the hub channel: a sub-conversation is opened and
    /// answered in.
    HubEntry,
    /// It is answered where it arrived.
    HubChild,
    /// The relay wrote it itself: never answered.
    SelfAuthored,
    /// Nothing asks for an answer.
    Ignore,
}

/// What the policy reads of one event. Computed anew for each event.
#[derive(Clone, Copy, Debug, PartialEq, Eq, Structural)]
pub struct PolicyContext {
    pub is_hub_channel: bool,
    pub is_hub_child: bool,
    pub is_direct_from_peer: bool,
    pub mentions_bot: bool,
    pub replies_to_bot: bool,
}

/// The text by which a message mentions the identity `id`.
pub open spec fn mention_of(id: u64) -> Seq<char> {
    "<@"@ + decimal(id as nat) + ">"@
}

/// The policy context of `event` under `policy`.
pub open spec fn context_of(policy: Policy, event: EventView) -> PolicyContext {
    PolicyContext {
        is_hub_channel: event.channel == policy.hub_channel,
        is_hub_child: event.parent == Some(policy.hub_channel),
        is_direct_from_peer: !event.in_guild && event.author == policy.peer,
        mentions_bot: occurs_in(mention_of(policy.bot), event.content),
        replies_to_bot: event.referenced matches Some(r) && r.author == policy.bot,
    }
}

/// The first rule that applies decides: the relay's own messages are left
/// alone, then the hub channel, then every other reason to answer.
pub open spec fn outcome_of(self_authored: bool, context: PolicyContext) -> Outcome {
    if self_authored {
        Outcome::SelfAuthored
    } else if context.is_hub_channel {
        Outcome::HubEntry
    } else if context.is_hub_child || context.is_direct_from_peer || context.mentions_bot
        || context.replies_to_bot {
        Outcome::HubChild
    } else {
        Outcome::Ignore
    }
}

impl Outcome {
    /// Whether the outcome asks for an answer.
    pub fn triggers_reply(&self) -> (yes: bool)
        ensures
            yes == (*self == Outcome::HubEntry || *self == Outcome::HubChild),
    {
        match self {
            Outcome::HubEntry => true,
            Outcome::HubChild => true,
            Outcome::SelfAuthored => false,
            Outcome::Ignore => false,
        }
    }
}

/// Writes the mention of `id`.
pub fn mention_text(id: u64) -> (mention: String)
    ensures
        mention@ == mention_of(id),
{
    String::from_str("<@").concat(decimal_string(id).as_str()).concat(">")
}

/// Reads from `event` what the policy asks about.
pub fn policy_context(policy: &Policy, event: &InboundEvent) -> (context: PolicyContext)
    ensures
        context == context_of(*policy, event@),
{
    let is_hub_child = match event.parent {
        Some(parent) => parent == policy.hub_channel,
        None => false,
    };
    let replies_to_bot = match &event.referenced {
        Some(referenced) => referenced.author == policy.bot,
        None => false,
    };
    let mention = mention_text(policy.bot);
    PolicyContext {
        is_hub_channel: event.channel == policy.hub_channel,
        is_hub_child,
        is_direct_from_peer: !event.in_guild && event.author == policy.peer,
        mentions_bot: str_contains(event.content.as_str(), mention.as_str()),
        replies_to_bot,
    }
}

/// Decides from the context alone.
pub fn decide(self_authored: bool, context: &PolicyContext) -> (outcome: Outcome)
    ensures
        outcome == outcome_of(self_authored, *context),
{
    if self_authored {
        Outcome::SelfAuthored
    } else if context.is_hub_channel {
        Outcome::HubEntry
    } else if context.is_hub_child || context.is_direct_from_peer || context.mentions_bot
        || context.replies_to_bot {
        Outcome::HubChild
    } else {
        Outcome::Ignore
    }
}

/// Decides what is done about `event`.
pub fn classify(policy: &Policy, event: &InboundEvent) -> (outcome: Outcome)
    ensures
        outcome == outcome_of(event.author == policy.bot, context_of(*policy, event@)),
        event.author == policy.bot ==> !(outcome == Outcome::HubEntry || outcome
            == Outcome::HubChild),
{
    if event.author == policy.bot {
        Outcome::SelfAuthored
    } else {
        let context = policy_context(policy, event);
        decide(false, &context)
    }
}

} // verus!
