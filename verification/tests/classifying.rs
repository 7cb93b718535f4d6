use chat_relay::classify::{classify, decide, mention_text, policy_context, Outcome, PolicyContext};
use chat_relay::event::{InboundEvent, Policy, Referenced};

const HUB: u64 = 1270867600309489756;
const PEER: u64 = 1041839238733373450;
const BOT: u64 = 1081466107153633371;

fn policy() -> Policy {
    Policy { hub_channel: HUB, peer: PEER, bot: BOT }
}

fn guild_message(channel: u64, author: u64, content: &str) -> InboundEvent {
    InboundEvent {
        message: 9001,
        channel,
        parent: None,
        in_guild: true,
        author,
        content: content.to_string(),
        referenced: None,
        attachments: Vec::new(),
    }
}

#[test]
fn own_message_is_never_answered() {
    let in_hub = guild_message(HUB, BOT, "hello <@1081466107153633371>");
    assert_eq!(classify(&policy(), &in_hub), Outcome::SelfAuthored);
    assert!(!classify(&policy(), &in_hub).triggers_reply());

    let mut child = guild_message(5, BOT, "anything");
    child.parent = Some(HUB);
    assert_eq!(classify(&policy(), &child), Outcome::SelfAuthored);

    let mut direct = guild_message(6, BOT, "");
    direct.in_guild = false;
    assert_eq!(classify(&policy(), &direct), Outcome::SelfAuthored);
    assert!(!Outcome::Ignore.triggers_reply());
}

#[test]
fn hub_channel_message_is_hub_entry() {
    let event = guild_message(HUB, 77, "what is a waffle");
    assert_eq!(classify(&policy(), &event), Outcome::HubEntry);
    assert!(Outcome::HubEntry.triggers_reply());
}

#[test]
fn direct_message_from_peer_is_hub_child() {
    let mut event = guild_message(12, PEER, "hi");
    event.in_guild = false;
    assert_eq!(classify(&policy(), &event), Outcome::HubChild);
    assert!(Outcome::HubChild.triggers_reply());
}

#[test]
fn unrelated_guild_message_is_ignored() {
    let event = guild_message(12, 77, "nothing to see");
    assert_eq!(classify(&policy(), &event), Outcome::Ignore);
    let mut with_parent = guild_message(12, 77, "nothing to see");
    with_parent.parent = Some(13);
    assert_eq!(classify(&policy(), &with_parent), Outcome::Ignore);
}

#[test]
fn peer_in_a_guild_is_ignored() {
    let event = guild_message(12, PEER, "hi");
    assert_eq!(classify(&policy(), &event), Outcome::Ignore);
}

#[test]
fn direct_message_from_a_stranger_is_ignored() {
    let mut event = guild_message(12, 77, "hi");
    event.in_guild = false;
    assert_eq!(classify(&policy(), &event), Outcome::Ignore);
}

#[test]
fn child_of_the_hub_is_hub_child() {
    let mut event = guild_message(12, 77, "more");
    event.parent = Some(HUB);
    assert_eq!(classify(&policy(), &event), Outcome::HubChild);
}

#[test]
fn mention_is_hub_child() {
    let event = guild_message(12, 77, "hey <@1081466107153633371> listen");
    assert_eq!(classify(&policy(), &event), Outcome::HubChild);
    let other = guild_message(12, 77, "hey <@1081466107153633372> listen");
    assert_eq!(classify(&policy(), &other), Outcome::Ignore);
    let cut = guild_message(12, 77, "hey <@1081466107153633371");
    assert_eq!(classify(&policy(), &cut), Outcome::Ignore);
}

#[test]
fn reply_to_the_bot_is_hub_child() {
    let mut event = guild_message(12, 77, "and then?");
    event.referenced = Some(Referenced { content: "earlier".to_string(), author: BOT });
    assert_eq!(classify(&policy(), &event), Outcome::HubChild);
    event.referenced = Some(Referenced { content: "earlier".to_string(), author: 78 });
    assert_eq!(classify(&policy(), &event), Outcome::Ignore);
}

#[test]
fn hub_wins_over_the_other_reasons() {
    let mut event = guild_message(HUB, 77, "<@1081466107153633371>");
    event.parent = Some(HUB);
    event.referenced = Some(Referenced { content: "x".to_string(), author: BOT });
    assert_eq!(classify(&policy(), &event), Outcome::HubEntry);
}

#[test]
fn context_is_read_from_the_event() {
    let mut event = guild_message(12, PEER, "ping <@1081466107153633371>");
    event.in_guild = false;
    event.parent = Some(HUB);
    let context = policy_context(&policy(), &event);
    assert_eq!(
        context,
        PolicyContext {
            is_hub_channel: false,
            is_hub_child: true,
            is_direct_from_peer: true,
            mentions_bot: true,
            replies_to_bot: false,
        }
    );
}

#[test]
fn decide_takes_the_first_rule_that_applies() {
    let none = PolicyContext {
        is_hub_channel: false,
        is_hub_child: false,
        is_direct_from_peer: false,
        mentions_bot: false,
        replies_to_bot: false,
    };
    assert_eq!(decide(false, &none), Outcome::Ignore);
    assert_eq!(decide(true, &none), Outcome::SelfAuthored);
    let all = PolicyContext {
        is_hub_channel: true,
        is_hub_child: true,
        is_direct_from_peer: true,
        mentions_bot: true,
        replies_to_bot: true,
    };
    assert_eq!(decide(true, &all), Outcome::SelfAuthored);
    assert_eq!(decide(false, &all), Outcome::HubEntry);
    let reply_only = PolicyContext { replies_to_bot: true, ..none };
    assert_eq!(decide(false, &reply_only), Outcome::HubChild);
}

#[test]
fn mention_text_wraps_the_identity() {
    assert_eq!(mention_text(BOT), "<@1081466107153633371>");
    assert_eq!(mention_text(0), "<@0>");
}
