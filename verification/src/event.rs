//! An inbound chat event as plain values, and the identities that the policy
//! speaks of.

use vstd::prelude::*;

verus! {

/// The identities that decide which events are answered.
#[derive(Clone, Copy, Debug, PartialEq, Eq, Structural)]
pub struct Policy {
    /// The channel whose messages open a sub-conversation.
    pub hub_channel: u64,
    /// The peer whose direct messages are always answered.
    pub peer: u64,
    /// The relay's own identity.
    pub bot: u64,
}

/// The message that an event replies to.
#[derive(Debug)]
pub struct Referenced {
    pub content: String,
    pub author: u64,
}

/// A referenced message as a plain value.
pub struct ReferencedView {
    pub content: Seq<char>,
    pub author: u64,
}

impl View for Referenced {
    type V = ReferencedView;

    open spec fn view(&self) -> ReferencedView {
        ReferencedView { content: self.content@, author: self.author }
    }
}

/// One attachment of an event, by what the logic reads of it.
#[derive(Debug)]
pub struct Attachment {
    pub content_type: Option<String>,
}

/// An attachment as a plain value.
pub struct AttachmentView {
    pub content_type: Option<Seq<char>>,
}

impl View for Attachment {
    type V = AttachmentView;

    open spec fn view(&self) -> AttachmentView {
        AttachmentView {
            content_type: match self.content_type {
                Some(declared) => Some(declared@),
                None => None,
            },
        }
    }
}

/// The referenced message, if there is one, as a plain value.
pub open spec fn referenced_view(referenced: Option<Referenced>) -> Option<ReferencedView> {
    match referenced {
        Some(r) => Some(r@),
        None => None,
    }
}

/// The attachments as plain values, in their order.
pub open spec fn attachment_views(attachments: Seq<Attachment>) -> Seq<AttachmentView> {
    Seq::new(attachments.len(), |i: int| attachments[i]@)
}

/// A message that was received.
#[derive(Debug)]
pub struct InboundEvent {
    /// The message's own identifier.
    pub message: u64,
    /// The channel it arrived in: the conversation key.
    pub channel: u64,
    /// The parent of that channel, where it has one and it is known.
    pub parent: Option<u64>,
    /// Whether it was sent in a guild, and not directly.
    pub in_guild: bool,
    pub author: u64,
    pub content: String,
    pub referenced: Option<Referenced>,
    pub attachments: Vec<Attachment>,
}

/// An event as a plain value.
pub struct EventView {
    pub message: u64,
    pub channel: u64,
    pub parent: Option<u64>,
    pub in_guild: bool,
    pub author: u64,
    pub content: Seq<char>,
    pub referenced: Option<ReferencedView>,
    pub attachments: Seq<AttachmentView>,
}

impl View for InboundEvent {
    type V = EventView;

    open spec fn view(&self) -> EventView {
        EventView {
            message: self.message,
            channel: self.channel,
            parent: self.parent,
            in_guild: self.in_guild,
            author: self.author,
            content: self.content@,
            referenced: referenced_view(self.referenced),
            attachments: attachment_views(self.attachments@),
        }
    }
}

} // verus!
