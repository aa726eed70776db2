use vstd::prelude::*;

use crate::models::embed::{Embed, EmbedCreate};
use crate::models::attachment::Attachment;
use crate::models::Id;

verus! {

/// A message.
#[derive(Clone, Debug)]
pub struct Message {
    /// The ID of the message.
    pub id: Id,
    pub nonuce: Option<String>,
    pub channel: Id,
    pub author: String,
    pub content: String,
    pub attachments: Vec<Attachment>,
    pub embeds: Option<Vec<Embed>>,
    pub mentions: Vec<Id>,
    pub replies: Vec<Id>,
}

/// A request to create a new message.
#[derive(Clone, Debug, Default)]
pub struct MessageSend {
    pub content: String,
    pub attachments: Vec<Id>,
    pub embeds: Vec<EmbedCreate>,
    pub flags: Option<MessageFlags>,
    pub interactions: Vec<MessageInteractions>,
    pub masquerade: Option<MessageMasquerade>,
    pub replies: Vec<MessageReplyIntent>,
}

/// The flags of a message, as a bitfield: 1 suppresses notifications, 2 mentions everyone,
/// 3 mentions those online.
#[derive(Debug, Clone, Copy, PartialEq, Eq, Structural, Default)]
pub struct MessageFlags(pub u32);

/// How a message is displayed in place of its author.
#[derive(Clone, Debug, PartialEq, Eq)]
pub struct MessageMasquerade {
    pub avatar: Option<String>,
    pub colour: Option<String>,
    pub name: String,
}

/// The message that a new message replies to.
#[derive(Clone, Debug)]
pub struct MessageReplyIntent {
    pub fail_if_not_exists: bool,
    pub id: Id,
    pub mention: bool,
}

/// The reactions that a message offers.
#[derive(Clone, Debug)]
pub struct MessageInteractions {
    pub reactions: Vec<Id>,
    pub restrict_reactions: bool,
}

/// A request to edit an existing message.
#[derive(Clone, Debug, Default)]
pub struct MessageEdit {
    pub content: Option<String>,
    pub embeds: Vec<EmbedCreate>,
}

impl MessageSend {
    /// Whether `m` carries the text `content` and nothing else.
    pub open spec fn is_plain(m: MessageSend, content: Seq<char>) -> bool {
        &&& m.content@ == content
        &&& m.attachments@.len() == 0
        &&& m.embeds@.len() == 0
        &&& m.flags is None
        &&& m.interactions@.len() == 0
        &&& m.masquerade is None
        &&& m.replies@.len() == 0
    }

    /// A message with the text `content` and nothing else.
    pub fn from_content(content: String) -> (r: MessageSend)
        ensures
            Self::is_plain(r, content@),
            r.content == content,
    {
        MessageSend {
            content,
            attachments: Vec::new(),
            embeds: Vec::new(),
            flags: None,
            interactions: Vec::new(),
            masquerade: None,
            replies: Vec::new(),
        }
    }

    /// This message, made a reply to the message `message_id`; `mention` pings its author.
    pub fn with_reply(self, message_id: &str, mention: bool) -> (r: MessageSend)
        ensures
            r.replies@.len() == self.replies@.len() + 1,
            r.replies@.drop_last() == self.replies@,
            r.replies@.last().id@ == message_id@,
            r.replies@.last().mention == mention,
            r.replies@.last().fail_if_not_exists,
            r.content == self.content,
            r.attachments == self.attachments,
            r.embeds == self.embeds,
            r.flags == self.flags,
            r.interactions == self.interactions,
            r.masquerade == self.masquerade,
    {
        let mut payload = self;
        let intent = MessageReplyIntent {
            id: String::from_str(message_id),
            mention,
            fail_if_not_exists: true,
        };
        payload.replies.push(intent);
        proof {
            assert(payload.replies@.drop_last() =~= self.replies@);
        }
        payload
    }
}

impl From<String> for MessageSend {
    fn from(content: String) -> MessageSend {
        MessageSend::from_content(content)
    }
}

impl vstd::std_specs::convert::FromSpecImpl<String> for MessageSend {
    open spec fn obeys_from_spec() -> bool {
        false
    }

    open spec fn from_spec(v: String) -> MessageSend {
        vstd::pervasive::arbitrary()
    }
}

impl From<&str> for MessageSend {
    fn from(content: &str) -> MessageSend {
        MessageSend::from_content(String::from_str(content))
    }
}

impl vstd::std_specs::convert::FromSpecImpl<&str> for MessageSend {
    open spec fn obeys_from_spec() -> bool {
        false
    }

    open spec fn from_spec(v: &str) -> MessageSend {
        vstd::pervasive::arbitrary()
    }
}

} // verus!
