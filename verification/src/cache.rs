//! The Redis commands that the server sends.

use vstd::prelude::*;
use vstd::string::*;
use crate::message::BroadcastMessage;
use crate::message::ChannelBroadcast;
use crate::message::MessageView;
use crate::models::ChannelView;
use crate::text::plus;

verus! {

/// How many messages of a channel are kept.
pub const HISTORY_LIMIT: i64 = 500;

/// A command to Redis.
#[derive(Debug)]
pub enum CacheCommand {
    /// Gives a key a number.
    SetNumber { key: &'static str, value: i64 },
    /// Lets a key vanish after some seconds.
    Expire { key: &'static str, seconds: i64 },
    /// Removes a key.
    Delete { key: &'static str },
    /// Puts a member into a set.
    AddMember { key: &'static str, member: String },
    /// Takes a member out of a set.
    RemoveMember { key: &'static str, member: String },
    /// Puts a message at the end of a list.
    Push { key: String, message: BroadcastMessage },
    /// Keeps of a list only the positions from `start` to `stop`.
    Trim { key: String, start: i64, stop: i64 },
    /// Sends a message to the subscribers of a topic.
    Publish { topic: String, message: BroadcastMessage },
    /// Sends the notice of a channel to the subscribers of a topic.
    PublishChannel { topic: &'static str, channel: ChannelBroadcast },
}

/// A command by what it holds.
pub enum CacheView {
    SetNumber { key: Seq<char>, value: i64 },
    Expire { key: Seq<char>, seconds: i64 },
    Delete { key: Seq<char> },
    AddMember { key: Seq<char>, member: Seq<char> },
    RemoveMember { key: Seq<char>, member: Seq<char> },
    Push { key: Seq<char>, message: MessageView },
    Trim { key: Seq<char>, start: i64, stop: i64 },
    Publish { topic: Seq<char>, message: MessageView },
    PublishChannel { topic: Seq<char>, channel: ChannelView },
}

impl DeepView for CacheCommand {
    type V = CacheView;

    open spec fn deep_view(&self) -> CacheView {
        match self {
            CacheCommand::SetNumber { key, value } => CacheView::SetNumber {
                key: key@,
                value: *value,
            },
            CacheCommand::Expire { key, seconds } => CacheView::Expire {
                key: key@,
                seconds: *seconds,
            },
            CacheCommand::Delete { key } => CacheView::Delete { key: key@ },
            CacheCommand::AddMember { key, member } => CacheView::AddMember {
                key: key@,
                member: member@,
            },
            CacheCommand::RemoveMember { key, member } => CacheView::RemoveMember {
                key: key@,
                member: member@,
            },
            CacheCommand::Push { key, message } => CacheView::Push {
                key: key@,
                message: message.deep_view(),
            },
            CacheCommand::Trim { key, start, stop } => CacheView::Trim {
                key: key@,
                start: *start,
                stop: *stop,
            },
            CacheCommand::Publish { topic, message } => CacheView::Publish {
                topic: topic@,
                message: message.deep_view(),
            },
            CacheCommand::PublishChannel { topic, channel } => CacheView::PublishChannel {
                topic: topic@,
                channel: channel.deep_view(),
            },
        }
    }
}

/// The key of the list that holds a channel's messages.
pub fn history_key(channel_id: &str) -> (r: String)
    ensures
        r@ == "chat_history:"@ + channel_id@,
{
    plus("chat_history:", channel_id)
}

/// The topic on which a channel's messages are sent.
pub fn channel_topic(channel_id: &str) -> (r: String)
    ensures
        r@ == "chat:"@ + channel_id@,
{
    plus("chat:", channel_id)
}

} // verus!
