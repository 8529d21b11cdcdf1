//! The messages that clients receive.

use vstd::prelude::*;
use crate::models::Channel;
use crate::models::ChannelView;

verus! {

/// A message for the members of a channel. The size of a file is held in bytes.
#[derive(Debug)]
pub struct BroadcastMessage {
    pub user: String,
    pub icon: String,
    pub content: String,
    pub timestamp: i64,
    pub channel_id: String,
    pub channel_name: String,
    pub channel_icon: String,
    pub message_type: String,
    pub file_name: Option<String>,
    pub file_extension: Option<String>,
    pub file_icon: Option<String>,
    pub file_size_bytes: Option<u64>,
    pub is_image: Option<bool>,
    pub image_preview: Option<String>,
    pub file_id: Option<String>,
    pub download_url: Option<String>,
    pub download_progress: Option<u8>,
}

/// What a message holds.
pub struct MessageView {
    pub user: Seq<char>,
    pub icon: Seq<char>,
    pub content: Seq<char>,
    pub timestamp: i64,
    pub channel_id: Seq<char>,
    pub channel_name: Seq<char>,
    pub channel_icon: Seq<char>,
    pub message_type: Seq<char>,
    pub file_name: Option<Seq<char>>,
    pub file_extension: Option<Seq<char>>,
    pub file_icon: Option<Seq<char>>,
    pub file_size_bytes: Option<u64>,
    pub is_image: Option<bool>,
    pub image_preview: Option<Seq<char>>,
    pub file_id: Option<Seq<char>>,
    pub download_url: Option<Seq<char>>,
    pub download_progress: Option<u8>,
}

impl DeepView for BroadcastMessage {
    type V = MessageView;

    open spec fn deep_view(&self) -> MessageView {
        MessageView {
            user: self.user@,
            icon: self.icon@,
            content: self.content@,
            timestamp: self.timestamp,
            channel_id: self.channel_id@,
            channel_name: self.channel_name@,
            channel_icon: self.channel_icon@,
            message_type: self.message_type@,
            file_name: self.file_name.deep_view(),
            file_extension: self.file_extension.deep_view(),
            file_icon: self.file_icon.deep_view(),
            file_size_bytes: self.file_size_bytes,
            is_image: self.is_image,
            image_preview: self.image_preview.deep_view(),
            file_id: self.file_id.deep_view(),
            download_url: self.download_url.deep_view(),
            download_progress: self.download_progress,
        }
    }
}

impl Clone for BroadcastMessage {
    fn clone(&self) -> (r: Self)
        ensures
            r.deep_view() == self.deep_view(),
    {
        BroadcastMessage {
            user: self.user.clone(),
            icon: self.icon.clone(),
            content: self.content.clone(),
            timestamp: self.timestamp,
            channel_id: self.channel_id.clone(),
            channel_name: self.channel_name.clone(),
            channel_icon: self.channel_icon.clone(),
            message_type: self.message_type.clone(),
            file_name: self.file_name.clone(),
            file_extension: self.file_extension.clone(),
            file_icon: self.file_icon.clone(),
            file_size_bytes: self.file_size_bytes,
            is_image: self.is_image,
            image_preview: self.image_preview.clone(),
            file_id: self.file_id.clone(),
            download_url: self.download_url.clone(),
            download_progress: self.download_progress,
        }
    }
}

/// The type of a message that does not name one.
pub fn default_message_type() -> (r: String)
    ensures
        r@ == "text"@,
{
    "text".to_string()
}

/// A message that carries text and no file.
pub open spec fn text_view(
    user: Seq<char>,
    icon: Seq<char>,
    content: Seq<char>,
    timestamp: i64,
    channel: ChannelView,
) -> MessageView {
    MessageView {
        user,
        icon,
        content,
        timestamp,
        channel_id: channel.id,
        channel_name: channel.name,
        channel_icon: channel.icon,
        message_type: "text"@,
        file_name: None,
        file_extension: None,
        file_icon: None,
        file_size_bytes: None,
        is_image: None,
        image_preview: None,
        file_id: None,
        download_url: None,
        download_progress: None,
    }
}

/// A message that carries text and no file.
pub fn text_message(
    user: String,
    icon: String,
    content: String,
    timestamp: i64,
    channel: &Channel,
) -> (r: BroadcastMessage)
    ensures
        r.deep_view() == text_view(user@, icon@, content@, timestamp, channel.deep_view()),
        r.user@ == user@,
        r.icon@ == icon@,
        r.content@ == content@,
        r.timestamp == timestamp,
        r.channel_id@ == channel.id@,
        r.channel_name@ == channel.name@,
        r.channel_icon@ == channel.icon@,
        r.message_type@ == "text"@,
{
    BroadcastMessage {
        user,
        icon,
        content,
        timestamp,
        channel_id: channel.id.clone(),
        channel_name: channel.name.clone(),
        channel_icon: channel.icon.clone(),
        message_type: default_message_type(),
        file_name: None,
        file_extension: None,
        file_icon: None,
        file_size_bytes: None,
        is_image: None,
        image_preview: None,
        file_id: None,
        download_url: None,
        download_progress: None,
    }
}

/// An answer of the server to one client.
#[derive(Debug)]
pub struct Reply {
    pub content: String,
    pub icon: &'static str,
    pub channel: Channel,
}

/// What an answer holds.
pub struct ReplyView {
    pub content: Seq<char>,
    pub icon: Seq<char>,
    pub channel: ChannelView,
}

impl DeepView for Reply {
    type V = ReplyView;

    open spec fn deep_view(&self) -> ReplyView {
        ReplyView { content: self.content@, icon: self.icon@, channel: self.channel.deep_view() }
    }
}

/// The message that brings an answer to its client, sent at `timestamp`.
pub fn server_reply(reply: &Reply, timestamp: i64) -> (r: BroadcastMessage)
    ensures
        r.deep_view() == text_view(
            "server"@,
            reply.icon@,
            reply.content@,
            timestamp,
            reply.channel.deep_view(),
        ),
        r.user@ == "server"@,
        r.icon@ == reply.icon@,
        r.content@ == reply.content@,
        r.timestamp == timestamp,
        r.channel_id@ == reply.channel.id@,
{
    text_message(
        "server".to_string(),
        reply.icon.to_string(),
        reply.content.clone(),
        timestamp,
        &reply.channel,
    )
}

/// The notice of a new channel.
#[derive(Debug)]
pub struct ChannelBroadcast {
    pub id: String,
    pub name: String,
    pub icon: String,
}

impl DeepView for ChannelBroadcast {
    type V = ChannelView;

    open spec fn deep_view(&self) -> ChannelView {
        ChannelView { id: self.id@, name: self.name@, icon: self.icon@ }
    }
}

} // verus!
