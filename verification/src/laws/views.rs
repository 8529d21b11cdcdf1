//! What the views of the records show: every part of a record, in its place and in full.

use vstd::prelude::*;
use crate::auth::TokenResponse;
use crate::cache::CacheCommand;
use crate::cache::CacheView;
use crate::chat::ChatPost;
use crate::commands::admin::AwaitingProposal;
use crate::commands::admin::AwaitingUser;
use crate::commands::admin::UserAction;
use crate::commands::admin::UserActionView;
use crate::commands::user::AwaitingArithmetic;
use crate::commands::user::AwaitingHistory;
use crate::effect::Effect;
use crate::effect::EffectView;
use crate::files::Upload;
use crate::message::BroadcastMessage;
use crate::message::ChannelBroadcast;
use crate::message::Reply;
use crate::models::Channel;
use crate::models::ChannelProposal;
use crate::models::User;
use crate::store::Change;
use crate::store::ChangeView;
use crate::store::SqlValue;
use crate::store::SqlView;
use crate::store::Statement;
use crate::utils::Calculation;
use crate::utils::Reading;
use crate::utils::ReadingView;
use crate::ws::AwaitingBan;
use crate::ws::AwaitingChannel;
use crate::ws::AwaitingMeow;
use crate::ws::ClientView;
use crate::ws::ClientWsMessage;
use crate::ws::CommandCall;

verus! {

/// Whether an optional text is shown as it is.
pub open spec fn shown(text: Option<String>, view: Option<Seq<char>>) -> bool {
    &&& text is Some <==> view is Some
    &&& text is Some ==> text->0@ == view->0
}

/// The view of a message shows each of its fields.
pub proof fn lemma_message_shown(m: BroadcastMessage)
    ensures
        ({
            let v = m.deep_view();
            &&& v.user == m.user@
            &&& v.icon == m.icon@
            &&& v.content == m.content@
            &&& v.timestamp == m.timestamp
            &&& v.channel_id == m.channel_id@
            &&& v.channel_name == m.channel_name@
            &&& v.channel_icon == m.channel_icon@
            &&& v.message_type == m.message_type@
            &&& shown(m.file_name, v.file_name)
            &&& shown(m.file_extension, v.file_extension)
            &&& shown(m.file_icon, v.file_icon)
            &&& v.file_size_bytes == m.file_size_bytes
            &&& v.is_image == m.is_image
            &&& shown(m.image_preview, v.image_preview)
            &&& shown(m.file_id, v.file_id)
            &&& shown(m.download_url, v.download_url)
            &&& v.download_progress == m.download_progress
        }),
{
}

/// The views of channels, accounts, proposals and answers show each of their fields.
pub proof fn lemma_records_shown(
    channel: Channel,
    notice: ChannelBroadcast,
    user: User,
    p: ChannelProposal,
    reply: Reply,
)
    ensures
        channel.deep_view().id == channel.id@,
        channel.deep_view().name == channel.name@,
        channel.deep_view().icon == channel.icon@,
        notice.deep_view().id == notice.id@,
        notice.deep_view().name == notice.name@,
        notice.deep_view().icon == notice.icon@,
        user.deep_view().id == user.id,
        user.deep_view().username == user.username@,
        user.deep_view().icon == user.icon@,
        user.deep_view().password_hash == user.password_hash@,
        user.deep_view().is_admin == user.is_admin,
        user.deep_view().is_super_admin == user.is_super_admin,
        user.deep_view().is_banned == user.is_banned,
        user.deep_view().ban_mute_until == user.ban_mute_until,
        p.deep_view().id == p.id@,
        p.deep_view().name == p.name@,
        p.deep_view().icon == p.icon@,
        p.deep_view().proposer_username == p.proposer_username@,
        p.deep_view().status == p.status@,
        p.deep_view().timestamp == p.timestamp,
        reply.deep_view().content == reply.content@,
        reply.deep_view().icon == reply.icon@,
        reply.deep_view().channel.id == reply.channel.id@,
        reply.deep_view().channel.name == reply.channel.name@,
        reply.deep_view().channel.icon == reply.channel.icon@,
{
}

/// The view of an effect is of the same kind and shows what it holds.
pub proof fn lemma_effects_shown(
    change: Change,
    command: CacheCommand,
    reply: Reply,
    text: String,
)
    ensures
        Effect::Apply(change).deep_view() == EffectView::Apply(change.deep_view()),
        Effect::Cache(command).deep_view() == EffectView::Cache(command.deep_view()),
        Effect::Reply(reply).deep_view() == EffectView::Reply(reply.deep_view()),
        Effect::SendText(text).deep_view() == EffectView::SendText(text@),
{
}

/// The view of a command to Redis is of the same kind and shows what it holds.
pub proof fn lemma_cache_shown(
    name: &'static str,
    key: String,
    n: i64,
    stop: i64,
    message: BroadcastMessage,
    channel: ChannelBroadcast,
)
    ensures
        (CacheCommand::SetNumber { key: name, value: n }).deep_view() == (CacheView::SetNumber {
            key: name@,
            value: n,
        }),
        (CacheCommand::Expire { key: name, seconds: n }).deep_view() == (CacheView::Expire {
            key: name@,
            seconds: n,
        }),
        (CacheCommand::Delete { key: name }).deep_view() == (CacheView::Delete { key: name@ }),
        (CacheCommand::AddMember { key: name, member: key }).deep_view() == (CacheView::AddMember {
            key: name@,
            member: key@,
        }),
        (CacheCommand::RemoveMember { key: name, member: key }).deep_view() == (
        CacheView::RemoveMember { key: name@, member: key@ }),
        (CacheCommand::Push { key, message }).deep_view() == (CacheView::Push {
            key: key@,
            message: message.deep_view(),
        }),
        (CacheCommand::Trim { key, start: n, stop }).deep_view() == (CacheView::Trim {
            key: key@,
            start: n,
            stop,
        }),
        (CacheCommand::Publish { topic: key, message }).deep_view() == (CacheView::Publish {
            topic: key@,
            message: message.deep_view(),
        }),
        (CacheCommand::PublishChannel { topic: name, channel }).deep_view() == (
        CacheView::PublishChannel { topic: name@, channel: channel.deep_view() }),
{
}

/// The view of a change is of the same kind and shows what it holds.
pub proof fn lemma_changes_shown(
    name: String,
    id: String,
    until: i64,
    channel: Channel,
    p: ChannelProposal,
)
    ensures
        (Change::BanUser { username: name }).deep_view() == (ChangeView::BanUser { username: name@ }),
        (Change::RemoveAdmin { username: name }).deep_view() == (ChangeView::RemoveAdmin {
            username: name@,
        }),
        (Change::MuteUser { username: name, until }).deep_view() == (ChangeView::MuteUser {
            username: name@,
            until,
        }),
        Change::AddChannel(channel).deep_view() == ChangeView::AddChannel(channel.deep_view()),
        (Change::DeleteChannel { channel_id: id }).deep_view() == (ChangeView::DeleteChannel {
            channel_id: id@,
        }),
        (Change::DeleteChannelBans { channel_id: id }).deep_view() == (
        ChangeView::DeleteChannelBans { channel_id: id@ }),
        Change::AddProposal(p).deep_view() == ChangeView::AddProposal(p.deep_view()),
        (Change::ApproveProposal { id }).deep_view() == (ChangeView::ApproveProposal { id: id@ }),
        (Change::RejectProposal { id }).deep_view() == (ChangeView::RejectProposal { id: id@ }),
        (Change::PutChannelBan { channel_id: id, username: name, until }).deep_view() == (
        ChangeView::PutChannelBan { channel_id: id@, username: name@, until }),
        (Change::DeleteChannelBan { channel_id: id, username: name }).deep_view() == (
        ChangeView::DeleteChannelBan { channel_id: id@, username: name@ }),
{
}

/// The views of statements and of the values that they bind show them as they are.
pub proof fn lemma_statements_shown(r: Statement, i: int, text: String, n: i64, id: u128)
    requires
        0 <= i < r.values@.len(),
    ensures
        r.deep_view().sql == r.sql@,
        r.deep_view().values.len() == r.values@.len(),
        r.deep_view().values[i] == r.values@[i].deep_view(),
        SqlValue::Text(text).deep_view() == SqlView::Text(text@),
        SqlValue::Integer(n).deep_view() == SqlView::Integer(n),
        SqlValue::Identifier(id).deep_view() == SqlView::Identifier(id),
        SqlValue::Null.deep_view() == SqlView::Null,
{
}

/// The views of what waits show each part of it.
pub proof fn lemma_waiting_shown(
    message: AwaitingChannel,
    author: AwaitingBan,
    chat: AwaitingMeow,
    call: CommandCall,
    target: AwaitingUser,
    decision: AwaitingProposal,
    page: AwaitingHistory,
    sum: AwaitingArithmetic,
)
    ensures
        ({
            let v = message.deep_view();
            v.username == message.username@ && v.user == message.user.deep_view() && v.now
                == message.now && v.content == message.content@ && v.channel_id
                == message.channel_id@
        }),
        ({
            let v = author.deep_view();
            v.username == author.username@ && v.user == author.user.deep_view() && v.now
                == author.now && v.content == author.content@ && v.channel
                == author.channel.deep_view()
        }),
        ({
            let v = chat.deep_view();
            v.username == chat.username@ && v.icon == chat.icon@ && v.now == chat.now && v.content
                == chat.content@ && v.channel == chat.channel.deep_view()
        }),
        ({
            let v = call.deep_view();
            v.command == call.command@ && v.args == call.args@ && v.content == call.content@
                && v.username == call.username@ && v.user == call.user.deep_view() && v.channel
                == call.channel.deep_view()
        }),
        ({
            let v = target.deep_view();
            v.target == target.target@ && v.action == target.action.deep_view() && v.channel
                == target.channel.deep_view()
        }),
        ({
            let v = decision.deep_view();
            v.id == decision.id@ && v.approve == decision.approve && v.channel
                == decision.channel.deep_view()
        }),
        ({
            let v = page.deep_view();
            v.channel_id == page.channel_id@ && v.key == page.key@ && v.offset == page.offset
                && v.start == page.start && v.stop == page.stop
        }),
        ({
            let v = sum.deep_view();
            v.expression == sum.expression@ && v.channel == sum.channel.deep_view()
        }),
{
}

/// The views of actions on users, of client messages and of calculations show what they hold.
pub proof fn lemma_parts_shown(
    text: String,
    id: String,
    minutes: Option<i64>,
    until: i64,
    c: Calculation,
    zero: bool,
)
    ensures
        (UserAction::Ban { admin: text }).deep_view() == (UserActionView::Ban { admin: text@ }),
        UserAction::RemoveAdmin.deep_view() == UserActionView::RemoveAdmin,
        (UserAction::ChannelBan { minutes, until }).deep_view() == (UserActionView::ChannelBan {
            minutes,
            until,
        }),
        ClientWsMessage::Text(text).deep_view() == ClientView::Text(text@),
        (ClientWsMessage::ChannelCommand { content: text, channel_id: id }).deep_view() == (
        ClientView::ChannelCommand { content: text@, channel_id: id@ }),
        c.deep_view().op == c.op,
        c.deep_view().left == c.left@,
        c.deep_view().right == c.right@,
        Reading::NotNumbers.deep_view() == ReadingView::NotNumbers,
        (Reading::Numbers { right_is_zero: zero, result: text }).deep_view() == (
        ReadingView::Numbers { right_is_zero: zero, result: text@ }),
{
}

/// The views of uploads, posts and tokens show each of their fields.
pub proof fn lemma_answers_shown(upload: Upload, post: ChatPost, token: TokenResponse)
    ensures
        upload.deep_view().file_id == upload.file_id@,
        upload.deep_view().original_name == upload.original_name@,
        shown(upload.extension, upload.deep_view().extension),
        upload.deep_view().size == upload.size,
        post.deep_view().topic == post.topic@,
        post.deep_view().user == post.user@,
        post.deep_view().content == post.content@,
        post.deep_view().timestamp == post.timestamp,
        token.deep_view().token == token.token@,
        token.deep_view().icon == token.icon@,
{
}

} // verus!
