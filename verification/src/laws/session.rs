//! What becomes of a message that a user sends.

use vstd::prelude::*;
use crate::cache::CacheView;
use crate::commands::admin::admin_step;
use crate::commands::user::Chance;
use crate::commands::user::user_step;
use crate::effect::EffectView;
use crate::laws::texts::lemma_cut;
use crate::message::MessageView;
use crate::message::text_view;
use crate::models::ChannelBanInfo;
use crate::models::ChannelView;
use crate::models::UserView;
use crate::outside::accepted_at;
use crate::store::ChangeView;
use crate::text::trimmed;
use crate::token::claims_in;
use crate::token::decoded_at;
use crate::ws::Admission;
use crate::ws::AdmissionView;
use crate::ws::AwaitingBanView;
use crate::ws::AwaitingChannelView;
use crate::ws::BanTurnView;
use crate::ws::ChannelTurnView;
use crate::ws::ClientView;
use crate::ws::CommandCallView;
use crate::ws::CommandStepView;
use crate::ws::FrameView;
use crate::ws::ReceivedView;
use crate::ws::TaskView;
use crate::ws::admission;
use crate::ws::admission_at;
use crate::ws::authenticate;
use crate::ws::closing;
use crate::ws::opening;
use crate::ws::received;
use crate::ws::topics;

verus! {

/// Whether a message carries nothing but text.
pub open spec fn plain_text(m: MessageView) -> bool {
    &&& m.message_type == "text"@
    &&& m.file_name is None
    &&& m.file_extension is None
    &&& m.file_icon is None
    &&& m.file_size_bytes is None
    &&& m.is_image is None
    &&& m.image_preview is None
    &&& m.file_id is None
    &&& m.download_url is None
    &&& m.download_progress is None
}

/// Whether an effect answers the client with this text and icon, in this channel.
pub open spec fn says(
    effect: EffectView,
    content: Seq<char>,
    icon: Seq<char>,
    channel: ChannelView,
) -> bool {
    &&& effect is Reply
    &&& effect->Reply_0.content == content
    &&& effect->Reply_0.icon == icon
    &&& effect->Reply_0.channel == channel
}

/// A text message holds what it is made of, each part in its place and in full.
pub proof fn lemma_message_parts(
    user: Seq<char>,
    icon: Seq<char>,
    content: Seq<char>,
    timestamp: i64,
    channel: ChannelView,
)
    ensures
        ({
            let m = text_view(user, icon, content, timestamp, channel);
            &&& m.user == user
            &&& m.icon == icon
            &&& m.content == content
            &&& m.timestamp == timestamp
            &&& m.channel_id == channel.id
            &&& m.channel_name == channel.name
            &&& m.channel_icon == channel.icon
            &&& plain_text(m)
        }),
{
}

/// What a user who is neither silenced nor banned writes to a channel, and that is no command, comes
/// out as it was written while the meow mode is off: both the message that is stored and the one that
/// is published hold the text character for character, with the author's name and icon, the second
/// at which it came, and the channel. The oldest messages beyond 500 are dropped.
pub proof fn lemma_text_arrives(
    username: Seq<char>,
    user: UserView,
    now: i64,
    content: Seq<char>,
    channel_id: Seq<char>,
    channel: ChannelView,
    meow_mode: i64,
)
    requires
        !user.is_banned || user.is_super_admin,
        content.len() == 0 || content[0] != '/',
    ensures
        ({
            let waiting = AwaitingChannelView { username, user, now, content, channel_id };
            waiting.outcome(Some(channel)) matches ChannelTurnView::NeedBan(author)
                && author.outcome(None) matches BanTurnView::Admitted {
                effects: first,
                task: TaskView::Chat(chat),
            } && {
                let effects = chat.outcome(meow_mode);
                &&& first.len() == 0
                &&& effects.len() == 3
                &&& effects[0] matches EffectView::Cache(CacheView::Push { key, message: m }) && {
                    &&& key == "chat_history:"@ + channel.id
                    &&& meow_mode != 1 ==> m.content == content
                    &&& meow_mode == 1 ==> m.content == "meow"@
                    &&& m.user == username
                    &&& m.icon == user.icon
                    &&& m.timestamp == now
                    &&& m.channel_id == channel.id
                    &&& m.channel_name == channel.name
                    &&& m.channel_icon == channel.icon
                    &&& plain_text(m)
                }
                &&& effects[1] matches EffectView::Cache(CacheView::Trim { key, start, stop }) && key
                    == "chat_history:"@ + channel.id && start == -500 && stop == -1
                &&& effects[2] matches EffectView::Cache(CacheView::Publish { topic, message: m })
                    && {
                    &&& topic == "chat:"@ + channel.id
                    &&& meow_mode != 1 ==> m.content == content
                    &&& meow_mode == 1 ==> m.content == "meow"@
                    &&& m.user == username
                    &&& m.icon == user.icon
                    &&& m.timestamp == now
                    &&& m.channel_id == channel.id
                    &&& m.channel_name == channel.name
                    &&& m.channel_icon == channel.icon
                    &&& plain_text(m)
                }
            }
        }),
{
}

/// A text frame is a message: one that names a channel goes there with the content it names, and any
/// other goes to the channel `home` as it stands. Pings are answered with what they carry.
pub proof fn lemma_frames(
    text: Seq<char>,
    inner: Seq<char>,
    content: Seq<char>,
    id: Seq<char>,
    payload: Seq<u8>,
    username: Seq<char>,
    user: UserView,
    now: i64,
)
    ensures
        received(FrameView::Text { text, decoded: None }, username, user, now) matches
            ReceivedView::NeedChannel(w) && w.content == text && w.channel_id == "home"@
            && w.username == username && w.user == user && w.now == now,
        received(
            FrameView::Text { text, decoded: Some(ClientView::Text(inner)) },
            username,
            user,
            now,
        ) matches ReceivedView::NeedChannel(w) && w.content == inner && w.channel_id == "home"@
            && w.username == username && w.user == user && w.now == now,
        received(
            FrameView::Text {
                text,
                decoded: Some(ClientView::ChannelCommand { content, channel_id: id }),
            },
            username,
            user,
            now,
        ) matches ReceivedView::NeedChannel(w) && w.content == content && w.channel_id == id
            && w.username == username && w.user == user && w.now == now,
        received(FrameView::Ping(payload), username, user, now) == ReceivedView::Pong(payload),
        received(FrameView::Close, username, user, now) is Closed,
        received(FrameView::Other, username, user, now) is Ignored,
{
}

/// A message to a channel that does not exist is answered with the name it gave, and with nothing
/// else.
pub proof fn lemma_no_such_channel(waiting: AwaitingChannelView)
    ensures
        waiting.outcome(None) matches ChannelTurnView::Refused(effects) && {
            let reply = effects[0]->Reply_0;
            &&& effects.len() == 1
            &&& effects[0] is Reply
            &&& reply.content == "Channel '"@ + waiting.channel_id + "' not found."@
            &&& reply.icon == "🚫"@
            &&& reply.channel.id == waiting.channel_id
            &&& reply.channel.name == "Unknown Channel"@
            &&& reply.channel.icon == "🚫"@
        },
{
}

/// A banned user who is no super administrator is refused at every second: while muted with an answer
/// alone, and else with a mute of half an hour from now on. Nobody else is refused here.
pub proof fn lemma_banned_user(waiting: AwaitingChannelView, channel: ChannelView)
    ensures
        waiting.outcome(Some(channel)) is Refused <==> waiting.user.is_banned
            && !waiting.user.is_super_admin,
        waiting.outcome(Some(channel)) matches ChannelTurnView::NeedBan(next) ==> {
            &&& next.username == waiting.username
            &&& next.user == waiting.user
            &&& next.now == waiting.now
            &&& next.content == waiting.content
            &&& next.channel == channel
        },
        waiting.outcome(Some(channel)) matches ChannelTurnView::Refused(effects) ==> {
            let muted = match waiting.user.ban_mute_until {
                Some(until) => until > waiting.now,
                None => 0 > waiting.now,
            };
            &&& muted ==> effects.len() == 1 && says(
                effects[0],
                "You are currently globally banned and cannot send messages."@,
                "⛔"@,
                channel,
            )
            &&& !muted ==> effects.len() == 2 && says(
                effects[1],
                "User '"@ + waiting.username
                    + "' (globally banned) tried to send a message. Global mute extended."@,
                "⛔"@,
                channel,
            )
            &&& !muted && waiting.now <= 0x7fff_ffff_ffff_ffff - 30 * 60 ==> (effects[0] matches
                EffectView::Apply(ChangeView::MuteUser { username, until }) && username
                == waiting.username && until == waiting.now + 30 * 60)
        },
{
}

/// A ban from a channel refuses a message while it lasts: for good if its end is 0, and else before
/// its end. From then on the message is admitted as if there were none, once the ban is deleted and
/// its author is told.
pub proof fn lemma_channel_bans(waiting: AwaitingBanView, until: i64)
    ensures
        ({
            let banned = waiting.outcome(Some(ChannelBanInfo { ban_mute_until: Some(until) }));
            let free = waiting.outcome(None);
            &&& banned is Refused <==> until == 0 || waiting.now < until
            &&& banned matches BanTurnView::Refused(effects) ==> effects.len() == 1 && says(
                effects[0],
                "You are banned from this channel."@,
                "⛔"@,
                waiting.channel,
            )
            &&& banned matches BanTurnView::Admitted { effects, task } ==> {
                &&& effects.len() == 2
                &&& effects[0] matches EffectView::Apply(
                    ChangeView::DeleteChannelBan { channel_id, username },
                ) && channel_id == waiting.channel.id && username == waiting.username
                &&& says(
                    effects[1],
                    "Your ban in channel '"@ + waiting.channel.name + "' has expired."@,
                    "✅"@,
                    waiting.channel,
                )
                &&& free->task == task
            }
            &&& free is Admitted && free->effects.len() == 0
            &&& waiting.outcome(Some(ChannelBanInfo { ban_mute_until: None })) == free
        }),
{
}

/// A message that begins with a slash is a command, up to the first space; what is behind the space
/// are its arguments, without white space at the ends. It carries the author and the channel.
pub proof fn lemma_command_read(waiting: AwaitingBanView, name: Seq<char>, rest: Seq<char>)
    requires
        name.len() > 0,
        name[0] == '/',
        forall|i: int| 0 <= i < name.len() ==> #[trigger] name[i] != ' ',
        waiting.content == name || waiting.content == name + seq![' '] + rest,
    ensures
        waiting.outcome(None) matches BanTurnView::Admitted {
            effects,
            task: TaskView::Command(call),
        } && {
            &&& effects.len() == 0
            &&& call.command == name
            &&& waiting.content == name ==> call.args.len() == 0
            &&& waiting.content == name + seq![' '] + rest ==> call.args == trimmed(rest)
            &&& call.content == waiting.content
            &&& call.username == waiting.username
            &&& call.user == waiting.user
            &&& call.channel == waiting.channel
        },
{
    lemma_cut(name, ' ', rest);
    reveal_strlit("");
    assert(waiting.content[0] == name[0]);
    assert((name + seq![' '] + rest).len() > name.len());
}

/// A command that nobody knows, or that is for administrators when the user is none, is answered with
/// what the user wrote.
pub proof fn lemma_unknown_command(call: CommandCallView, chance: Chance, now: int)
    ensures
        call.step(chance, now) matches CommandStepView::Unknown(effects) ==> effects.len() == 1
            && says(
            effects[0],
            "Unknown command or insufficient permissions: '"@ + call.content
                + "'. Type /help for a list of commands."@,
            "💻"@,
            call.channel,
        ),
        call.step(chance, now) is Unknown <==> {
            let c = call.command;
            let for_all = c == "/help"@ || c == "/echo"@ || c == "/calc"@ || c == "/roll"@ || c
                == "/get_history"@ || c == "/propose_channel"@ || c == "/get_active_users"@;
            let for_admins = c == "/ban"@ || c == "/rm_admin"@ || c == "/meow_event"@ || c
                == "/stop_meow"@ || c == "/delete_channel"@ || c == "/list_proposals"@ || c
                == "/approve_channel"@ || c == "/reject_channel"@ || c == "/channel_ban"@ || c
                == "/channel_unban"@;
            !for_all && !(for_admins && (call.user.is_admin || call.user.is_super_admin))
        },
{
}

/// A connection hears what is published in each of its channels, and of new channels.
pub proof fn lemma_topics(channels: Seq<ChannelView>, i: int)
    requires
        0 <= i < channels.len(),
    ensures
        topics(channels).len() == channels.len() + 1,
        topics(channels)[i] == "chat:"@ + channels[i].id,
        topics(channels).last() == "channel_updates"@,
{
}

/// Whoever a valid token names is let in under that name, and nobody else. A user who connects becomes
/// active and ceases to be when the connection ends.
pub proof fn lemma_connection(username: Seq<char>)
    ensures
        admission(Some(username)) == (AdmissionView::Accepted { username }),
        admission(None) matches AdmissionView::Refused { code, reason } && code == 1008 && reason
            == "Invalid or expired token"@,
        opening(username).len() == 1,
        opening(username)[0] == EffectView::Cache(
            CacheView::AddMember { key: "active_users"@, member: username },
        ),
        closing(username).len() == 1,
        closing(username)[0] == EffectView::Cache(
            CacheView::RemoveMember { key: "active_users"@, member: username },
        ),
{
}

/// Without a token nobody is let in. With one, whoever it names is let in while it is accepted.
pub proof fn lemma_tokens_let_in(
    token: Seq<char>,
    secret: Seq<char>,
    now: u64,
    given: &str,
    r: Admission,
)
    requires
        call_ensures(authenticate, (None, given), r),
    ensures
        admission_at(None, secret, now) matches AdmissionView::Refused { code, reason } && code
            == 1008 && reason == "No token provided"@,
        r matches Admission::Refused { code, reason } && code == 1008 && reason@
            == "No token provided"@,
        match decoded_at(token, secret, now) {
            Some((Some(username), _)) => admission_at(Some(token), secret, now) == (
            AdmissionView::Accepted { username }),
            _ => admission_at(Some(token), secret, now) is Refused,
        },
        admission_at(Some(token), secret, now) matches AdmissionView::Refused { code, reason }
            ==> code == 1008 && reason == "Invalid or expired token"@,
{
    let first: Option<String> = None;
    assert(first.deep_view() == None::<Seq<char>>);
    let at = choose|at: u64|
        r.deep_view() == #[trigger] admission_at(first.deep_view(), given@, at);
}

/// Everyone's commands are carried out for everyone, and the administrators' for administrators, with
/// the name and the arguments that were given, for the user who gave them and in the channel they were
/// given in.
pub proof fn lemma_command_carried_out(call: CommandCallView, chance: Chance, now: int)
    ensures
        call.step(chance, now) matches CommandStepView::User(step) ==> step == user_step(
            call.command,
            call.args,
            call.channel,
            call.username,
            chance,
        ) && step !is NotHandled,
        call.step(chance, now) matches CommandStepView::Admin(step) ==> step == admin_step(
            call.command,
            call.args,
            call.channel,
            call.username,
            call.user.is_super_admin,
            now,
        ) && step !is NotHandled && (call.user.is_admin || call.user.is_super_admin),
        call.step(chance, now) is User <==> user_step(
            call.command,
            call.args,
            call.channel,
            call.username,
            chance,
        ) !is NotHandled,
{
}

/// Whoever is let in with a token is named in it, and the token is accepted at some second.
pub proof fn lemma_let_in_by_token(token: String, secret: &str, r: Admission)
    requires
        call_ensures(authenticate, (Some(token), secret), r),
    ensures
        r matches Admission::Accepted { username } ==> claims_in(token@).0 == Some(username@)
            && exists|now: u64| #[trigger] accepted_at(token@, secret@, now),
        r matches Admission::Refused { code, reason } ==> code == 1008 && reason@
            == "Invalid or expired token"@ && (claims_in(token@).0 is None || exists|now: u64|
            !#[trigger] accepted_at(token@, secret@, now)),
{
    assert(Some(token).deep_view() == Some(token@));
    let now = choose|now: u64|
        r.deep_view() == #[trigger] admission_at(Some(token@), secret@, now);
    assert(accepted_at(token@, secret@, now) || !accepted_at(token@, secret@, now));
}

} // verus!
