//! The life of a WebSocket connection: who is let in, and what becomes of each message.

use vstd::prelude::*;
use vstd::string::*;
use crate::auth::is_token_made;
use crate::auth::lemma_token_lives;
use crate::auth::TOKEN_SECONDS;
use crate::cache::channel_topic;
use crate::cache::history_key;
use crate::cache::CacheCommand;
use crate::cache::CacheView;
use crate::cache::HISTORY_LIMIT;
use crate::commands::admin::admin_step;
use crate::commands::admin::handle_admin_command;
use crate::commands::admin::AdminStep;
use crate::commands::admin::AdminStepView;
use crate::commands::user::handle_user_command;
use crate::commands::user::user_step;
use crate::commands::user::Chance;
use crate::commands::user::UserStep;
use crate::commands::user::UserStepView;
use crate::data_access::channel_ban_query;
use crate::data_access::channel_query;
use crate::data_access::get_channel_ban_info;
use crate::data_access::get_channel_info;
use crate::effect::answer;
use crate::effect::one;
use crate::effect::reply;
use crate::effect::three;
use crate::effect::two;
use crate::effect::Effect;
use crate::effect::EffectView;
use crate::message::text_message;
use crate::message::text_view;
use crate::models::Channel;
use crate::models::ChannelBanInfo;
use crate::models::ChannelView;
use crate::models::User;
use crate::models::UserView;
use crate::outside::clock_seconds;
use crate::outside::DecodedClaims;
use crate::outside::LATEST_SECOND;
use crate::store::Change;
use crate::store::ChangeView;
use crate::store::Statement;
use crate::text::part;
use crate::text::parted;
use crate::text::plus;
use crate::text::trim;
use crate::text::trimmed;
use crate::token::decode_token;
use crate::token::decoded_at;
use crate::token::LEEWAY_SECONDS;

verus! {

/// The code with which a connection is closed that breaks the rules.
pub const POLICY_CLOSE: u16 = 1008;

/// The seconds by which a banned user who keeps talking is muted.
pub const MUTE_SECONDS: i64 = 1800;

/// Whether a connection is let in.
#[derive(Debug)]
pub enum Admission {
    /// The connection belongs to this user.
    Accepted { username: String },
    /// The connection is closed.
    Refused { code: u16, reason: &'static str },
}

/// What an admission holds.
pub enum AdmissionView {
    Accepted { username: Seq<char> },
    Refused { code: u16, reason: Seq<char> },
}

impl DeepView for Admission {
    type V = AdmissionView;

    open spec fn deep_view(&self) -> AdmissionView {
        match self {
            Admission::Accepted { username } => AdmissionView::Accepted { username: username@ },
            Admission::Refused { code, reason } => AdmissionView::Refused {
                code: *code,
                reason: reason@,
            },
        }
    }
}

/// Lets in the user whom a token names, given what the token claims if it was accepted.
pub open spec fn admission(subject: Option<Seq<char>>) -> AdmissionView {
    match subject {
        Some(username) => AdmissionView::Accepted { username },
        None => AdmissionView::Refused {
            code: POLICY_CLOSE,
            reason: "Invalid or expired token"@,
        },
    }
}

/// The user whom an accepted token names.
pub open spec fn named_user(claims: Option<(Option<Seq<char>>, Option<u64>)>) -> Option<
    Seq<char>,
> {
    match claims {
        Some(c) => c.0,
        None => None,
    }
}

/// Lets in the user whom an accepted token names.
pub fn let_in(claims: Option<DecodedClaims>) -> (r: Admission)
    ensures
        r.deep_view() == admission(named_user(claims.deep_view())),
{
    match claims {
        Some(DecodedClaims { sub: Some(username), exp: _ }) => Admission::Accepted { username },
        _ => Admission::Refused { code: POLICY_CLOSE, reason: "Invalid or expired token" },
    }
}

/// What becomes of a connection at second `now`, by the text that its first message brings, if it
/// brings one.
pub open spec fn admission_at(
    first: Option<Seq<char>>,
    jwt_secret: Seq<char>,
    now: u64,
) -> AdmissionView {
    match first {
        None => AdmissionView::Refused { code: POLICY_CLOSE, reason: "No token provided"@ },
        Some(token) => admission(named_user(decoded_at(token, jwt_secret, now))),
    }
}

/// Decides on a connection by the text that its first message brings, if it brings one.
pub fn authenticate(first: Option<String>, jwt_secret: &str) -> (r: Admission)
    ensures
        exists|now: u64|
            r.deep_view() == #[trigger] admission_at(first.deep_view(), jwt_secret@, now),
{
    let ghost seen = first.deep_view();
    match first {
        None => {
            let r = Admission::Refused { code: POLICY_CLOSE, reason: "No token provided" };
            assert(r.deep_view() == admission_at(seen, jwt_secret@, 0));
            r
        },
        Some(token) => {
            let r = let_in(decode_token(token.as_str(), jwt_secret));
            proof {
                let now = choose|now: u64|
                    r.deep_view() == admission(
                        named_user(#[trigger] decoded_at(token@, jwt_secret@, now)),
                    );
                assert(r.deep_view() == admission_at(seen, jwt_secret@, now));
            }
            r
        },
    }
}

/// A connection that brings a token made for a user is let in as that user's while the token lives.
pub proof fn lemma_token_lets_in(
    token: Seq<char>,
    username: Seq<char>,
    secret: Seq<char>,
    made: int,
    now: u64,
)
    requires
        is_token_made(token, username, secret, made),
        0 <= made,
        made + TOKEN_SECONDS <= usize::MAX,
        LEEWAY_SECONDS <= now <= made + TOKEN_SECONDS + LEEWAY_SECONDS,
    ensures
        admission_at(Some(token), secret, now) == (AdmissionView::Accepted { username }),
{
    lemma_token_lives(token, username, secret, made, now);
}

/// The list of the channels, which a client gets first.
#[derive(Debug)]
pub struct ChannelList {
    pub channels: Vec<Channel>,
}

/// The message that a client gets first: the list of all channels, in order and each once.
pub fn channel_list(channels: Vec<Channel>) -> (r: ChannelList)
    ensures
        r.channels.deep_view() == channels.deep_view(),
{
    ChannelList { channels }
}

/// What a client gets of something that was published on one of its topics: the same text.
pub fn forward(payload: String) -> (r: Effect)
    ensures
        r.deep_view() == EffectView::SendText(payload@),
{
    Effect::SendText(payload)
}

/// What is done when a user's connection opens.
pub open spec fn opening(username: Seq<char>) -> Seq<EffectView> {
    seq![
        EffectView::Cache(CacheView::AddMember { key: "active_users"@, member: username }),
    ]
}

/// What is done when a user's connection has closed.
pub open spec fn closing(username: Seq<char>) -> Seq<EffectView> {
    seq![
        EffectView::Cache(CacheView::RemoveMember { key: "active_users"@, member: username }),
    ]
}

/// What is done when a user's connection opens.
pub fn on_open(username: &str) -> (r: Vec<Effect>)
    ensures
        r.deep_view() == opening(username@),
{
    one(
        Effect::Cache(
            CacheCommand::AddMember { key: "active_users", member: username.to_string() },
        ),
    )
}

/// What is done when a user's connection has closed.
pub fn on_close(username: &str) -> (r: Vec<Effect>)
    ensures
        r.deep_view() == closing(username@),
{
    one(
        Effect::Cache(
            CacheCommand::RemoveMember { key: "active_users", member: username.to_string() },
        ),
    )
}

/// The topics that a connection listens to: one for each channel, and one for new channels.
pub open spec fn topics(channels: Seq<ChannelView>) -> Seq<Seq<char>> {
    channels.map_values(|c: ChannelView| "chat:"@ + c.id).push("channel_updates"@)
}

/// The topics that a connection listens to.
pub fn subscriptions(channels: &Vec<Channel>) -> (r: Vec<String>)
    ensures
        r.deep_view() == topics(channels.deep_view()),
{
    let mut r: Vec<String> = Vec::new();
    let mut i: usize = 0;
    while i < channels.len()
        invariant
            i <= channels@.len(),
            r@.len() == i,
            forall|j: int| 0 <= j < i ==> #[trigger] r@[j]@ == "chat:"@ + channels@[j].id@,
        decreases channels@.len() - i,
    {
        r.push(channel_topic(channels[i].id.as_str()));
        i += 1;
    }
    r.push("channel_updates".to_string());
    assert(r.deep_view() =~= topics(channels.deep_view()));
    r
}

/// What a client says.
#[derive(Debug)]
pub enum ClientWsMessage {
    Text(String),
    ChannelCommand { content: String, channel_id: String },
}

/// What a client's message holds.
pub enum ClientView {
    Text(Seq<char>),
    ChannelCommand { content: Seq<char>, channel_id: Seq<char> },
}

impl DeepView for ClientWsMessage {
    type V = ClientView;

    open spec fn deep_view(&self) -> ClientView {
        match self {
            ClientWsMessage::Text(text) => ClientView::Text(text@),
            ClientWsMessage::ChannelCommand { content, channel_id } => ClientView::ChannelCommand {
                content: content@,
                channel_id: channel_id@,
            },
        }
    }
}

impl Clone for ClientWsMessage {
    fn clone(&self) -> (r: Self)
        ensures
            r.deep_view() == self.deep_view(),
    {
        match self {
            ClientWsMessage::Text(text) => ClientWsMessage::Text(text.clone()),
            ClientWsMessage::ChannelCommand { content, channel_id } =>
                ClientWsMessage::ChannelCommand {
                content: content.clone(),
                channel_id: channel_id.clone(),
            },
        }
    }
}

impl ClientView {
    /// The content, and the channel that it is for: plain text is for `home`.
    pub open spec fn destination(self) -> (Seq<char>, Seq<char>) {
        match self {
            ClientView::Text(text) => (text, "home"@),
            ClientView::ChannelCommand { content, channel_id } => (content, channel_id),
        }
    }
}

/// A frame from the client. A text frame comes with the message that it encodes, if it encodes one.
#[derive(Debug)]
pub enum Frame {
    Text { text: String, decoded: Option<ClientWsMessage> },
    Ping(Vec<u8>),
    Close,
    Other,
}

/// What a frame holds.
pub enum FrameView {
    Text { text: Seq<char>, decoded: Option<ClientView> },
    Ping(Seq<u8>),
    Close,
    Other,
}

impl DeepView for Frame {
    type V = FrameView;

    open spec fn deep_view(&self) -> FrameView {
        match self {
            Frame::Text { text, decoded } => FrameView::Text {
                text: text@,
                decoded: decoded.deep_view(),
            },
            Frame::Ping(payload) => FrameView::Ping(payload@),
            Frame::Close => FrameView::Close,
            Frame::Other => FrameView::Other,
        }
    }
}

/// A message that waits for its channel.
#[derive(Debug)]
pub struct AwaitingChannel {
    pub username: String,
    pub user: User,
    pub now: i64,
    pub content: String,
    pub channel_id: String,
}

/// What a message that waits for its channel holds.
pub struct AwaitingChannelView {
    pub username: Seq<char>,
    pub user: UserView,
    pub now: i64,
    pub content: Seq<char>,
    pub channel_id: Seq<char>,
}

impl DeepView for AwaitingChannel {
    type V = AwaitingChannelView;

    open spec fn deep_view(&self) -> AwaitingChannelView {
        AwaitingChannelView {
            username: self.username@,
            user: self.user.deep_view(),
            now: self.now,
            content: self.content@,
            channel_id: self.channel_id@,
        }
    }
}

/// What becomes of a frame.
#[derive(Debug)]
pub enum Received {
    /// A message: its channel is needed.
    NeedChannel(AwaitingChannel),
    /// A pong with this payload is sent.
    Pong(Vec<u8>),
    /// The connection ends.
    Closed,
    /// Nothing.
    Ignored,
}

/// What a received frame holds.
pub enum ReceivedView {
    NeedChannel(AwaitingChannelView),
    Pong(Seq<u8>),
    Closed,
    Ignored,
}

impl DeepView for Received {
    type V = ReceivedView;

    open spec fn deep_view(&self) -> ReceivedView {
        match self {
            Received::NeedChannel(waiting) => ReceivedView::NeedChannel(waiting.deep_view()),
            Received::Pong(payload) => ReceivedView::Pong(payload@),
            Received::Closed => ReceivedView::Closed,
            Received::Ignored => ReceivedView::Ignored,
        }
    }
}

/// The message of a text frame: what the text encodes, or else the text itself.
pub open spec fn client_message(text: Seq<char>, decoded: Option<ClientView>) -> ClientView {
    match decoded {
        Some(message) => message,
        None => ClientView::Text(text),
    }
}

/// What becomes of a frame that a user sends at second `now`.
pub open spec fn received(
    frame: FrameView,
    username: Seq<char>,
    user: UserView,
    now: i64,
) -> ReceivedView {
    match frame {
        FrameView::Text { text, decoded } => {
            let (content, channel_id) = client_message(text, decoded).destination();
            ReceivedView::NeedChannel(
                AwaitingChannelView { username, user, now, content, channel_id },
            )
        },
        FrameView::Ping(payload) => ReceivedView::Pong(payload),
        FrameView::Close => ReceivedView::Closed,
        FrameView::Other => ReceivedView::Ignored,
    }
}

/// The second on the clock.
pub fn current_second() -> (r: i64)
    ensures
        0 <= r <= LATEST_SECOND,
{
    clock_seconds()
}

/// Takes a frame that a user sends at second `now`.
pub fn receive(frame: Frame, username: &str, user: User, now: i64) -> (r: Received)
    ensures
        r.deep_view() == received(frame.deep_view(), username@, user.deep_view(), now),
{
    match frame {
        Frame::Text { text, decoded } => {
            let message = match decoded {
                Some(message) => message,
                None => ClientWsMessage::Text(text),
            };
            let (content, channel_id) = match message {
                ClientWsMessage::Text(content) => (content, "home".to_string()),
                ClientWsMessage::ChannelCommand { content, channel_id } => (content, channel_id),
            };
            Received::NeedChannel(
                AwaitingChannel {
                    username: username.to_string(),
                    user,
                    now,
                    content,
                    channel_id,
                },
            )
        },
        Frame::Ping(payload) => Received::Pong(payload),
        Frame::Close => Received::Closed,
        Frame::Other => Received::Ignored,
    }
}

/// A message that waits for its author's ban from its channel.
#[derive(Debug)]
pub struct AwaitingBan {
    pub username: String,
    pub user: User,
    pub now: i64,
    pub content: String,
    pub channel: Channel,
}

/// What a message that waits for a ban holds.
pub struct AwaitingBanView {
    pub username: Seq<char>,
    pub user: UserView,
    pub now: i64,
    pub content: Seq<char>,
    pub channel: ChannelView,
}

impl DeepView for AwaitingBan {
    type V = AwaitingBanView;

    open spec fn deep_view(&self) -> AwaitingBanView {
        AwaitingBanView {
            username: self.username@,
            user: self.user.deep_view(),
            now: self.now,
            content: self.content@,
            channel: self.channel.deep_view(),
        }
    }
}

/// What becomes of a message once its channel is known.
#[derive(Debug)]
pub enum ChannelTurn {
    /// The message is dropped, once these effects are done.
    Refused(Vec<Effect>),
    /// The author's ban from the channel is needed.
    NeedBan(AwaitingBan),
}

/// What a turn holds.
pub enum ChannelTurnView {
    Refused(Seq<EffectView>),
    NeedBan(AwaitingBanView),
}

impl DeepView for ChannelTurn {
    type V = ChannelTurnView;

    open spec fn deep_view(&self) -> ChannelTurnView {
        match self {
            ChannelTurn::Refused(effects) => ChannelTurnView::Refused(effects.deep_view()),
            ChannelTurn::NeedBan(waiting) => ChannelTurnView::NeedBan(waiting.deep_view()),
        }
    }
}

impl UserView {
    /// Whether the user is banned from the whole server. Super administrators are not.
    pub open spec fn is_silenced(self) -> bool {
        self.is_banned && !self.is_super_admin
    }

    /// The second until which the user is muted.
    pub open spec fn muted_until(self) -> int {
        match self.ban_mute_until {
            Some(until) => until as int,
            None => 0,
        }
    }
}

impl AwaitingChannelView {
    /// What becomes of the message once it is known whether its channel exists. A banned user is
    /// refused, and muted anew where the mute has ended.
    pub open spec fn outcome(self, info: Option<ChannelView>) -> ChannelTurnView {
        match info {
            None => ChannelTurnView::Refused(
                seq![
                    answer(
                        "Channel '"@ + self.channel_id + "' not found."@,
                        "🚫"@,
                        ChannelView {
                            id: self.channel_id,
                            name: "Unknown Channel"@,
                            icon: "🚫"@,
                        },
                    ),
                ],
            ),
            Some(channel) => if !self.user.is_silenced() {
                ChannelTurnView::NeedBan(
                    AwaitingBanView {
                        username: self.username,
                        user: self.user,
                        now: self.now,
                        content: self.content,
                        channel,
                    },
                )
            } else if self.user.muted_until() > self.now {
                ChannelTurnView::Refused(
                    seq![
                        answer(
                            "You are currently globally banned and cannot send messages."@,
                            "⛔"@,
                            channel,
                        ),
                    ],
                )
            } else {
                ChannelTurnView::Refused(
                    seq![
                        EffectView::Apply(
                            ChangeView::MuteUser {
                                username: self.username,
                                until: (self.now + MUTE_SECONDS) as i64,
                            },
                        ),
                        answer(
                            "User '"@ + self.username
                                + "' (globally banned) tried to send a message. Global mute extended."@,
                            "⛔"@,
                            channel,
                        ),
                    ],
                )
            },
        }
    }
}

impl AwaitingChannel {
    /// The look-up of the channel.
    pub fn query(&self) -> (r: Statement)
        ensures
            r.deep_view() == channel_query(self.channel_id@),
    {
        get_channel_info(self.channel_id.as_str())
    }

    /// Goes on once it is known whether the channel exists.
    pub fn resume(self, info: Option<Channel>) -> (r: ChannelTurn)
        requires
            self.now <= i64::MAX - MUTE_SECONDS,
        ensures
            r.deep_view() == self.deep_view().outcome(info.deep_view()),
    {
        let channel: Channel = match info {
            Some(channel) => channel,
            None => {
                let mut text = plus("Channel '", self.channel_id.as_str());
                text.append("' not found.");
                let unknown = Channel {
                    id: self.channel_id,
                    name: "Unknown Channel".to_string(),
                    icon: "🚫".to_string(),
                };
                return ChannelTurn::Refused(one(reply(text, "🚫", &unknown)));
            },
        };
        if !self.user.is_banned || self.user.is_super_admin {
            return ChannelTurn::NeedBan(
                AwaitingBan {
                    username: self.username,
                    user: self.user,
                    now: self.now,
                    content: self.content,
                    channel,
                },
            );
        }
        let muted_until: i64 = match self.user.ban_mute_until {
            Some(until) => until,
            None => 0,
        };
        if muted_until > self.now {
            return ChannelTurn::Refused(
                one(
                    reply(
                        "You are currently globally banned and cannot send messages.".to_string(),
                        "⛔",
                        &channel,
                    ),
                ),
            );
        }
        let mut text = plus("User '", self.username.as_str());
        text.append("' (globally banned) tried to send a message. Global mute extended.");
        ChannelTurn::Refused(
            two(
                Effect::Apply(
                    Change::MuteUser { username: self.username, until: self.now + MUTE_SECONDS },
                ),
                reply(text, "⛔", &channel),
            ),
        )
    }
}

/// A command that is to be carried out.
#[derive(Debug)]
pub struct CommandCall {
    pub command: String,
    pub args: String,
    pub content: String,
    pub username: String,
    pub user: User,
    pub channel: Channel,
}

/// What a command holds.
pub struct CommandCallView {
    pub command: Seq<char>,
    pub args: Seq<char>,
    pub content: Seq<char>,
    pub username: Seq<char>,
    pub user: UserView,
    pub channel: ChannelView,
}

impl DeepView for CommandCall {
    type V = CommandCallView;

    open spec fn deep_view(&self) -> CommandCallView {
        CommandCallView {
            command: self.command@,
            args: self.args@,
            content: self.content@,
            username: self.username@,
            user: self.user.deep_view(),
            channel: self.channel.deep_view(),
        }
    }
}

/// A message that waits for the number under `meow_mode`.
#[derive(Debug)]
pub struct AwaitingMeow {
    pub username: String,
    pub icon: String,
    pub now: i64,
    pub content: String,
    pub channel: Channel,
}

/// What a message that waits for the meow mode holds.
pub struct AwaitingMeowView {
    pub username: Seq<char>,
    pub icon: Seq<char>,
    pub now: i64,
    pub content: Seq<char>,
    pub channel: ChannelView,
}

impl DeepView for AwaitingMeow {
    type V = AwaitingMeowView;

    open spec fn deep_view(&self) -> AwaitingMeowView {
        AwaitingMeowView {
            username: self.username@,
            icon: self.icon@,
            now: self.now,
            content: self.content@,
            channel: self.channel.deep_view(),
        }
    }
}

/// What an admitted message asks for.
#[derive(Debug)]
pub enum Task {
    /// It is a command.
    Command(CommandCall),
    /// It is for the channel.
    Chat(AwaitingMeow),
}

/// What a task holds.
pub enum TaskView {
    Command(CommandCallView),
    Chat(AwaitingMeowView),
}

impl DeepView for Task {
    type V = TaskView;

    open spec fn deep_view(&self) -> TaskView {
        match self {
            Task::Command(call) => TaskView::Command(call.deep_view()),
            Task::Chat(waiting) => TaskView::Chat(waiting.deep_view()),
        }
    }
}

/// What becomes of a message once its author's ban is known.
#[derive(Debug)]
pub enum BanTurn {
    /// The message is dropped, once these effects are done.
    Refused(Vec<Effect>),
    /// The message is admitted, once these effects are done.
    Admitted { effects: Vec<Effect>, task: Task },
}

/// What a turn holds.
pub enum BanTurnView {
    Refused(Seq<EffectView>),
    Admitted { effects: Seq<EffectView>, task: TaskView },
}

impl DeepView for BanTurn {
    type V = BanTurnView;

    open spec fn deep_view(&self) -> BanTurnView {
        match self {
            BanTurn::Refused(effects) => BanTurnView::Refused(effects.deep_view()),
            BanTurn::Admitted { effects, task } => BanTurnView::Admitted {
                effects: effects.deep_view(),
                task: task.deep_view(),
            },
        }
    }
}

impl AwaitingBanView {
    /// What the message asks for: one that starts with `/` is a command, with its arguments behind
    /// the first space.
    pub open spec fn task(self) -> TaskView {
        if self.content.len() > 0 && self.content[0] == '/' {
            let (command, rest) = parted(self.content, ' ');
            TaskView::Command(
                CommandCallView {
                    command,
                    args: match rest {
                        Some(text) => trimmed(text),
                        None => ""@,
                    },
                    content: self.content,
                    username: self.username,
                    user: self.user,
                    channel: self.channel,
                },
            )
        } else {
            TaskView::Chat(
                AwaitingMeowView {
                    username: self.username,
                    icon: self.user.icon,
                    now: self.now,
                    content: self.content,
                    channel: self.channel,
                },
            )
        }
    }

    /// What becomes of the message once the author's ban is known. A ban until second 0 has no end;
    /// one that has ended is lifted, and the message goes on.
    pub open spec fn outcome(self, ban: Option<ChannelBanInfo>) -> BanTurnView {
        match ban {
            Some(ChannelBanInfo { ban_mute_until: Some(until) }) => if until == 0 || until
                > self.now {
                BanTurnView::Refused(
                    seq![answer("You are banned from this channel."@, "⛔"@, self.channel)],
                )
            } else {
                BanTurnView::Admitted {
                    effects: seq![
                        EffectView::Apply(
                            ChangeView::DeleteChannelBan {
                                channel_id: self.channel.id,
                                username: self.username,
                            },
                        ),
                        answer(
                            "Your ban in channel '"@ + self.channel.name + "' has expired."@,
                            "✅"@,
                            self.channel,
                        ),
                    ],
                    task: self.task(),
                }
            },
            _ => BanTurnView::Admitted { effects: seq![], task: self.task() },
        }
    }
}

impl AwaitingBan {
    /// The look-up of the author's ban.
    pub fn query(&self) -> (r: Statement)
        ensures
            r.deep_view() == channel_ban_query(self.channel.id@, self.username@),
    {
        get_channel_ban_info(self.channel.id.as_str(), self.username.as_str())
    }

    fn into_task(self) -> (r: Task)
        ensures
            r.deep_view() == self.deep_view().task(),
    {
        if starts_with_slash(self.content.as_str()) {
            let (command, rest) = part(self.content.as_str(), ' ');
            let args: String = match rest {
                Some(text) => trim(text.as_str()),
                None => "".to_string(),
            };
            Task::Command(
                CommandCall {
                    command,
                    args,
                    content: self.content,
                    username: self.username,
                    user: self.user,
                    channel: self.channel,
                },
            )
        } else {
            Task::Chat(
                AwaitingMeow {
                    username: self.username,
                    icon: self.user.icon,
                    now: self.now,
                    content: self.content,
                    channel: self.channel,
                },
            )
        }
    }

    /// Goes on once the author's ban is known.
    pub fn resume(self, ban: Option<ChannelBanInfo>) -> (r: BanTurn)
        ensures
            r.deep_view() == self.deep_view().outcome(ban),
    {
        if let Some(ChannelBanInfo { ban_mute_until: Some(until) }) = ban {
            if until == 0 || until > self.now {
                return BanTurn::Refused(
                    one(
                        reply(
                            "You are banned from this channel.".to_string(),
                            "⛔",
                            &self.channel,
                        ),
                    ),
                );
            }
            let mut text = plus("Your ban in channel '", self.channel.name.as_str());
            text.append("' has expired.");
            let effects = two(
                Effect::Apply(
                    Change::DeleteChannelBan {
                        channel_id: self.channel.id.clone(),
                        username: self.username.clone(),
                    },
                ),
                reply(text, "✅", &self.channel),
            );
            return BanTurn::Admitted { effects, task: self.into_task() };
        }
        let effects: Vec<Effect> = Vec::new();
        assert(effects.deep_view() =~= seq![]);
        BanTurn::Admitted { effects, task: self.into_task() }
    }
}

fn starts_with_slash(s: &str) -> (r: bool)
    ensures
        r == (s@.len() > 0 && s@[0] == '/'),
{
    s.unicode_len() > 0 && s.get_char(0) == '/'
}

/// How a command goes on.
#[derive(Debug)]
pub enum CommandStep {
    /// As a command that everyone can give.
    User(UserStep),
    /// As an administrator's command.
    Admin(AdminStep),
    /// There is no such command for this user.
    Unknown(Vec<Effect>),
}

/// What a step holds.
pub enum CommandStepView {
    User(UserStepView),
    Admin(AdminStepView),
    Unknown(Seq<EffectView>),
}

impl DeepView for CommandStep {
    type V = CommandStepView;

    open spec fn deep_view(&self) -> CommandStepView {
        match self {
            CommandStep::User(step) => CommandStepView::User(step.deep_view()),
            CommandStep::Admin(step) => CommandStepView::Admin(step.deep_view()),
            CommandStep::Unknown(effects) => CommandStepView::Unknown(effects.deep_view()),
        }
    }
}

impl CommandCallView {
    /// The answer to a command that there is not, or not for this user.
    pub open spec fn unknown(self) -> CommandStepView {
        CommandStepView::Unknown(
            seq![
                answer(
                    "Unknown command or insufficient permissions: '"@ + self.content
                        + "'. Type /help for a list of commands."@,
                    "💻"@,
                    self.channel,
                ),
            ],
        )
    }

    /// How the command goes on, given what a user's command finds by chance and the second at which
    /// an administrator's command starts.
    pub open spec fn step(self, chance: Chance, now: int) -> CommandStepView {
        let as_user = user_step(self.command, self.args, self.channel, self.username, chance);
        if as_user !is NotHandled {
            CommandStepView::User(as_user)
        } else if self.user.is_admin || self.user.is_super_admin {
            let as_admin = admin_step(
                self.command,
                self.args,
                self.channel,
                self.username,
                self.user.is_super_admin,
                now,
            );
            if as_admin !is NotHandled {
                CommandStepView::Admin(as_admin)
            } else {
                self.unknown()
            }
        } else {
            self.unknown()
        }
    }
}

impl CommandCall {
    /// Starts the command.
    pub fn run(self) -> (r: CommandStep)
        ensures
            exists|chance: Chance, now: int|
                chance.possible(self.command@, self.args@) && 0 <= now <= LATEST_SECOND
                    && r.deep_view() == #[trigger] self.deep_view().step(chance, now),
    {
        let ghost me = self.deep_view();
        let as_user = handle_user_command(
            self.command.as_str(),
            self.args.as_str(),
            &self.channel,
            self.username.as_str(),
        );
        let ghost chance = choose|chance: Chance|
            chance.possible(me.command, me.args) && as_user.deep_view() == #[trigger] user_step(
                me.command,
                me.args,
                me.channel,
                me.username,
                chance,
            );
        match as_user {
            UserStep::NotHandled => {},
            step => {
                let r = CommandStep::User(step);
                assert(r.deep_view() == me.step(chance, 0));
                return r;
            },
        }
        if self.user.is_admin || self.user.is_super_admin {
            let as_admin = handle_admin_command(
                self.command.as_str(),
                self.args.as_str(),
                &self.channel,
                self.username.as_str(),
                &self.user,
            );
            let ghost now = choose|now: int|
                0 <= now <= LATEST_SECOND && as_admin.deep_view() == #[trigger] admin_step(
                    me.command,
                    me.args,
                    me.channel,
                    me.username,
                    me.user.is_super_admin,
                    now,
                );
            match as_admin {
                AdminStep::NotHandled => {
                    let r = self.unknown();
                    assert(r.deep_view() == me.step(chance, now));
                    r
                },
                step => {
                    let r = CommandStep::Admin(step);
                    assert(r.deep_view() == me.step(chance, now));
                    r
                },
            }
        } else {
            let r = self.unknown();
            assert(r.deep_view() == me.step(chance, 0));
            r
        }
    }

    fn unknown(&self) -> (r: CommandStep)
        ensures
            r.deep_view() == self.deep_view().unknown(),
    {
        let mut text = plus("Unknown command or insufficient permissions: '", self.content.as_str());
        text.append("'. Type /help for a list of commands.");
        CommandStep::Unknown(one(reply(text, "💻", &self.channel)))
    }
}

impl AwaitingMeowView {
    /// What is done with the message once the meow mode is known: it is stored as the newest of its
    /// channel, the oldest beyond the limit are dropped, and it is sent to the subscribers. In meow
    /// mode every message says `meow`.
    pub open spec fn outcome(self, meow_mode: i64) -> Seq<EffectView> {
        let content = if meow_mode == 1 {
            "meow"@
        } else {
            self.content
        };
        let message = text_view(self.username, self.icon, content, self.now, self.channel);
        seq![
            EffectView::Cache(
                CacheView::Push { key: "chat_history:"@ + self.channel.id, message },
            ),
            EffectView::Cache(
                CacheView::Trim {
                    key: "chat_history:"@ + self.channel.id,
                    start: (-HISTORY_LIMIT) as i64,
                    stop: (-1) as i64,
                },
            ),
            EffectView::Cache(CacheView::Publish { topic: "chat:"@ + self.channel.id, message }),
        ]
    }
}

impl AwaitingMeow {
    /// The key whose number is needed.
    pub fn key(&self) -> (r: &'static str)
        ensures
            r@ == "meow_mode"@,
    {
        "meow_mode"
    }

    /// Goes on once the number under `meow_mode` is known, 0 if there is none.
    pub fn resume(self, meow_mode: i64) -> (r: Vec<Effect>)
        ensures
            r.deep_view() == self.deep_view().outcome(meow_mode),
    {
        let content: String = if meow_mode == 1 {
            "meow".to_string()
        } else {
            self.content
        };
        let message = text_message(self.username, self.icon, content, self.now, &self.channel);
        let id = self.channel.id.as_str();
        three(
            Effect::Cache(CacheCommand::Push { key: history_key(id), message: message.clone() }),
            Effect::Cache(
                CacheCommand::Trim { key: history_key(id), start: -HISTORY_LIMIT, stop: -1 },
            ),
            Effect::Cache(CacheCommand::Publish { topic: channel_topic(id), message }),
        )
    }
}

} // verus!
