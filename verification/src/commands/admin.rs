//! The commands of administrators.

use vstd::prelude::*;
use vstd::string::*;
use crate::cache::CacheCommand;
use crate::cache::CacheView;
use crate::data_access::get_all_pending_channel_proposals;
use crate::data_access::get_channel_proposal_info;
use crate::data_access::get_user_info;
use crate::data_access::pending_query;
use crate::data_access::proposal_query;
use crate::data_access::user_query;
use crate::effect::answer;
use crate::effect::four;
use crate::effect::one;
use crate::effect::reply;
use crate::effect::three;
use crate::effect::two;
use crate::effect::Effect;
use crate::effect::EffectView;
use crate::message::ChannelBroadcast;
use crate::models::Channel;
use crate::models::ChannelProposal;
use crate::models::ChannelView;
use crate::models::ProposalView;
use crate::models::User;
use crate::models::UserView;
use crate::number::i64_value;
use crate::number::parse_i64;
use crate::number::signed_decimal;
use crate::number::signed_text;
use crate::outside::clock_seconds;
use crate::outside::LATEST_SECOND;
use crate::store::Change;
use crate::store::ChangeView;
use crate::store::Statement;
use crate::text::part;
use crate::text::parted;
use crate::text::plus;
use crate::text::same;
use crate::text::trim;
use crate::text::trimmed;

verus! {

/// The seconds for which the meow mode lasts.
pub const MEOW_SECONDS: i64 = 300;

/// What an administrator wants to do to a user.
#[derive(Debug)]
pub enum UserAction {
    /// Ban the user from the server, in the name of the administrator.
    Ban { admin: String },
    /// Take the user's administrator status away.
    RemoveAdmin,
    /// Ban the user from the current channel, for some minutes or for good.
    ChannelBan { minutes: Option<i64>, until: i64 },
}

/// What an action holds.
pub enum UserActionView {
    Ban { admin: Seq<char> },
    RemoveAdmin,
    ChannelBan { minutes: Option<i64>, until: i64 },
}

impl DeepView for UserAction {
    type V = UserActionView;

    open spec fn deep_view(&self) -> UserActionView {
        match self {
            UserAction::Ban { admin } => UserActionView::Ban { admin: admin@ },
            UserAction::RemoveAdmin => UserActionView::RemoveAdmin,
            UserAction::ChannelBan { minutes, until } => UserActionView::ChannelBan {
                minutes: *minutes,
                until: *until,
            },
        }
    }
}

/// A command that waits for the account of its target.
#[derive(Debug)]
pub struct AwaitingUser {
    pub target: String,
    pub action: UserAction,
    pub channel: Channel,
}

/// What a command that waits for an account holds.
pub struct AwaitingUserView {
    pub target: Seq<char>,
    pub action: UserActionView,
    pub channel: ChannelView,
}

impl DeepView for AwaitingUser {
    type V = AwaitingUserView;

    open spec fn deep_view(&self) -> AwaitingUserView {
        AwaitingUserView {
            target: self.target@,
            action: self.action.deep_view(),
            channel: self.channel.deep_view(),
        }
    }
}

/// A decision on a proposal that waits for the proposal.
#[derive(Debug)]
pub struct AwaitingProposal {
    pub id: String,
    pub approve: bool,
    pub channel: Channel,
}

/// What a decision on a proposal holds.
pub struct AwaitingProposalView {
    pub id: Seq<char>,
    pub approve: bool,
    pub channel: ChannelView,
}

impl DeepView for AwaitingProposal {
    type V = AwaitingProposalView;

    open spec fn deep_view(&self) -> AwaitingProposalView {
        AwaitingProposalView {
            id: self.id@,
            approve: self.approve,
            channel: self.channel.deep_view(),
        }
    }
}

/// A list command that waits for the pending proposals.
#[derive(Debug)]
pub struct AwaitingProposals {
    pub channel: Channel,
}

impl DeepView for AwaitingProposals {
    type V = ChannelView;

    open spec fn deep_view(&self) -> ChannelView {
        self.channel.deep_view()
    }
}

/// How an administrator's command goes on.
#[derive(Debug)]
pub enum AdminStep {
    /// There is no such command.
    NotHandled,
    /// The end of a ban is not a 64-bit number of seconds.
    Overflow,
    /// The command is done once these effects are.
    Done(Vec<Effect>),
    /// The target's account is needed.
    NeedUser(AwaitingUser),
    /// The proposal is needed.
    NeedProposal(AwaitingProposal),
    /// The pending proposals are needed.
    NeedProposals(AwaitingProposals),
}

/// What a step holds.
pub enum AdminStepView {
    NotHandled,
    Overflow,
    Done(Seq<EffectView>),
    NeedUser(AwaitingUserView),
    NeedProposal(AwaitingProposalView),
    NeedProposals(ChannelView),
}

impl DeepView for AdminStep {
    type V = AdminStepView;

    open spec fn deep_view(&self) -> AdminStepView {
        match self {
            AdminStep::NotHandled => AdminStepView::NotHandled,
            AdminStep::Overflow => AdminStepView::Overflow,
            AdminStep::Done(effects) => AdminStepView::Done(effects.deep_view()),
            AdminStep::NeedUser(waiting) => AdminStepView::NeedUser(waiting.deep_view()),
            AdminStep::NeedProposal(waiting) => AdminStepView::NeedProposal(waiting.deep_view()),
            AdminStep::NeedProposals(waiting) => AdminStepView::NeedProposals(waiting.deep_view()),
        }
    }
}

/// The refusal of a command that is kept for super administrators.
pub open spec fn denied(text: Seq<char>, channel: ChannelView) -> AdminStepView {
    AdminStepView::Done(seq![answer(text, "🚫"@, channel)])
}

/// The name that a channel ban names.
pub open spec fn ban_target(args: Seq<char>) -> Seq<char> {
    trimmed(parted(args, ' ').0)
}

/// The minutes that a channel ban names, if it names a number.
pub open spec fn ban_minutes(args: Seq<char>) -> Option<int> {
    match parted(args, ' ').1 {
        Some(rest) => i64_value(rest),
        None => None,
    }
}

/// The second at which a ban of some minutes ends that starts now.
pub open spec fn ban_end(now: int, minutes: int) -> int {
    now + minutes * 60
}

/// Whether the length of a ban and its end are 64-bit numbers of seconds.
pub open spec fn ban_fits(now: int, minutes: int) -> bool {
    &&& i64::MIN <= minutes * 60 <= i64::MAX
    &&& i64::MIN <= ban_end(now, minutes) <= i64::MAX
}

/// How `/channel_ban` goes on for a super administrator: a ban without minutes has no end.
pub open spec fn channel_ban_step(args: Seq<char>, channel: ChannelView, now: int) -> AdminStepView {
    match ban_minutes(args) {
        Some(d) => if ban_fits(now, d) {
            AdminStepView::NeedUser(
                AwaitingUserView {
                    target: ban_target(args),
                    action: UserActionView::ChannelBan {
                        minutes: Some(d as i64),
                        until: ban_end(now, d) as i64,
                    },
                    channel,
                },
            )
        } else {
            AdminStepView::Overflow
        },
        None => AdminStepView::NeedUser(
            AwaitingUserView {
                target: ban_target(args),
                action: UserActionView::ChannelBan { minutes: None, until: 0 },
                channel,
            },
        ),
    }
}

/// How an administrator's command goes on.
pub open spec fn admin_step(
    command: Seq<char>,
    args: Seq<char>,
    channel: ChannelView,
    username: Seq<char>,
    is_super_admin: bool,
    now: int,
) -> AdminStepView {
    if command == "/ban"@ {
        AdminStepView::NeedUser(
            AwaitingUserView {
                target: args,
                action: UserActionView::Ban { admin: username },
                channel,
            },
        )
    } else if command == "/rm_admin"@ {
        AdminStepView::NeedUser(
            AwaitingUserView { target: args, action: UserActionView::RemoveAdmin, channel },
        )
    } else if command == "/meow_event"@ {
        AdminStepView::Done(
            seq![
                EffectView::Cache(CacheView::SetNumber { key: "meow_mode"@, value: 1 }),
                EffectView::Cache(CacheView::Expire { key: "meow_mode"@, seconds: MEOW_SECONDS }),
                answer("Meow mode activated! Every message is now 'meow'."@, "🐈"@, channel),
            ],
        )
    } else if command == "/stop_meow"@ {
        AdminStepView::Done(
            seq![
                EffectView::Cache(CacheView::Delete { key: "meow_mode"@ }),
                answer("Meow mode deactivated."@, "🐈"@, channel),
            ],
        )
    } else if command == "/delete_channel"@ {
        AdminStepView::Done(
            seq![
                EffectView::Apply(ChangeView::DeleteChannelBans { channel_id: args }),
                EffectView::Apply(ChangeView::DeleteChannel { channel_id: args }),
                answer("Channel '"@ + args + "' and its related data deleted."@, "💻"@, channel),
                EffectView::SendText("/channel_delete "@ + args),
            ],
        )
    } else if command == "/list_proposals"@ {
        if is_super_admin {
            AdminStepView::NeedProposals(channel)
        } else {
            denied("You do not have permission to list proposals."@, channel)
        }
    } else if command == "/approve_channel"@ {
        if is_super_admin {
            AdminStepView::NeedProposal(AwaitingProposalView { id: args, approve: true, channel })
        } else {
            denied("You do not have permission to approve channels."@, channel)
        }
    } else if command == "/reject_channel"@ {
        if is_super_admin {
            AdminStepView::NeedProposal(AwaitingProposalView { id: args, approve: false, channel })
        } else {
            denied("You do not have permission to reject channels."@, channel)
        }
    } else if command == "/channel_ban"@ {
        if is_super_admin {
            channel_ban_step(args, channel, now)
        } else {
            denied("You do not have permission to ban users from channels."@, channel)
        }
    } else if command == "/channel_unban"@ {
        if is_super_admin {
            AdminStepView::Done(
                seq![
                    EffectView::Apply(
                        ChangeView::DeleteChannelBan { channel_id: channel.id, username: args },
                    ),
                    answer(
                        "User '"@ + args + "' has been unbanned from channel '"@ + channel.name
                            + "'."@,
                        "💻"@,
                        channel,
                    ),
                ],
            )
        } else {
            denied("You do not have permission to unban users from channels."@, channel)
        }
    } else {
        AdminStepView::NotHandled
    }
}

fn deny(text: &'static str, channel: &Channel) -> (r: AdminStep)
    ensures
        r.deep_view() == denied(text@, channel.deep_view()),
{
    AdminStep::Done(one(reply(text.to_string(), "🚫", channel)))
}

fn channel_ban(args: &str, channel: &Channel, now: i64) -> (r: AdminStep)
    ensures
        r.deep_view() == channel_ban_step(args@, channel.deep_view(), now as int),
{
    let (name, rest) = part(args, ' ');
    let target = trim(name.as_str());
    let minutes: Option<i64> = match rest {
        Some(text) => parse_i64(text.as_str()),
        None => None,
    };
    match minutes {
        Some(d) => {
            let length: i128 = d as i128 * 60;
            let end: i128 = now as i128 + length;
            if length < i64::MIN as i128 || length > i64::MAX as i128 || end < i64::MIN as i128
                || end > i64::MAX as i128 {
                AdminStep::Overflow
            } else {
                AdminStep::NeedUser(
                    AwaitingUser {
                        target,
                        action: UserAction::ChannelBan { minutes, until: end as i64 },
                        channel: channel.clone(),
                    },
                )
            }
        },
        None => AdminStep::NeedUser(
            AwaitingUser {
                target,
                action: UserAction::ChannelBan { minutes, until: 0 },
                channel: channel.clone(),
            },
        ),
    }
}

/// Starts an administrator's command that is given in a channel by an administrator. Proposals and
/// bans from a channel are kept for super administrators.
pub fn handle_admin_command(
    command: &str,
    args: &str,
    channel_info: &Channel,
    user_username: &str,
    current_user_info: &User,
) -> (r: AdminStep)
    ensures
        exists|now: int|
            0 <= now <= LATEST_SECOND && r.deep_view() == #[trigger] admin_step(
                command@,
                args@,
                channel_info.deep_view(),
                user_username@,
                current_user_info.is_super_admin,
                now,
            ),
{
    let now: i64 = clock_seconds();
    admin_command_at(
        command,
        args,
        channel_info,
        user_username,
        current_user_info.is_super_admin,
        now,
    )
}

/// Starts an administrator's command at second `now`.
pub fn admin_command_at(
    command: &str,
    args: &str,
    channel: &Channel,
    username: &str,
    is_super_admin: bool,
    now: i64,
) -> (r: AdminStep)
    ensures
        r.deep_view() == admin_step(
            command@,
            args@,
            channel.deep_view(),
            username@,
            is_super_admin,
            now as int,
        ),
{
    if same(command, "/ban") {
        AdminStep::NeedUser(
            AwaitingUser {
                target: args.to_string(),
                action: UserAction::Ban { admin: username.to_string() },
                channel: channel.clone(),
            },
        )
    } else if same(command, "/rm_admin") {
        AdminStep::NeedUser(
            AwaitingUser {
                target: args.to_string(),
                action: UserAction::RemoveAdmin,
                channel: channel.clone(),
            },
        )
    } else if same(command, "/meow_event") {
        AdminStep::Done(
            three(
                Effect::Cache(CacheCommand::SetNumber { key: "meow_mode", value: 1 }),
                Effect::Cache(CacheCommand::Expire { key: "meow_mode", seconds: MEOW_SECONDS }),
                reply(
                    "Meow mode activated! Every message is now 'meow'.".to_string(),
                    "🐈",
                    channel,
                ),
            ),
        )
    } else if same(command, "/stop_meow") {
        AdminStep::Done(
            two(
                Effect::Cache(CacheCommand::Delete { key: "meow_mode" }),
                reply("Meow mode deactivated.".to_string(), "🐈", channel),
            ),
        )
    } else if same(command, "/delete_channel") {
        let mut text = plus("Channel '", args);
        text.append("' and its related data deleted.");
        AdminStep::Done(
            four(
                Effect::Apply(Change::DeleteChannelBans { channel_id: args.to_string() }),
                Effect::Apply(Change::DeleteChannel { channel_id: args.to_string() }),
                reply(text, "💻", channel),
                Effect::SendText(plus("/channel_delete ", args)),
            ),
        )
    } else if same(command, "/list_proposals") {
        if is_super_admin {
            AdminStep::NeedProposals(AwaitingProposals { channel: channel.clone() })
        } else {
            deny("You do not have permission to list proposals.", channel)
        }
    } else if same(command, "/approve_channel") {
        if is_super_admin {
            AdminStep::NeedProposal(
                AwaitingProposal { id: args.to_string(), approve: true, channel: channel.clone() },
            )
        } else {
            deny("You do not have permission to approve channels.", channel)
        }
    } else if same(command, "/reject_channel") {
        if is_super_admin {
            AdminStep::NeedProposal(
                AwaitingProposal { id: args.to_string(), approve: false, channel: channel.clone() },
            )
        } else {
            deny("You do not have permission to reject channels.", channel)
        }
    } else if same(command, "/channel_ban") {
        if is_super_admin {
            channel_ban(args, channel, now)
        } else {
            deny("You do not have permission to ban users from channels.", channel)
        }
    } else if same(command, "/channel_unban") {
        if is_super_admin {
            let mut text = plus("User '", args);
            text.append("' has been unbanned from channel '");
            text.append(channel.name.as_str());
            text.append("'.");
            AdminStep::Done(
                two(
                    Effect::Apply(
                        Change::DeleteChannelBan {
                            channel_id: channel.id.clone(),
                            username: args.to_string(),
                        },
                    ),
                    reply(text, "💻", channel),
                ),
            )
        } else {
            deny("You do not have permission to unban users from channels.", channel)
        }
    } else {
        AdminStep::NotHandled
    }
}

/// How long a ban is said to last.
pub open spec fn ban_span(minutes: Option<i64>) -> Seq<char> {
    match minutes {
        Some(d) => "for "@ + signed_decimal(d as int) + " minutes"@,
        None => "permanently"@,
    }
}

impl AwaitingUserView {
    /// What is done once it is known whether the target has an account. A super administrator is
    /// neither banned nor demoted.
    pub open spec fn outcome(self, info: Option<UserView>) -> Seq<EffectView> {
        match info {
            None => seq![answer("User '"@ + self.target + "' not found."@, "💻"@, self.channel)],
            Some(user) => match self.action {
                UserActionView::Ban { admin } => if user.is_super_admin {
                    seq![answer("Cannot globally ban a super admin."@, "🚫"@, self.channel)]
                } else {
                    seq![
                        EffectView::Apply(ChangeView::BanUser { username: self.target }),
                        answer(
                            "User '"@ + self.target + "' has been GLOBALLY banned by admin '"@
                                + admin + "'."@,
                            "💻"@,
                            self.channel,
                        ),
                    ]
                },
                UserActionView::RemoveAdmin => if user.is_super_admin {
                    seq![
                        answer(
                            "Cannot remove admin status from a super admin."@,
                            "🚫"@,
                            self.channel,
                        ),
                    ]
                } else {
                    seq![
                        EffectView::Apply(ChangeView::RemoveAdmin { username: self.target }),
                        answer(
                            "User '"@ + self.target + "' is no longer a global admin."@,
                            "💻"@,
                            self.channel,
                        ),
                    ]
                },
                UserActionView::ChannelBan { minutes, until } => if user.is_super_admin {
                    seq![answer("Cannot ban a super admin from any channel."@, "🚫"@, self.channel)]
                } else {
                    seq![
                        EffectView::Apply(
                            ChangeView::PutChannelBan {
                                channel_id: self.channel.id,
                                username: self.target,
                                until,
                            },
                        ),
                        answer(
                            "User '"@ + self.target + "' has been banned from channel '"@
                                + self.channel.name + "' "@ + ban_span(minutes) + "."@,
                            "💻"@,
                            self.channel,
                        ),
                    ]
                },
            },
        }
    }
}

impl AwaitingUser {
    /// The look-up of the target's account.
    pub fn query(&self) -> (r: Statement)
        ensures
            r.deep_view() == user_query(self.target@),
    {
        get_user_info(self.target.as_str())
    }

    /// Goes on once it is known whether the target has an account.
    pub fn resume(self, info: Option<User>) -> (r: Vec<Effect>)
        ensures
            r.deep_view() == self.deep_view().outcome(info.deep_view()),
    {
        let channel = &self.channel;
        let user: User = match info {
            Some(user) => user,
            None => {
                let mut text = plus("User '", self.target.as_str());
                text.append("' not found.");
                return one(reply(text, "💻", channel));
            },
        };
        match self.action {
            UserAction::Ban { admin } => {
                if user.is_super_admin {
                    return one(
                        reply("Cannot globally ban a super admin.".to_string(), "🚫", channel),
                    );
                }
                let mut text = plus("User '", self.target.as_str());
                text.append("' has been GLOBALLY banned by admin '");
                text.append(admin.as_str());
                text.append("'.");
                two(
                    Effect::Apply(Change::BanUser { username: self.target.clone() }),
                    reply(text, "💻", channel),
                )
            },
            UserAction::RemoveAdmin => {
                if user.is_super_admin {
                    return one(
                        reply(
                            "Cannot remove admin status from a super admin.".to_string(),
                            "🚫",
                            channel,
                        ),
                    );
                }
                let mut text = plus("User '", self.target.as_str());
                text.append("' is no longer a global admin.");
                two(
                    Effect::Apply(Change::RemoveAdmin { username: self.target.clone() }),
                    reply(text, "💻", channel),
                )
            },
            UserAction::ChannelBan { minutes, until } => {
                if user.is_super_admin {
                    return one(
                        reply(
                            "Cannot ban a super admin from any channel.".to_string(),
                            "🚫",
                            channel,
                        ),
                    );
                }
                let span: String = match minutes {
                    Some(d) => {
                        let mut s = plus("for ", signed_text(d).as_str());
                        s.append(" minutes");
                        s
                    },
                    None => "permanently".to_string(),
                };
                let mut text = plus("User '", self.target.as_str());
                text.append("' has been banned from channel '");
                text.append(channel.name.as_str());
                text.append("' ");
                text.append(span.as_str());
                text.append(".");
                two(
                    Effect::Apply(
                        Change::PutChannelBan {
                            channel_id: channel.id.clone(),
                            username: self.target.clone(),
                            until,
                        },
                    ),
                    reply(text, "💻", channel),
                )
            },
        }
    }
}

impl AwaitingProposalView {
    /// What is done once it is known whether there is such a proposal. Only a pending proposal is
    /// decided.
    pub open spec fn outcome(self, info: Option<ProposalView>) -> Seq<EffectView> {
        match info {
            None => seq![
                answer("Channel proposal '"@ + self.id + "' not found."@, "🚫"@, self.channel),
            ],
            Some(p) => if p.status != "PENDING"@ {
                seq![answer("This proposal is not in PENDING status."@, "🚫"@, self.channel)]
            } else if self.approve {
                let new_channel = ChannelView { id: p.id, name: p.name, icon: p.icon };
                seq![
                    EffectView::Apply(ChangeView::AddChannel(new_channel)),
                    EffectView::Apply(ChangeView::ApproveProposal { id: p.id }),
                    answer(
                        "Channel '"@ + p.name + "' (ID: "@ + p.id
                            + ") has been APPROVED and is now active."@,
                        "✅"@,
                        self.channel,
                    ),
                    EffectView::Cache(
                        CacheView::PublishChannel {
                            topic: "channel_updates"@,
                            channel: new_channel,
                        },
                    ),
                ]
            } else {
                seq![
                    EffectView::Apply(ChangeView::RejectProposal { id: p.id }),
                    answer(
                        "Channel proposal '"@ + p.name + "' (ID: "@ + p.id + ") has been REJECTED."@,
                        "❌"@,
                        self.channel,
                    ),
                ]
            },
        }
    }
}

impl AwaitingProposal {
    /// The look-up of the proposal.
    pub fn query(&self) -> (r: Statement)
        ensures
            r.deep_view() == proposal_query(self.id@),
    {
        get_channel_proposal_info(self.id.as_str())
    }

    /// Goes on once it is known whether there is such a proposal.
    pub fn resume(self, info: Option<ChannelProposal>) -> (r: Vec<Effect>)
        ensures
            r.deep_view() == self.deep_view().outcome(info.deep_view()),
    {
        let channel = &self.channel;
        let p: ChannelProposal = match info {
            Some(p) => p,
            None => {
                let mut text = plus("Channel proposal '", self.id.as_str());
                text.append("' not found.");
                return one(reply(text, "🚫", channel));
            },
        };
        if !same(p.status.as_str(), "PENDING") {
            return one(
                reply("This proposal is not in PENDING status.".to_string(), "🚫", channel),
            );
        }
        if self.approve {
            let mut text = plus("Channel '", p.name.as_str());
            text.append("' (ID: ");
            text.append(p.id.as_str());
            text.append(") has been APPROVED and is now active.");
            four(
                Effect::Apply(
                    Change::AddChannel(
                        Channel { id: p.id.clone(), name: p.name.clone(), icon: p.icon.clone() },
                    ),
                ),
                Effect::Apply(Change::ApproveProposal { id: p.id.clone() }),
                reply(text, "✅", channel),
                Effect::Cache(
                    CacheCommand::PublishChannel {
                        topic: "channel_updates",
                        channel: ChannelBroadcast { id: p.id, name: p.name, icon: p.icon },
                    },
                ),
            )
        } else {
            let mut text = plus("Channel proposal '", p.name.as_str());
            text.append("' (ID: ");
            text.append(p.id.as_str());
            text.append(") has been REJECTED.");
            two(
                Effect::Apply(Change::RejectProposal { id: p.id }),
                reply(text, "❌", channel),
            )
        }
    }
}

/// The line that lists one proposal.
pub open spec fn proposal_line(p: ProposalView) -> Seq<char> {
    "- ID: "@ + p.id + ", Name: '"@ + p.name + "', Icon: '"@ + p.icon + "', Proposer: '"@
        + p.proposer_username + "'\n"@
}

/// The lines that list the proposals, in order.
pub open spec fn proposal_lines(proposals: Seq<ProposalView>) -> Seq<char>
    decreases proposals.len(),
{
    if proposals.len() == 0 {
        Seq::empty()
    } else {
        proposal_lines(proposals.drop_last()) + proposal_line(proposals.last())
    }
}

/// The answer that lists the pending proposals.
pub open spec fn proposals_answer(
    proposals: Seq<ProposalView>,
    channel: ChannelView,
) -> EffectView {
    if proposals.len() == 0 {
        answer("No pending channel proposals."@, "📝"@, channel)
    } else {
        answer("Pending Channel Proposals:\n"@ + proposal_lines(proposals), "📝"@, channel)
    }
}

impl AwaitingProposals {
    /// The list of the pending proposals.
    pub fn query(&self) -> (r: Statement)
        ensures
            r.deep_view() == pending_query(),
    {
        get_all_pending_channel_proposals()
    }

    /// Goes on once the pending proposals are known.
    pub fn resume(self, proposals: Vec<ChannelProposal>) -> (r: Vec<Effect>)
        ensures
            r.deep_view() == seq![proposals_answer(proposals.deep_view(), self.deep_view())],
    {
        if proposals.len() == 0 {
            return one(
                reply("No pending channel proposals.".to_string(), "📝", &self.channel),
            );
        }
        let mut text: String = "Pending Channel Proposals:\n".to_string();
        let ghost all = proposals.deep_view();
        let mut i: usize = 0;
        assert(text@ =~= "Pending Channel Proposals:\n"@ + proposal_lines(all.take(0)));
        while i < proposals.len()
            invariant
                i <= proposals@.len(),
                all == proposals.deep_view(),
                text@ == "Pending Channel Proposals:\n"@ + proposal_lines(all.take(i as int)),
            decreases proposals@.len() - i,
        {
            let p = &proposals[i];
            let ghost before = text@;
            let ghost head = "Pending Channel Proposals:\n"@;
            text.append("- ID: ");
            text.append(p.id.as_str());
            text.append(", Name: '");
            text.append(p.name.as_str());
            text.append("', Icon: '");
            text.append(p.icon.as_str());
            text.append("', Proposer: '");
            text.append(p.proposer_username.as_str());
            text.append("'\n");
            proof {
                let t = all.take(i + 1);
                assert(t.drop_last() =~= all.take(i as int));
                assert(t.last() == p.deep_view());
                assert(text@ =~= before + proposal_line(p.deep_view()));
                assert(text@ =~= head + (proposal_lines(all.take(i as int)) + proposal_line(
                    p.deep_view(),
                )));
            }
            i += 1;
        }
        assert(all.take(all.len() as int) =~= all);
        one(reply(text, "📝", &self.channel))
    }
}

} // verus!
