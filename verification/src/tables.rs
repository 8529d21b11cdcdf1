//! What the commands come to in the database: a model of its tables, and what holds of it.

use vstd::prelude::*;
use crate::commands::admin::admin_step;
use crate::commands::admin::ban_end;
use crate::commands::admin::ban_minutes;
use crate::commands::admin::ban_target;
use crate::commands::admin::AdminStepView;
use crate::commands::admin::AwaitingProposalView;
use crate::commands::admin::AwaitingUserView;
use crate::commands::lemma_name_marks;
use crate::commands::user::new_proposal;
use crate::commands::user::propose_step;
use crate::commands::user::UserStepView;
use crate::config::first_change;
use crate::effect::answer;
use crate::effect::EffectView;
use crate::models::ChannelBanInfo;
use crate::models::ChannelView;
use crate::models::ProposalView;
use crate::models::UserView;
use crate::outside::hyphenated;
use crate::store::ChangeView;
use crate::text::parted;
use crate::ws::AwaitingBanView;
use crate::ws::AwaitingChannelView;
use crate::ws::BanTurnView;
use crate::ws::ChannelTurnView;
use crate::ws::ClientView;
use crate::ws::MUTE_SECONDS;

verus! {

/// The tables of the chat: accounts by user name, channels and proposals by identifier, and bans by
/// channel and user name.
pub struct Tables {
    pub users: Map<Seq<char>, UserView>,
    pub channels: Map<Seq<char>, ChannelView>,
    pub proposals: Map<Seq<char>, ProposalView>,
    pub bans: Map<(Seq<char>, Seq<char>), i64>,
}

/// What a map holds for a key.
pub open spec fn found<K, V>(table: Map<K, V>, key: K) -> Option<V> {
    if table.dom().contains(key) {
        Some(table[key])
    } else {
        None
    }
}

impl Tables {
    /// The account of a user.
    pub open spec fn user(self, username: Seq<char>) -> Option<UserView> {
        found(self.users, username)
    }

    /// The channel with an identifier.
    pub open spec fn channel(self, id: Seq<char>) -> Option<ChannelView> {
        found(self.channels, id)
    }

    /// The proposal with an identifier.
    pub open spec fn proposal(self, id: Seq<char>) -> Option<ProposalView> {
        found(self.proposals, id)
    }

    /// A user's ban from a channel.
    pub open spec fn ban(self, channel_id: Seq<char>, username: Seq<char>) -> Option<
        ChannelBanInfo,
    > {
        match found(self.bans, (channel_id, username)) {
            Some(until) => Some(ChannelBanInfo { ban_mute_until: Some(until) }),
            None => None,
        }
    }

    /// The tables with an account put in the place of another, if there is one.
    pub open spec fn with_user(self, username: Seq<char>, user: UserView) -> Tables {
        if self.users.dom().contains(username) {
            Tables { users: self.users.insert(username, user), ..self }
        } else {
            self
        }
    }

    /// The tables with a proposal's status put in the place of another, if there is one.
    pub open spec fn with_status(self, id: Seq<char>, status: Seq<char>) -> Tables {
        if self.proposals.dom().contains(id) {
            Tables {
                proposals: self.proposals.insert(
                    id,
                    ProposalView { status, ..self.proposals[id] },
                ),
                ..self
            }
        } else {
            self
        }
    }

    /// The tables after a change.
    pub open spec fn changed(self, change: ChangeView) -> Tables {
        match change {
            ChangeView::BanUser { username } => self.with_user(
                username,
                UserView { is_banned: true, ..self.users[username] },
            ),
            ChangeView::RemoveAdmin { username } => self.with_user(
                username,
                UserView { is_admin: false, ..self.users[username] },
            ),
            ChangeView::MuteUser { username, until } => self.with_user(
                username,
                UserView { ban_mute_until: Some(until), ..self.users[username] },
            ),
            ChangeView::AddChannel(channel) => Tables {
                channels: self.channels.insert(channel.id, channel),
                ..self
            },
            ChangeView::DeleteChannel { channel_id } => Tables {
                channels: self.channels.remove(channel_id),
                ..self
            },
            ChangeView::DeleteChannelBans { channel_id } => Tables {
                bans: self.bans.restrict(
                    Set::new(|key: (Seq<char>, Seq<char>)| key.0 != channel_id),
                ),
                ..self
            },
            ChangeView::AddProposal(proposal) => Tables {
                proposals: self.proposals.insert(proposal.id, proposal),
                ..self
            },
            ChangeView::ApproveProposal { id } => self.with_status(id, "APPROVED"@),
            ChangeView::RejectProposal { id } => self.with_status(id, "REJECTED"@),
            ChangeView::PutChannelBan { channel_id, username, until } => Tables {
                bans: self.bans.insert((channel_id, username), until),
                ..self
            },
            ChangeView::DeleteChannelBan { channel_id, username } => Tables {
                bans: self.bans.remove((channel_id, username)),
                ..self
            },
        }
    }

    /// The tables after some effects.
    pub open spec fn after(self, effects: Seq<EffectView>) -> Tables
        decreases effects.len(),
    {
        if effects.len() == 0 {
            self
        } else {
            let before = self.after(effects.drop_last());
            match effects.last() {
                EffectView::Apply(change) => before.changed(change),
                _ => before,
            }
        }
    }
}

proof fn lemma_after_one(t: Tables, a: EffectView)
    ensures
        t.after(seq![a]) == match a {
            EffectView::Apply(change) => t.changed(change),
            _ => t,
        },
{
    reveal_with_fuel(Tables::after, 2);
    assert(seq![a].drop_last() =~= Seq::<EffectView>::empty());
}

proof fn lemma_after_append(t: Tables, effects: Seq<EffectView>, a: EffectView)
    ensures
        t.after(effects.push(a)) == match a {
            EffectView::Apply(change) => t.after(effects).changed(change),
            _ => t.after(effects),
        },
{
    assert(effects.push(a).drop_last() =~= effects);
}

/// A change and an answer come to the change.
pub proof fn lemma_after_two(t: Tables, a: EffectView, b: EffectView)
    requires
        a is Apply,
        b is Reply,
    ensures
        t.after(seq![a, b]) == t.changed(a->Apply_0),
{
    lemma_after_one(t, a);
    lemma_after_append(t, seq![a], b);
    assert(seq![a].push(b) =~= seq![a, b]);
}

proof fn lemma_after_four(t: Tables, a: EffectView, b: EffectView, c: EffectView, d: EffectView)
    requires
        a is Apply,
        b is Apply,
        c !is Apply,
        d !is Apply,
    ensures
        t.after(seq![a, b, c, d]) == t.changed(a->Apply_0).changed(b->Apply_0),
{
    lemma_after_one(t, a);
    lemma_after_append(t, seq![a], b);
    lemma_after_append(t, seq![a, b], c);
    lemma_after_append(t, seq![a, b, c], d);
    assert(seq![a].push(b) =~= seq![a, b]);
    assert(seq![a, b].push(c) =~= seq![a, b, c]);
    assert(seq![a, b, c].push(d) =~= seq![a, b, c, d]);
}

/// A server that starts without channels has the channel that plain messages go to.
pub proof fn lemma_home_exists(t: Tables, text: Seq<char>)
    requires
        t.channels == Map::<Seq<char>, ChannelView>::empty(),
    ensures
        first_change(t.channels.dom().len() as int) matches Some(change) && t.changed(change).channel(
            ClientView::Text(text).destination().1,
        ) is Some,
{
}

/// What is kept for super administrators changes nothing when another administrator asks for it: it
/// is answered, and that is all.
pub proof fn lemma_super_admins_only(
    t: Tables,
    command: Seq<char>,
    args: Seq<char>,
    channel: ChannelView,
    username: Seq<char>,
    now: int,
)
    requires
        command == "/list_proposals"@ || command == "/approve_channel"@ || command
            == "/reject_channel"@ || command == "/channel_ban"@ || command == "/channel_unban"@,
    ensures
        admin_step(command, args, channel, username, false, now) matches AdminStepView::Done(
            effects,
        ) && effects.len() == 1 && effects[0] is Reply && t.after(effects) == t,
{
    lemma_name_marks();
    let effects = admin_step(command, args, channel, username, false, now)->Done_0;
    assert(effects =~= seq![effects[0]]);
    lemma_after_one(t, effects[0]);
}

/// No administrator's command on a user changes the account of a super administrator or bans one
/// from a channel.
pub proof fn lemma_super_admins_safe(
    t: Tables,
    waiting: AwaitingUserView,
    username: Seq<char>,
    channel_id: Seq<char>,
)
    requires
        t.user(username) matches Some(user) && user.is_super_admin,
    ensures
        t.after(waiting.outcome(t.user(waiting.target))).user(username) == t.user(username),
        t.after(waiting.outcome(t.user(waiting.target))).ban(channel_id, username) == t.ban(
            channel_id,
            username,
        ),
{
    let effects = waiting.outcome(t.user(waiting.target));
    if effects.len() == 1 {
        lemma_after_one(t, effects[0]);
        assert(effects =~= seq![effects[0]]);
    } else {
        lemma_after_two(t, effects[0], effects[1]);
        assert(effects =~= seq![effects[0], effects[1]]);
    }
}

/// A banned user's message stores and publishes nothing, whatever it says and wherever it goes: at
/// most the user is muted anew.
pub proof fn lemma_silenced(
    waiting: AwaitingChannelView,
    info: Option<ChannelView>,
)
    requires
        waiting.user.is_silenced(),
    ensures
        waiting.outcome(info) matches ChannelTurnView::Refused(effects) && (forall|i: int|
            0 <= i < effects.len() ==> {
                ||| #[trigger] effects[i] is Reply
                ||| effects[i] is Apply && effects[i]->Apply_0 is MuteUser
            }),
{
}

/// After `/ban` on an account that is no super administrator's, that user's messages are refused.
pub proof fn lemma_ban_silences(
    t: Tables,
    waiting: AwaitingUserView,
    message: AwaitingChannelView,
    info: Option<ChannelView>,
)
    requires
        waiting.action is Ban,
        t.user(waiting.target) matches Some(user) && !user.is_super_admin,
        Some(message.user) == t.after(waiting.outcome(t.user(waiting.target))).user(
            waiting.target,
        ),
    ensures
        message.user.is_silenced(),
        message.outcome(info) is Refused,
{
    let effects = waiting.outcome(t.user(waiting.target));
    assert(effects =~= seq![effects[0], effects[1]]);
    lemma_after_two(t, effects[0], effects[1]);
}

/// A mute holds as long as it says: where a banned user's message renewed the mute, a message before
/// its end is refused without another.
pub proof fn lemma_mute_lasts(
    t: Tables,
    first: AwaitingChannelView,
    second: AwaitingChannelView,
    channel: ChannelView,
)
    requires
        first.user.is_silenced(),
        first.user.muted_until() <= first.now,
        first.now <= i64::MAX - MUTE_SECONDS,
        t.user(first.username) == Some(first.user),
        first.outcome(Some(channel)) matches ChannelTurnView::Refused(effects) && Some(second.user)
            == t.after(effects).user(first.username),
        second.now < first.now + MUTE_SECONDS,
    ensures
        second.outcome(Some(channel)) == ChannelTurnView::Refused(
            seq![
                answer(
                    "You are currently globally banned and cannot send messages."@,
                    "⛔"@,
                    channel,
                ),
            ],
        ),
{
    let effects = first.outcome(Some(channel))->Refused_0;
    assert(effects =~= seq![effects[0], effects[1]]);
    lemma_after_two(t, effects[0], effects[1]);
}

/// A super administrator's message to a channel that exists is never refused for a ban from the
/// whole server.
pub proof fn lemma_super_admin_heard(waiting: AwaitingChannelView, channel: ChannelView)
    requires
        waiting.user.is_super_admin,
    ensures
        waiting.outcome(Some(channel)) is NeedBan,
{
}

/// A channel ban holds as long as it says. After `/channel_ban` on an account that is no super
/// administrator's, the target's messages in that channel are refused: without minutes for good,
/// and else exactly until the ban ends. (A ban that ends in second 0 has no end.)
pub proof fn lemma_channel_ban_holds(
    t: Tables,
    args: Seq<char>,
    channel: ChannelView,
    username: Seq<char>,
    now: int,
    waiting: AwaitingUserView,
    message: AwaitingBanView,
)
    requires
        admin_step("/channel_ban"@, args, channel, username, true, now) == AdminStepView::NeedUser(
            waiting,
        ),
        t.user(ban_target(args)) matches Some(user) && !user.is_super_admin,
        message.channel == channel,
        message.username == ban_target(args),
    ensures
        ({
            let after = t.after(waiting.outcome(t.user(waiting.target)));
            let ban = after.ban(channel.id, message.username);
            message.outcome(ban) is Refused <==> match ban_minutes(args) {
                None => true,
                Some(d) => ban_end(now, d) == 0 || message.now < ban_end(now, d),
            }
        }),
{
    lemma_name_marks();
    let effects = waiting.outcome(t.user(waiting.target));
    assert(effects =~= seq![effects[0], effects[1]]);
    lemma_after_two(t, effects[0], effects[1]);
}

/// After `/channel_unban` the user has no ban from the channel, and a message there is admitted with
/// nothing done first.
pub proof fn lemma_unban_lifts(
    t: Tables,
    args: Seq<char>,
    channel: ChannelView,
    username: Seq<char>,
    now: int,
    message: AwaitingBanView,
)
    requires
        message.channel == channel,
        message.username == args,
    ensures
        admin_step("/channel_unban"@, args, channel, username, true, now) matches
            AdminStepView::Done(effects) && message.outcome(t.after(effects).ban(channel.id, args))
            == (BanTurnView::Admitted { effects: seq![], task: message.task() }),
{
    lemma_name_marks();
    let step = admin_step("/channel_unban"@, args, channel, username, true, now);
    let effects = step->Done_0;
    assert(effects =~= seq![effects[0], effects[1]]);
    lemma_after_two(t, effects[0], effects[1]);
}

/// Unbanning a user from a channel undoes a ban there: both together leave no ban of the user from the
/// channel and everything else as it was, and so change nothing if there was none before.
pub proof fn lemma_unban_undoes_ban(
    t: Tables,
    args: Seq<char>,
    channel: ChannelView,
    username: Seq<char>,
    now: int,
    later: int,
    waiting: AwaitingUserView,
)
    requires
        admin_step("/channel_ban"@, args, channel, username, true, now) == AdminStepView::NeedUser(
            waiting,
        ),
    ensures
        admin_step("/channel_unban"@, ban_target(args), channel, username, true, later) matches
            AdminStepView::Done(effects) && {
            let after = t.after(waiting.outcome(t.user(waiting.target))).after(effects);
            &&& after == (Tables { bans: t.bans.remove((channel.id, ban_target(args))), ..t })
            &&& t.ban(channel.id, ban_target(args)) is None ==> after == t
        },
{
    lemma_name_marks();
    let first = waiting.outcome(t.user(waiting.target));
    let banned = t.after(first);
    if first.len() == 1 {
        assert(first =~= seq![first[0]]);
        lemma_after_one(t, first[0]);
    } else {
        assert(first =~= seq![first[0], first[1]]);
        lemma_after_two(t, first[0], first[1]);
    }
    let effects =
        admin_step("/channel_unban"@, ban_target(args), channel, username, true, later)->Done_0;
    assert(effects =~= seq![effects[0], effects[1]]);
    lemma_after_two(banned, effects[0], effects[1]);
    assert(banned.after(effects).bans =~= t.bans.remove((channel.id, ban_target(args))));
    if t.ban(channel.id, ban_target(args)) is None {
        assert(banned.after(effects).bans =~= t.bans);
    }
}

/// A ban that has ended is gone once the user's next message there is admitted.
pub proof fn lemma_expired_ban_removed(t: Tables, message: AwaitingBanView)
    requires
        t.ban(message.channel.id, message.username) is Some,
    ensures
        message.outcome(t.ban(message.channel.id, message.username)) matches
            BanTurnView::Admitted { effects, task } ==> task == message.task() && t.after(
            effects,
        ).ban(message.channel.id, message.username) is None,
{
    let turn = message.outcome(t.ban(message.channel.id, message.username));
    if turn is Admitted {
        let effects = turn->effects;
        assert(effects =~= seq![effects[0], effects[1]]);
        lemma_after_two(t, effects[0], effects[1]);
    }
}

/// Approving a pending proposal under whose identifier there is no channel opens its channel, and it cannot be decided again: a further
/// decision changes nothing.
pub proof fn lemma_approval(
    t: Tables,
    waiting: AwaitingProposalView,
    again: AwaitingProposalView,
    p: ProposalView,
)
    requires
        waiting.approve,
        t.proposal(waiting.id) == Some(p),
        t.channel(p.id) is None,
        p.id == waiting.id,
        p.status == "PENDING"@,
        again.id == waiting.id,
    ensures
        ({
            let after = t.after(waiting.outcome(Some(p)));
            &&& after.channel(p.id) == Some(ChannelView { id: p.id, name: p.name, icon: p.icon })
            &&& after.proposal(p.id) == Some(ProposalView { status: "APPROVED"@, ..p })
            &&& after.after(again.outcome(after.proposal(again.id))) == after
        }),
{
    reveal_strlit("PENDING");
    reveal_strlit("APPROVED");
    let effects = waiting.outcome(Some(p));
    assert(effects =~= seq![effects[0], effects[1], effects[2], effects[3]]);
    lemma_after_four(t, effects[0], effects[1], effects[2], effects[3]);
    let after = t.after(effects);
    let second = again.outcome(after.proposal(again.id));
    assert("PENDING"@.len() == 7);
    assert("APPROVED"@.len() == 8);
    assert(second =~= seq![second[0]]);
    lemma_after_one(after, second[0]);
}

/// Rejecting a pending proposal opens no channel, and it cannot be decided again: a further decision
/// changes nothing.
pub proof fn lemma_rejection(
    t: Tables,
    waiting: AwaitingProposalView,
    again: AwaitingProposalView,
    p: ProposalView,
)
    requires
        !waiting.approve,
        t.proposal(waiting.id) == Some(p),
        p.id == waiting.id,
        p.status == "PENDING"@,
        again.id == waiting.id,
    ensures
        ({
            let after = t.after(waiting.outcome(Some(p)));
            &&& after.channels == t.channels
            &&& after.proposal(p.id) == Some(ProposalView { status: "REJECTED"@, ..p })
            &&& after.after(again.outcome(after.proposal(again.id))) == after
        }),
{
    reveal_strlit("PENDING");
    reveal_strlit("REJECTED");
    let effects = waiting.outcome(Some(p));
    assert(effects =~= seq![effects[0], effects[1]]);
    lemma_after_two(t, effects[0], effects[1]);
    let after = t.after(effects);
    let second = again.outcome(after.proposal(again.id));
    assert("PENDING"@.len() == 7);
    assert("REJECTED"@.len() == 8);
    assert(second =~= seq![second[0]]);
    lemma_after_one(after, second[0]);
}

/// A proposal that a user makes is pending under its identifier, which is new, and opens no channel.
pub proof fn lemma_proposal_pending(
    t: Tables,
    args: Seq<char>,
    channel: ChannelView,
    username: Seq<char>,
    now: i64,
    id: u128,
)
    requires
        parted(args, ' ').1 is Some,
        t.proposal(hyphenated(id)) is None,
    ensures
        propose_step(args, channel, username, now, id) matches UserStepView::Done(effects) && t.after(
            effects,
        ).proposal(hyphenated(id)) == Some(
            new_proposal(parted(args, ' ').0, parted(args, ' ').1->0, username, now, id),
        ) && t.after(effects).channels == t.channels,
{
    let effects = propose_step(args, channel, username, now, id)->Done_0;
    assert(effects =~= seq![effects[0], effects[1]]);
    lemma_after_two(t, effects[0], effects[1]);
}

/// After `/delete_channel` the channel and all bans from it are gone, every other channel and its
/// bans are as before, and a message to the channel is answered that it is not found.
pub proof fn lemma_delete_channel(
    t: Tables,
    args: Seq<char>,
    channel: ChannelView,
    username: Seq<char>,
    is_super_admin: bool,
    now: int,
    other: Seq<char>,
    anyone: Seq<char>,
    message: AwaitingChannelView,
)
    requires
        message.channel_id == args,
    ensures
        admin_step("/delete_channel"@, args, channel, username, is_super_admin, now) matches
            AdminStepView::Done(effects) && {
            let after = t.after(effects);
            &&& after.channel(args) is None
            &&& after.ban(args, anyone) is None
            &&& other != args ==> after.channel(other) == t.channel(other)
            &&& other != args ==> after.ban(other, anyone) == t.ban(other, anyone)
            &&& message.outcome(after.channel(args)) is Refused
        },
{
    lemma_name_marks();
    let effects =
        admin_step("/delete_channel"@, args, channel, username, is_super_admin, now)->Done_0;
    assert(effects =~= seq![effects[0], effects[1], effects[2], effects[3]]);
    lemma_after_four(t, effects[0], effects[1], effects[2], effects[3]);
}

} // verus!
