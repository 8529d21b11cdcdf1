//! What the administrators' commands do.

use vstd::prelude::*;
use crate::cache::CacheView;
use crate::commands::admin::admin_step;
use crate::commands::admin::proposal_lines;
use crate::commands::admin::proposals_answer;
use crate::commands::admin::AdminStepView;
use crate::commands::admin::AwaitingUserView;
use crate::commands::admin::UserActionView;
use crate::commands::lemma_name_marks;
use crate::commands::user::Chance;
use crate::effect::EffectView;
use crate::laws::session::says;
use crate::laws::texts::lemma_bounds;
use crate::laws::texts::lemma_cut;
use crate::laws::texts::lemma_trim;
use crate::models::ChannelView;
use crate::models::ProposalView;
use crate::models::UserView;
use crate::number::decimal;
use crate::number::i64_value;
use crate::number::is_digit;
use crate::number::lemma_decimal_value;
use crate::number::signed_decimal;
use crate::store::ChangeView;
use crate::tables::lemma_after_two;
use crate::tables::Tables;
use crate::text::trimmed;
use crate::text::white_space;
use crate::ws::AwaitingBanView;
use crate::ws::AwaitingChannelView;
use crate::ws::BanTurnView;
use crate::ws::ChannelTurnView;
use crate::ws::CommandStepView;
use crate::ws::TaskView;

verus! {

/// `/channel_ban` for `d` minutes ends 60 times `d` seconds from now: the target's messages in the
/// channel are refused exactly before second `now + 60 * d`, and the ban is stored and told as one of
/// `d` minutes. (A ban that ends in second 0 would have no end.)
pub proof fn lemma_timed_ban(
    t: Tables,
    name: Seq<char>,
    minutes: Seq<char>,
    d: int,
    channel: ChannelView,
    username: Seq<char>,
    now: int,
    user: UserView,
    message: AwaitingBanView,
)
    requires
        forall|i: int| 0 <= i < name.len() ==> #[trigger] name[i] != ' ',
        i64_value(minutes) == Some(d),
        -0x8000_0000_0000_0000 <= 60 * d <= 0x7fff_ffff_ffff_ffff,
        -0x8000_0000_0000_0000 <= now + 60 * d <= 0x7fff_ffff_ffff_ffff,
        t.user(trimmed(name)) == Some(user),
        !user.is_super_admin,
        message.username == trimmed(name),
        message.channel == channel,
    ensures
        admin_step(
            "/channel_ban"@,
            name + seq![' '] + minutes,
            channel,
            username,
            true,
            now,
        ) matches AdminStepView::NeedUser(waiting) && {
            let effects = waiting.outcome(Some(user));
            let after = t.after(effects);
            &&& waiting.target == trimmed(name)
            &&& effects.len() == 2
            &&& effects[0] matches EffectView::Apply(
                ChangeView::PutChannelBan { channel_id, username: target, until },
            ) && channel_id == channel.id && target == trimmed(name) && until == now + 60 * d
            &&& says(
                effects[1],
                "User '"@ + trimmed(name) + "' has been banned from channel '"@ + channel.name
                    + "' "@ + ("for "@ + signed_decimal(d) + " minutes"@) + "."@,
                "💻"@,
                channel,
            )
            &&& message.outcome(after.ban(channel.id, message.username)) is Refused <==> now + 60
                * d == 0 || message.now < now + 60 * d
        },
{
    lemma_name_marks();
    lemma_cut(name, ' ', minutes);
    let step = admin_step(
        "/channel_ban"@,
        name + seq![' '] + minutes,
        channel,
        username,
        true,
        now,
    );
    let effects = step->NeedUser_0.outcome(Some(user));
    assert(effects =~= seq![effects[0], effects[1]]);
    lemma_after_two(t, effects[0], effects[1]);
}

/// A ban whose length or end is no 64-bit number of seconds is given up, and nothing is done.
pub proof fn lemma_ban_too_long(
    name: Seq<char>,
    minutes: Seq<char>,
    d: int,
    channel: ChannelView,
    username: Seq<char>,
    now: int,
)
    requires
        forall|i: int| 0 <= i < name.len() ==> #[trigger] name[i] != ' ',
        i64_value(minutes) == Some(d),
    ensures
        admin_step("/channel_ban"@, name + seq![' '] + minutes, channel, username, true, now)
            is Overflow <==> {
            ||| 60 * d > 0x7fff_ffff_ffff_ffff
            ||| 60 * d < -0x8000_0000_0000_0000
            ||| now + 60 * d > 0x7fff_ffff_ffff_ffff
            ||| now + 60 * d < -0x8000_0000_0000_0000
        },
{
    lemma_name_marks();
    lemma_cut(name, ' ', minutes);
}

/// `/channel_ban` without minutes that can be read lasts for good: at every second the target's
/// messages in the channel are refused.
pub proof fn lemma_endless_ban(
    t: Tables,
    args: Seq<char>,
    name: Seq<char>,
    rest: Seq<char>,
    channel: ChannelView,
    username: Seq<char>,
    now: int,
    user: UserView,
    message: AwaitingBanView,
)
    requires
        forall|i: int| 0 <= i < name.len() ==> #[trigger] name[i] != ' ',
        args == name || (args == name + seq![' '] + rest && i64_value(rest) is None),
        t.user(trimmed(name)) == Some(user),
        !user.is_super_admin,
        message.username == trimmed(name),
        message.channel == channel,
    ensures
        admin_step("/channel_ban"@, args, channel, username, true, now) matches
            AdminStepView::NeedUser(waiting) && {
            let effects = waiting.outcome(Some(user));
            &&& waiting.target == trimmed(name)
            &&& effects.len() == 2
            &&& effects[0] matches EffectView::Apply(
                ChangeView::PutChannelBan { channel_id, username: target, until },
            ) && channel_id == channel.id && target == trimmed(name) && until == 0
            &&& says(
                effects[1],
                "User '"@ + trimmed(name) + "' has been banned from channel '"@ + channel.name
                    + "' permanently."@,
                "💻"@,
                channel,
            )
            &&& message.outcome(t.after(effects).ban(channel.id, message.username)) is Refused
        },
{
    lemma_name_marks();
    lemma_cut(name, ' ', rest);
    let step = admin_step("/channel_ban"@, args, channel, username, true, now);
    let effects = step->NeedUser_0.outcome(Some(user));
    assert(effects =~= seq![effects[0], effects[1]]);
    lemma_after_two(t, effects[0], effects[1]);
    reveal_strlit("' ");
    reveal_strlit("permanently");
    reveal_strlit(".");
    reveal_strlit("' permanently.");
    assert("' "@ + "permanently"@ + "."@ =~= "' permanently."@);
    let head = "User '"@ + trimmed(name) + "' has been banned from channel '"@ + channel.name;
    assert(head + "' "@ + "permanently"@ + "."@ =~= head + ("' "@ + "permanently"@ + "."@));
}

proof fn lemma_decimal_solid(d: nat)
    ensures
        decimal(d).len() > 0,
        !white_space(decimal(d).last()),
{
    lemma_decimal_value(d);
    assert(is_digit(decimal(d).last()));
}

/// After a super administrator writes `/channel_ban <name> <d>` at second `now`, with `d` at least 1,
/// the target's message in that channel at second `s` is refused exactly if `s < now + 60 * d`.
pub proof fn lemma_ban_by_message(
    t: Tables,
    admin: AwaitingBanView,
    chance: Chance,
    name: Seq<char>,
    d: nat,
    user: UserView,
    message: AwaitingChannelView,
    channel: ChannelView,
)
    requires
        admin.user.is_super_admin,
        admin.channel == channel,
        admin.content == "/channel_ban"@ + seq![' '] + (name + seq![' '] + decimal(d)),
        name.len() > 0,
        forall|i: int| 0 <= i < name.len() ==> !white_space(#[trigger] name[i]),
        d >= 1,
        admin.now >= 0,
        admin.now + 60 * d <= 0x7fff_ffff_ffff_ffff,
        t.user(name) == Some(user),
        !user.is_super_admin,
        message.username == name,
        !message.user.is_banned,
    ensures
        admin.outcome(None) matches BanTurnView::Admitted {
            effects: first,
            task: TaskView::Command(call),
        } && call.step(chance, admin.now as int) matches CommandStepView::Admin(
            AdminStepView::NeedUser(waiting),
        ) && message.outcome(Some(channel)) matches ChannelTurnView::NeedBan(author) && {
            let after = t.after(waiting.outcome(t.user(waiting.target)));
            author.outcome(after.ban(channel.id, name)) is Refused <==> message.now < admin.now + 60
                * d
        },
{
    lemma_name_marks();
    lemma_command_name();
    assert(white_space(' '));
    let rest = name + seq![' '] + decimal(d);
    crate::laws::session::lemma_command_read(admin, "/channel_ban"@, rest);
    let call = admin.outcome(None)->task->Command_0;
    lemma_decimal_solid(d);
    assert(rest[0] == name[0]);
    assert(rest.last() == decimal(d).last());
    let none = Seq::<char>::empty();
    lemma_trim(none, rest, none);
    assert(none + rest + none =~= rest);
    lemma_trim(none, name, none);
    assert(none + name + none =~= name);
    assert(admin.content.len() > "/channel_ban"@.len());
    assert(call.args == rest);
    lemma_bounds(0, 0, d as int, none);
    let author = message.outcome(Some(channel))->NeedBan_0;
    lemma_timed_ban(
        t,
        name,
        decimal(d),
        d as int,
        channel,
        call.username,
        admin.now as int,
        user,
        author,
    );
}

proof fn lemma_command_name()
    ensures
        "/channel_ban"@.len() > 0,
        "/channel_ban"@[0] == '/',
        forall|i: int| 0 <= i < "/channel_ban"@.len() ==> #[trigger] "/channel_ban"@[i] != ' ',
{
    reveal_strlit("/channel_ban");
}

/// The list of pending proposals has one line for each of them, in order: the text up to proposal `i`
/// is the text for those before it, and behind that the line with the identifier, the name, the icon
/// and the proposer of proposal `i`. The whole answer begins with it.
pub proof fn lemma_proposals_listed(ps: Seq<ProposalView>, i: int, channel: ChannelView)
    requires
        0 <= i < ps.len(),
    ensures
        ({
            let p = ps[i];
            let line = "- ID: "@ + p.id + ", Name: '"@ + p.name + "', Icon: '"@ + p.icon
                + "', Proposer: '"@ + p.proposer_username + "'\n"@;
            let before = if i == 0 {
                "Pending Channel Proposals:\n"@
            } else {
                proposals_answer(ps.take(i), channel)->Reply_0.content
            };
            let upto = proposals_answer(ps.take(i + 1), channel)->Reply_0.content;
            let all = proposals_answer(ps, channel)->Reply_0.content;
            &&& says(proposals_answer(ps, channel), all, "📝"@, channel)
            &&& upto == before + line
            &&& upto.len() <= all.len()
            &&& all.take(upto.len() as int) == upto
            &&& all.subrange(before.len() as int, upto.len() as int) == line
            &&& i == ps.len() - 1 ==> all == upto
            &&& exists|a: Seq<char>, b: Seq<char>| all == #[trigger] (a + p.id + b)
        }),
        says(
            proposals_answer(Seq::empty(), channel),
            "No pending channel proposals."@,
            "📝"@,
            channel,
        ),
{
    let p = ps[i];
    let head = "Pending Channel Proposals:\n"@;
    let t = ps.take(i + 1);
    assert(t.drop_last() =~= ps.take(i));
    assert(t.last() == p);
    let line = "- ID: "@ + p.id + ", Name: '"@ + p.name + "', Icon: '"@ + p.icon
        + "', Proposer: '"@ + p.proposer_username + "'\n"@;
    let short = proposal_lines(ps.take(i));
    assert(proposal_lines(t) == short + line);
    lemma_lines_grow(ps, i + 1);
    let more = proposal_lines(ps).skip((short + line).len() as int);
    lemma_within(head, short, line, more, proposal_lines(ps));
    assert(i == 0 ==> head + short =~= head);
    assert(ps.take(ps.len() as int) =~= ps);
    let tail = lemma_line(p);
    lemma_around(head + short, "- ID: "@, p.id, tail, more);
}

proof fn lemma_line(p: ProposalView) -> (tail: Seq<char>)
    ensures
        "- ID: "@ + p.id + ", Name: '"@ + p.name + "', Icon: '"@ + p.icon + "', Proposer: '"@
            + p.proposer_username + "'\n"@ == "- ID: "@ + p.id + tail,
{
    let tail = ", Name: '"@ + p.name + "', Icon: '"@ + p.icon + "', Proposer: '"@
        + p.proposer_username + "'\n"@;
    assert("- ID: "@ + p.id + ", Name: '"@ + p.name + "', Icon: '"@ + p.icon + "', Proposer: '"@
        + p.proposer_username + "'\n"@ =~= "- ID: "@ + p.id + tail);
    tail
}

proof fn lemma_within(
    head: Seq<char>,
    short: Seq<char>,
    line: Seq<char>,
    more: Seq<char>,
    lines: Seq<char>,
)
    requires
        (short + line).len() <= lines.len(),
        lines.take((short + line).len() as int) == short + line,
        more == lines.skip((short + line).len() as int),
    ensures
        head + (short + line) == head + short + line,
        head + lines == head + short + line + more,
        (head + lines).take((head + (short + line)).len() as int) == head + (short + line),
        (head + lines).subrange((head + short).len() as int, (head + (short + line)).len() as int)
            == line,
{
    assert(lines =~= short + line + more);
    assert(head + (short + line) =~= head + short + line);
    assert(head + lines =~= head + short + line + more);
}

proof fn lemma_around(
    before: Seq<char>,
    front: Seq<char>,
    id: Seq<char>,
    tail: Seq<char>,
    more: Seq<char>,
)
    ensures
        exists|a: Seq<char>, b: Seq<char>|
            before + (front + id + tail) + more == #[trigger] (a + id + b),
{
    let a = before + front;
    let b = tail + more;
    assert(before + (front + id + tail) + more =~= a + id + b);
}

proof fn lemma_lines_grow(ps: Seq<ProposalView>, k: int)
    requires
        0 <= k <= ps.len(),
    ensures
        proposal_lines(ps.take(k)).len() <= proposal_lines(ps).len(),
        proposal_lines(ps).take(proposal_lines(ps.take(k)).len() as int) == proposal_lines(
            ps.take(k),
        ),
    decreases ps.len() - k,
{
    if k == ps.len() {
        assert(ps.take(k) =~= ps);
        assert(proposal_lines(ps).take(proposal_lines(ps).len() as int) =~= proposal_lines(ps));
    } else {
        lemma_lines_grow(ps, k + 1);
        let t = ps.take(k + 1);
        assert(t.drop_last() =~= ps.take(k));
        let short = proposal_lines(ps.take(k));
        let long = proposal_lines(t);
        assert(long.take(short.len() as int) =~= short);
        assert(proposal_lines(ps).take(short.len() as int) =~= long.take(short.len() as int));
    }
}

/// An administrator's command on a user waits for that very user, and bans, demotes or bans from the
/// channel the one whom it names. One whom nobody knows is answered with the name, and a super
/// administrator with a refusal.
pub proof fn lemma_commands_on_users(
    target: Seq<char>,
    channel: ChannelView,
    username: Seq<char>,
    is_super: bool,
    now: int,
    user: UserView,
    minutes: Option<i64>,
    until: i64,
)
    ensures
        admin_step("/ban"@, target, channel, username, is_super, now) matches
            AdminStepView::NeedUser(w) && {
            let nobody = w.outcome(None);
            let effects = w.outcome(Some(user));
            &&& w.target == target
            &&& nobody.len() == 1
            &&& says(nobody[0], "User '"@ + target + "' not found."@, "💻"@, channel)
            &&& user.is_super_admin ==> effects.len() == 1 && says(
                effects[0],
                "Cannot globally ban a super admin."@,
                "🚫"@,
                channel,
            )
            &&& !user.is_super_admin ==> effects.len() == 2 && effects[0] == EffectView::Apply(
                ChangeView::BanUser { username: target },
            ) && says(
                effects[1],
                "User '"@ + target + "' has been GLOBALLY banned by admin '"@ + username + "'."@,
                "💻"@,
                channel,
            )
        },
        admin_step("/rm_admin"@, target, channel, username, is_super, now) matches
            AdminStepView::NeedUser(w) && {
            let nobody = w.outcome(None);
            let effects = w.outcome(Some(user));
            &&& w.target == target
            &&& nobody.len() == 1
            &&& says(nobody[0], "User '"@ + target + "' not found."@, "💻"@, channel)
            &&& user.is_super_admin ==> effects.len() == 1 && says(
                effects[0],
                "Cannot remove admin status from a super admin."@,
                "🚫"@,
                channel,
            )
            &&& !user.is_super_admin ==> effects.len() == 2 && effects[0] == EffectView::Apply(
                ChangeView::RemoveAdmin { username: target },
            ) && says(
                effects[1],
                "User '"@ + target + "' is no longer a global admin."@,
                "💻"@,
                channel,
            )
        },
        ({
            let w = AwaitingUserView {
                target,
                action: UserActionView::ChannelBan { minutes, until },
                channel,
            };
            let nobody = w.outcome(None);
            let effects = w.outcome(Some(user));
            &&& nobody.len() == 1
            &&& says(nobody[0], "User '"@ + target + "' not found."@, "💻"@, channel)
            &&& user.is_super_admin ==> effects.len() == 1 && says(
                effects[0],
                "Cannot ban a super admin from any channel."@,
                "🚫"@,
                channel,
            )
        }),
{
    lemma_name_marks();
}

/// What the commands without a look-up do, for the channel, the user or the mode that they name.
pub proof fn lemma_direct_commands(
    args: Seq<char>,
    channel: ChannelView,
    username: Seq<char>,
    is_super: bool,
    now: int,
)
    ensures
        admin_step("/meow_event"@, args, channel, username, is_super, now) matches
            AdminStepView::Done(effects) && effects.len() == 3 && effects[0] == EffectView::Cache(
            CacheView::SetNumber { key: "meow_mode"@, value: 1 },
        ) && effects[1] == EffectView::Cache(
            CacheView::Expire { key: "meow_mode"@, seconds: 300 },
        ) && says(
            effects[2],
            "Meow mode activated! Every message is now 'meow'."@,
            "🐈"@,
            channel,
        ),
        admin_step("/stop_meow"@, args, channel, username, is_super, now) matches
            AdminStepView::Done(effects) && effects.len() == 2 && effects[0] == EffectView::Cache(
            CacheView::Delete { key: "meow_mode"@ },
        ) && says(effects[1], "Meow mode deactivated."@, "🐈"@, channel),
        admin_step("/delete_channel"@, args, channel, username, is_super, now) matches
            AdminStepView::Done(effects) && effects.len() == 4 && effects[0] == EffectView::Apply(
            ChangeView::DeleteChannelBans { channel_id: args },
        ) && effects[1] == EffectView::Apply(ChangeView::DeleteChannel { channel_id: args })
            && says(
            effects[2],
            "Channel '"@ + args + "' and its related data deleted."@,
            "💻"@,
            channel,
        ) && effects[3] == EffectView::SendText("/channel_delete "@ + args),
        admin_step("/channel_unban"@, args, channel, username, true, now) matches
            AdminStepView::Done(effects) && effects.len() == 2 && effects[0] == EffectView::Apply(
            ChangeView::DeleteChannelBan { channel_id: channel.id, username: args },
        ) && says(
            effects[1],
            "User '"@ + args + "' has been unbanned from channel '"@ + channel.name + "'."@,
            "💻"@,
            channel,
        ),
{
    lemma_name_marks();
}

/// What is kept for super administrators is refused to others, each command in its own words.
pub proof fn lemma_refusals(
    args: Seq<char>,
    channel: ChannelView,
    username: Seq<char>,
    now: int,
)
    ensures
        admin_step("/list_proposals"@, args, channel, username, false, now) matches
            AdminStepView::Done(effects) && effects.len() == 1 && says(
            effects[0],
            "You do not have permission to list proposals."@,
            "🚫"@,
            channel,
        ),
        admin_step("/approve_channel"@, args, channel, username, false, now) matches
            AdminStepView::Done(effects) && effects.len() == 1 && says(
            effects[0],
            "You do not have permission to approve channels."@,
            "🚫"@,
            channel,
        ),
        admin_step("/reject_channel"@, args, channel, username, false, now) matches
            AdminStepView::Done(effects) && effects.len() == 1 && says(
            effects[0],
            "You do not have permission to reject channels."@,
            "🚫"@,
            channel,
        ),
        admin_step("/channel_ban"@, args, channel, username, false, now) matches
            AdminStepView::Done(effects) && effects.len() == 1 && says(
            effects[0],
            "You do not have permission to ban users from channels."@,
            "🚫"@,
            channel,
        ),
        admin_step("/channel_unban"@, args, channel, username, false, now) matches
            AdminStepView::Done(effects) && effects.len() == 1 && says(
            effects[0],
            "You do not have permission to unban users from channels."@,
            "🚫"@,
            channel,
        ),
{
    lemma_name_marks();
}

/// A decision is made on the proposal with the identifier that the command names, if it is pending.
/// Approving makes a channel with the proposal's identifier, name and icon, and tells everyone;
/// rejecting makes none.
pub proof fn lemma_decisions(
    id: Seq<char>,
    channel: ChannelView,
    username: Seq<char>,
    now: int,
    p: ProposalView,
    approve: bool,
)
    ensures
        admin_step("/list_proposals"@, id, channel, username, true, now)
            == AdminStepView::NeedProposals(channel),
        admin_step(
            if approve {
                "/approve_channel"@
            } else {
                "/reject_channel"@
            },
            id,
            channel,
            username,
            true,
            now,
        ) matches AdminStepView::NeedProposal(w) && {
            let nothing = w.outcome(None);
            let effects = w.outcome(Some(p));
            &&& w.id == id
            &&& nothing.len() == 1
            &&& says(nothing[0], "Channel proposal '"@ + id + "' not found."@, "🚫"@, channel)
            &&& p.status != "PENDING"@ ==> effects.len() == 1 && says(
                effects[0],
                "This proposal is not in PENDING status."@,
                "🚫"@,
                channel,
            )
            &&& p.status == "PENDING"@ && approve ==> {
                &&& effects.len() == 4
                &&& effects[0] matches EffectView::Apply(ChangeView::AddChannel(c)) && c.id == p.id
                    && c.name == p.name && c.icon == p.icon
                &&& effects[1] == EffectView::Apply(ChangeView::ApproveProposal { id: p.id })
                &&& says(
                    effects[2],
                    "Channel '"@ + p.name + "' (ID: "@ + p.id
                        + ") has been APPROVED and is now active."@,
                    "✅"@,
                    channel,
                )
                &&& effects[3] matches EffectView::Cache(
                    CacheView::PublishChannel { topic, channel: c },
                ) && topic == "channel_updates"@ && c.id == p.id && c.name == p.name && c.icon
                    == p.icon
            }
            &&& p.status == "PENDING"@ && !approve ==> {
                &&& effects.len() == 2
                &&& effects[0] == EffectView::Apply(ChangeView::RejectProposal { id: p.id })
                &&& says(
                    effects[1],
                    "Channel proposal '"@ + p.name + "' (ID: "@ + p.id + ") has been REJECTED."@,
                    "❌"@,
                    channel,
                )
            }
        },
{
    lemma_name_marks();
}

} // verus!
