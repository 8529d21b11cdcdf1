//! What commands do when they are run.

use vstd::prelude::*;
use crate::cache::CacheCommand;
use crate::commands::admin::admin_command_at;
use crate::commands::admin::AdminStep;
use crate::commands::admin::AwaitingProposal;
use crate::commands::admin::AwaitingUser;
use crate::commands::lemma_name_marks;
use crate::commands::user::Chance;
use crate::commands::user::UserStep;
use crate::effect::Effect;
use crate::laws::calculator::lemma_dice_asked;
use crate::laws::operations::replies;
use crate::laws::session::lemma_unknown_command;
use crate::laws::texts::lemma_cut;
use crate::models::Channel;
use crate::models::ChannelBanInfo;
use crate::models::ChannelProposal;
use crate::models::User;
use crate::number::decimal;
use crate::outside::hyphenated;
use crate::outside::lower_case;
use crate::outside::random_identifier;
use crate::outside::LATEST_SECOND;
use crate::store::Change;
use crate::utils::parse_and_roll_dice;
use crate::utils::parse_dice;
use crate::utils::rolls_answer;
use crate::utils::show_rolls;
use crate::utils::DiceRequest;
use crate::ws::AwaitingBan;
use crate::ws::AwaitingChannel;
use crate::ws::BanTurn;
use crate::ws::ChannelTurn;
use crate::ws::CommandCall;
use crate::ws::CommandStep;

verus! {

/// The effects in a list are those that its view shows, one for one.
pub proof fn lemma_entries(r: Vec<Effect>)
    ensures
        r@.len() == r.deep_view().len(),
        forall|i: int| 0 <= i < r@.len() ==> (#[trigger] r@[i]).deep_view() == r.deep_view()[i],
{
}

/// An echo answers with the arguments in full, a calculation waits for them in full, and an unknown
/// command is answered with the whole message.
pub proof fn lemma_run(call: CommandCall, r: CommandStep)
    requires
        call_ensures(CommandCall::run, (call,), r),
    ensures
        call.command@ == "/echo"@ ==> (r matches CommandStep::User(UserStep::Done(effects))
            && effects@.len() == 1 && replies(effects@[0], call.args@, "🗣️"@, call.channel)),
        call.command@ == "/calc"@ ==> (r matches CommandStep::User(UserStep::NeedArithmetic(w))
            && w.expression@ == call.args@ && w.channel.id@ == call.channel.id@ && w.channel.name@
            == call.channel.name@ && w.channel.icon@ == call.channel.icon@),
        call.command@ == "/get_active_users"@ ==> (r matches CommandStep::User(
            UserStep::NeedActiveUsers(w),
        ) && w.key@ == "active_users"@),
        r matches CommandStep::Unknown(effects) ==> effects@.len() == 1 && replies(
            effects@[0],
            "Unknown command or insufficient permissions: '"@ + call.content@
                + "'. Type /help for a list of commands."@,
            "💻"@,
            call.channel,
        ),
{
    lemma_name_marks();
    let (chance, now) = choose|chance: Chance, now: int|
        chance.possible(call.command@, call.args@) && 0 <= now <= LATEST_SECOND && r.deep_view()
            == #[trigger] call.deep_view().step(chance, now);
    lemma_unknown_command(call.deep_view(), chance, now);
    if let CommandStep::Unknown(effects) = r {
        lemma_entries(effects);
        assert(effects@[0].deep_view() == effects.deep_view()[0]);
    }
    if let CommandStep::User(UserStep::Done(effects)) = r {
        lemma_entries(effects);
    }
}

/// `/roll NdM` answers with N rolls between 1 and M and their sum, or with what is wrong; the case of
/// the letter does not matter where lower case gives the same text.
pub proof fn lemma_run_roll(call: CommandCall, r: CommandStep, n: nat, m: nat)
    requires
        call_ensures(CommandCall::run, (call,), r),
        call.command@ == "/roll"@,
        lower_case(call.args@) == decimal(n) + seq!['d'] + decimal(m),
    ensures
        r matches CommandStep::User(UserStep::Done(effects)) && effects@.len() == 1 && {
            let said = effects@[0]->Reply_0.content@;
            &&& replies(effects@[0], said, "🎲"@, call.channel)
            &&& 1 <= n <= 100 && 1 <= m <= 1000 ==> exists|rolls: Seq<u32>|
                rolls.len() == n && (forall|i: int|
                    0 <= i < rolls.len() ==> 1 <= #[trigger] rolls[i] <= m) && said == "Roll: "@
                    + #[trigger] rolls_answer(rolls)
            &&& (n == 0 && m <= 0xFFFF_FFFF) || (m == 0 && n <= 0xFFFF_FFFF) ==> said == "Roll: "@
                + "Error: Number of dice or sides cannot be zero."@
            &&& 1 <= n <= 0xFFFF_FFFF && 1 <= m <= 0xFFFF_FFFF && (n > 100 || m > 1000) ==> said
                == "Roll: "@ + "Error: Too many dice or sides. Max 100d1000."@
            &&& n > 0xFFFF_FFFF || m > 0xFFFF_FFFF ==> said == "Roll: "@
                + "Error: Invalid dice format. Use 'NdM' (e.g., 2d6)"@
        },
{
    lemma_name_marks();
    let (chance, now) = choose|chance: Chance, now: int|
        chance.possible(call.command@, call.args@) && 0 <= now <= LATEST_SECOND && r.deep_view()
            == #[trigger] call.deep_view().step(chance, now);
    let none = Seq::<char>::empty();
    lemma_dice_asked(n, m, none, none, none);
    crate::laws::calculator::lemma_dice_answered(
        lower_case(call.args@),
        chance.dice,
        call.channel.deep_view(),
    );
    let effects = r->User_0->Done_0;
    lemma_entries(effects);
    assert(effects@[0].deep_view() == effects.deep_view()[0]);
    let said = effects@[0]->Reply_0.content@;
    assert(said == "Roll: "@ + chance.dice);
    if 1 <= n <= 100 && 1 <= m <= 1000 {
        let rolls = choose|rolls: Seq<u32>|
            rolls.len() == n && (forall|i: int|
                0 <= i < rolls.len() ==> 1 <= #[trigger] rolls[i] <= m) && chance.dice
                == #[trigger] rolls_answer(rolls);
        assert(said == "Roll: "@ + rolls_answer(rolls));
    }
}

/// Rolling dice gives as many rolls as the text in lower case asks for, each between 1 and the sides,
/// and their sum.
pub proof fn lemma_rolling(
    input: &str,
    lower: &str,
    r: String,
    asked: DiceRequest,
    rolls: Vec<u32>,
    text: String,
)
    requires
        call_ensures(parse_and_roll_dice, (input,), r),
        call_ensures(show_rolls, (&rolls,), text),
        lower@ == lower_case(input@),
        call_ensures(parse_dice, (lower,), asked),
    ensures
        text@ == rolls_answer(rolls@),
        asked matches DiceRequest::Roll { dice, sides } ==> exists|given: Seq<u32>|
            given.len() == dice && (forall|i: int|
                0 <= i < given.len() ==> 1 <= #[trigger] given[i] <= sides) && r@
                == #[trigger] rolls_answer(given),
        asked is Malformed ==> r@ == "Error: Invalid dice format. Use 'NdM' (e.g., 2d6)"@,
        asked is Zero ==> r@ == "Error: Number of dice or sides cannot be zero."@,
        asked is TooMany ==> r@ == "Error: Too many dice or sides. Max 100d1000."@,
{
    if let DiceRequest::Roll { dice, sides } = asked {
        let given = choose|given: Seq<u32>|
            crate::utils::can_roll(given, dice, sides) && r@ == #[trigger] rolls_answer(given);
        assert(given.len() == dice);
    }
}

/// A proposal that is run is stored with the name before the first space and the icon behind it, for
/// the user who made it, pending, under a new identifier, and at a second of the clock.
pub proof fn lemma_run_propose(
    call: CommandCall,
    r: CommandStep,
    name: Seq<char>,
    icon: Seq<char>,
)
    requires
        call_ensures(CommandCall::run, (call,), r),
        call.command@ == "/propose_channel"@,
        call.args@ == name + seq![' '] + icon,
        forall|i: int| 0 <= i < name.len() ==> #[trigger] name[i] != ' ',
    ensures
        r matches CommandStep::User(UserStep::Done(effects)) && {
            let p = effects@[0]->Apply_0->AddProposal_0;
            &&& effects@.len() == 2
            &&& effects@[0] is Apply && effects@[0]->Apply_0 is AddProposal
            &&& p.name@ == name
            &&& p.icon@ == icon
            &&& p.proposer_username@ == call.username@
            &&& p.status@ == "PENDING"@
            &&& 0 <= p.timestamp <= LATEST_SECOND
            &&& exists|id: u128| random_identifier(id) && p.id@ == #[trigger] hyphenated(id)
            &&& replies(
                effects@[1],
                "Channel proposal '"@ + name + "' (ID: "@ + p.id@
                    + ") submitted for review. Please wait for a super-admin to approve it."@,
                "📝"@,
                call.channel,
            )
        },
{
    lemma_name_marks();
    lemma_cut(name, ' ', icon);
    let (chance, now) = choose|chance: Chance, now: int|
        chance.possible(call.command@, call.args@) && 0 <= now <= LATEST_SECOND && r.deep_view()
            == #[trigger] call.deep_view().step(chance, now);
    let effects = r->User_0->Done_0;
    lemma_entries(effects);
    assert(effects@[0].deep_view() == effects.deep_view()[0]);
    assert(effects@[1].deep_view() == effects.deep_view()[1]);
    assert(random_identifier(chance.id));
    assert(effects@[0]->Apply_0->AddProposal_0.id@ == hyphenated(chance.id));
}

/// A command on a user looks up the very user that it names, and is carried out on that user.
pub proof fn lemma_run_on_user(
    command: &str,
    args: &str,
    channel: Channel,
    username: &str,
    is_super: bool,
    now: i64,
    step: AdminStep,
    user: User,
    unknown: Vec<Effect>,
    r: Vec<Effect>,
)
    requires
        command@ == "/ban"@ || command@ == "/rm_admin"@,
        call_ensures(admin_command_at, (command, args, &channel, username, is_super, now), step),
        step matches AdminStep::NeedUser(w) ==> call_ensures(
            AwaitingUser::resume,
            (w, None),
            unknown,
        ) && call_ensures(AwaitingUser::resume, (w, Some(user)), r),
    ensures
        step is NeedUser,
        step->NeedUser_0.target@ == args@,
        unknown@.len() == 1 && replies(
            unknown@[0],
            "User '"@ + args@ + "' not found."@,
            "💻"@,
            channel,
        ),
        user.is_super_admin ==> r@.len() == 1 && replies(
            r@[0],
            if command@ == "/ban"@ {
                "Cannot globally ban a super admin."@
            } else {
                "Cannot remove admin status from a super admin."@
            },
            "🚫"@,
            channel,
        ),
        !user.is_super_admin && command@ == "/ban"@ ==> r@.len() == 2 && (r@[0] matches
            Effect::Apply(Change::BanUser { username: target }) && target@ == args@) && replies(
            r@[1],
            "User '"@ + args@ + "' has been GLOBALLY banned by admin '"@ + username@ + "'."@,
            "💻"@,
            channel,
        ),
        !user.is_super_admin && command@ == "/rm_admin"@ ==> r@.len() == 2 && (r@[0] matches
            Effect::Apply(Change::RemoveAdmin { username: target }) && target@ == args@) && replies(
            r@[1],
            "User '"@ + args@ + "' is no longer a global admin."@,
            "💻"@,
            channel,
        ),
{
    lemma_name_marks();
    lemma_entries(unknown);
    lemma_entries(r);
    assert(Some(user).deep_view() == Some(user.deep_view()));
    assert(None::<User>.deep_view() == None::<crate::models::UserView>);
}

/// A decision on a proposal makes a channel of exactly what the proposal says, or rejects it.
pub proof fn lemma_run_decision(
    approve: bool,
    command: &str,
    args: &str,
    channel: Channel,
    username: &str,
    now: i64,
    step: AdminStep,
    p: ChannelProposal,
    r: Vec<Effect>,
)
    requires
        command@ == if approve {
            "/approve_channel"@
        } else {
            "/reject_channel"@
        },
        call_ensures(admin_command_at, (command, args, &channel, username, true, now), step),
        step matches AdminStep::NeedProposal(w) ==> call_ensures(
            AwaitingProposal::resume,
            (w, Some(p)),
            r,
        ),
    ensures
        step is NeedProposal,
        step->NeedProposal_0.id@ == args@,
        p.status@ != "PENDING"@ ==> r@.len() == 1 && replies(
            r@[0],
            "This proposal is not in PENDING status."@,
            "🚫"@,
            channel,
        ),
        p.status@ == "PENDING"@ && approve ==> {
            &&& r@.len() == 4
            &&& r@[0] matches Effect::Apply(Change::AddChannel(c)) && c.id@ == p.id@ && c.name@
                == p.name@ && c.icon@ == p.icon@
            &&& r@[1] matches Effect::Apply(Change::ApproveProposal { id }) && id@ == p.id@
            &&& replies(
                r@[2],
                "Channel '"@ + p.name@ + "' (ID: "@ + p.id@
                    + ") has been APPROVED and is now active."@,
                "✅"@,
                channel,
            )
            &&& r@[3] matches Effect::Cache(CacheCommand::PublishChannel { topic, channel: c })
                && topic@ == "channel_updates"@ && c.id@ == p.id@ && c.name@ == p.name@ && c.icon@
                == p.icon@
        },
        p.status@ == "PENDING"@ && !approve ==> {
            &&& r@.len() == 2
            &&& r@[0] matches Effect::Apply(Change::RejectProposal { id }) && id@ == p.id@
            &&& replies(
                r@[1],
                "Channel proposal '"@ + p.name@ + "' (ID: "@ + p.id@ + ") has been REJECTED."@,
                "❌"@,
                channel,
            )
        },
{
    lemma_name_marks();
    lemma_entries(r);
    assert(Some(p).deep_view() == Some(p.deep_view()));
}

/// A banned user is refused with an answer while muted, and is else muted for half an hour more.
pub proof fn lemma_run_banned(
    waiting: AwaitingChannel,
    channel: Channel,
    turn: ChannelTurn,
)
    requires
        call_ensures(AwaitingChannel::resume, (waiting, Some(channel)), turn),
        waiting.now + 30 * 60 <= 0x7fff_ffff_ffff_ffff,
    ensures
        turn is Refused <==> waiting.user.is_banned && !waiting.user.is_super_admin,
        turn matches ChannelTurn::NeedBan(next) ==> next.username@ == waiting.username@
            && next.content@ == waiting.content@ && next.now == waiting.now && next.user.icon@
            == waiting.user.icon@ && next.channel.id@ == channel.id@,
        turn matches ChannelTurn::Refused(r) ==> {
            let muted = match waiting.user.ban_mute_until {
                Some(until) => until > waiting.now,
                None => 0 > waiting.now,
            };
            &&& muted ==> r@.len() == 1 && replies(
                r@[0],
                "You are currently globally banned and cannot send messages."@,
                "⛔"@,
                channel,
            )
            &&& !muted ==> r@.len() == 2 && (r@[0] matches Effect::Apply(
                Change::MuteUser { username, until },
            ) && username@ == waiting.username@ && until == waiting.now + 30 * 60) && replies(
                r@[1],
                "User '"@ + waiting.username@
                    + "' (globally banned) tried to send a message. Global mute extended."@,
                "⛔"@,
                channel,
            )
        },
{
    assert(Some(channel).deep_view() == Some(channel.deep_view()));
    if let ChannelTurn::Refused(r) = turn {
        lemma_entries(r);
    }
}

/// A ban from a channel refuses messages before its end, or for good if the end is 0; from its end on
/// it is deleted and the message goes on as without a ban.
pub proof fn lemma_run_channel_ban(
    waiting: AwaitingBan,
    until: i64,
    turn: BanTurn,
    free: BanTurn,
)
    requires
        call_ensures(
            AwaitingBan::resume,
            (waiting, Some(ChannelBanInfo { ban_mute_until: Some(until) })),
            turn,
        ),
        call_ensures(AwaitingBan::resume, (waiting, None), free),
    ensures
        turn is Refused <==> until == 0 || waiting.now < until,
        turn matches BanTurn::Refused(r) ==> r@.len() == 1 && replies(
            r@[0],
            "You are banned from this channel."@,
            "⛔"@,
            waiting.channel,
        ),
        turn matches BanTurn::Admitted { effects: r, task } ==> {
            &&& r@.len() == 2
            &&& r@[0] matches Effect::Apply(Change::DeleteChannelBan { channel_id, username })
                && channel_id@ == waiting.channel.id@ && username@ == waiting.username@
            &&& replies(
                r@[1],
                "Your ban in channel '"@ + waiting.channel.name@ + "' has expired."@,
                "✅"@,
                waiting.channel,
            )
            &&& free is Admitted && free->effects@.len() == 0
            &&& free->task.deep_view() == task.deep_view()
        },
{
    if let BanTurn::Refused(r) = turn {
        lemma_entries(r);
    }
    if let BanTurn::Admitted { effects: r, task } = turn {
        lemma_entries(r);
        lemma_entries(free->effects);
    }
}

} // verus!
