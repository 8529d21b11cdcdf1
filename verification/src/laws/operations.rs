//! What the server does with what a user sends, from call to call.

use vstd::prelude::*;
use crate::cache::CacheCommand;
use crate::commands::admin::admin_command_at;
use crate::commands::admin::AdminStep;
use crate::commands::admin::AwaitingProposals;
use crate::commands::admin::AwaitingUser;
use crate::commands::user::AwaitingArithmetic;
use crate::effect::Effect;
use crate::laws::admin::lemma_proposals_listed;
use crate::laws::calculator::lemma_operation_answered;
use crate::laws::calls::lemma_entries;
use crate::laws::texts::lemma_bounds;
use crate::laws::texts::lemma_cut;
use crate::laws::texts::lemma_trim;
use crate::message::server_reply;
use crate::message::text_message;
use crate::message::BroadcastMessage;
use crate::message::Reply;
use crate::models::Channel;
use crate::models::ChannelBanInfo;
use crate::models::ChannelProposal;
use crate::models::User;
use crate::number::signed_decimal;
use crate::store::Change;
use crate::text::white_space;
use crate::utils::calculations;
use crate::utils::calculations_with;
use crate::utils::is_arithmetic;
use crate::utils::operators;
use crate::utils::parse_and_calculate;
use crate::utils::Calculation;
use crate::utils::CalculationView;
use crate::utils::Reading;
use crate::utils::ReadingView;
use crate::ws::receive;
use crate::ws::AwaitingBan;
use crate::ws::AwaitingChannel;
use crate::ws::AwaitingMeow;
use crate::ws::BanTurn;
use crate::ws::ChannelTurn;
use crate::ws::ClientWsMessage;
use crate::ws::Frame;
use crate::ws::Received;
use crate::ws::Task;

verus! {

/// Whether a message is this text of this user, sent at this second in this channel, and nothing more.
pub open spec fn carries(
    m: BroadcastMessage,
    user: Seq<char>,
    icon: Seq<char>,
    content: Seq<char>,
    timestamp: i64,
    channel: Channel,
) -> bool {
    &&& m.user@ == user
    &&& m.icon@ == icon
    &&& m.content@ == content
    &&& m.timestamp == timestamp
    &&& m.channel_id@ == channel.id@
    &&& m.channel_name@ == channel.name@
    &&& m.channel_icon@ == channel.icon@
    &&& m.message_type@ == "text"@
    &&& m.file_name is None
    &&& m.file_extension is None
    &&& m.file_icon is None
    &&& m.file_size_bytes is None
    &&& m.is_image is None
    &&& m.image_preview is None
    &&& m.file_id is None
    &&& m.download_url is None
    &&& m.download_progress is None
}

/// Whether an effect answers the client with this text and icon, in this channel.
pub open spec fn replies(
    effect: Effect,
    content: Seq<char>,
    icon: Seq<char>,
    channel: Channel,
) -> bool {
    &&& effect is Reply
    &&& effect->Reply_0.content@ == content
    &&& effect->Reply_0.icon@ == icon
    &&& effect->Reply_0.channel.id@ == channel.id@
    &&& effect->Reply_0.channel.name@ == channel.name@
    &&& effect->Reply_0.channel.icon@ == channel.icon@
}

/// A text message carries the text it is made of, character for character, and the answers that
/// clients receive carry the answer's.
pub proof fn lemma_messages_carry(
    user: String,
    icon: String,
    content: String,
    timestamp: i64,
    channel: Channel,
    m: BroadcastMessage,
    reply: Reply,
    s: BroadcastMessage,
)
    requires
        call_ensures(text_message, (user, icon, content, timestamp, &channel), m),
        call_ensures(server_reply, (&reply, timestamp), s),
    ensures
        carries(m, user@, icon@, content@, timestamp, channel),
        carries(s, "server"@, reply.icon@, reply.content@, timestamp, reply.channel),
{
    lemma_fields(m);
    lemma_fields(s);
}

proof fn lemma_fields(m: BroadcastMessage)
    ensures
        m.deep_view().file_name is None <==> m.file_name is None,
        m.deep_view().file_extension is None <==> m.file_extension is None,
        m.deep_view().file_icon is None <==> m.file_icon is None,
        m.deep_view().image_preview is None <==> m.image_preview is None,
        m.deep_view().file_id is None <==> m.file_id is None,
        m.deep_view().download_url is None <==> m.download_url is None,
{
}

/// What a user writes in a text frame arrives as it was written. Where the user is neither silenced
/// nor banned from the channel, the text is no command and the meow mode is off, the message that is
/// stored in the channel's history and the one that is published to the channel both have the text in
/// full as their content, with the user's name and icon, the second and the channel.
pub proof fn lemma_frame_delivered(
    text: String,
    decoded: Option<ClientWsMessage>,
    content: Seq<char>,
    username: &str,
    user: User,
    now: i64,
    received: Received,
    channel: Channel,
    turn: ChannelTurn,
    next: BanTurn,
    meow_mode: i64,
    r: Vec<Effect>,
)
    requires
        decoded is None ==> content == text@,
        decoded matches Some(ClientWsMessage::Text(t)) ==> content == t@,
        decoded matches Some(ClientWsMessage::ChannelCommand { content: t, channel_id }) ==> content
            == t@,
        call_ensures(receive, (Frame::Text { text, decoded }, username, user, now), received),
        received matches Received::NeedChannel(w) ==> call_ensures(
            AwaitingChannel::resume,
            (w, Some(channel)),
            turn,
        ),
        turn matches ChannelTurn::NeedBan(w) ==> call_ensures(AwaitingBan::resume, (w, None), next),
        next matches BanTurn::Admitted { effects, task: Task::Chat(w) } ==> call_ensures(
            AwaitingMeow::resume,
            (w, meow_mode),
            r,
        ),
        !user.is_banned || user.is_super_admin,
        content.len() == 0 || content[0] != '/',
    ensures
        received is NeedChannel,
        received->NeedChannel_0.channel_id@ == match decoded {
            Some(ClientWsMessage::ChannelCommand { content: t, channel_id }) => channel_id@,
            _ => "home"@,
        },
        turn is NeedBan,
        next is Admitted && next->effects@.len() == 0 && next->task is Chat,
        r@.len() == 3,
        r@[0] matches Effect::Cache(CacheCommand::Push { key, message: m }) && key@
            == "chat_history:"@ + channel.id@ && carries(
            m,
            username@,
            user.icon@,
            if meow_mode == 1 {
                "meow"@
            } else {
                content
            },
            now,
            channel,
        ),
        r@[1] matches Effect::Cache(CacheCommand::Trim { key, start, stop }) && key@
            == "chat_history:"@ + channel.id@ && start == -500 && stop == -1,
        r@[2] matches Effect::Cache(CacheCommand::Publish { topic, message: m }) && topic@
            == "chat:"@ + channel.id@ && carries(
            m,
            username@,
            user.icon@,
            if meow_mode == 1 {
                "meow"@
            } else {
                content
            },
            now,
            channel,
        ),
{
    assert(decoded.deep_view() is Some <==> decoded is Some);
    let w = received->NeedChannel_0;
    assert(w.content@ == content);
    let b = turn->NeedBan_0;
    assert(Some(channel).deep_view() == Some(channel.deep_view()));
    assert(b.content@ == content);
    assert(next->effects.deep_view().len() == 0);
    let c = next->task->Chat_0;
    assert(c.content@ == content);
    lemma_entries(r);
    lemma_three(c, meow_mode, r);
}

proof fn lemma_three(c: AwaitingMeow, meow_mode: i64, r: Vec<Effect>)
    requires
        call_ensures(AwaitingMeow::resume, (c, meow_mode), r),
    ensures
        ({
            let content = if meow_mode == 1 {
                "meow"@
            } else {
                c.content@
            };
            &&& r@.len() == 3
            &&& r@[0] matches Effect::Cache(CacheCommand::Push { key, message: m }) && key@
                == "chat_history:"@ + c.channel.id@ && carries(
                m,
                c.username@,
                c.icon@,
                content,
                c.now,
                c.channel,
            )
            &&& r@[1] matches Effect::Cache(CacheCommand::Trim { key, start, stop }) && key@
                == "chat_history:"@ + c.channel.id@ && start == -500 && stop == -1
            &&& r@[2] matches Effect::Cache(CacheCommand::Publish { topic, message: m }) && topic@
                == "chat:"@ + c.channel.id@ && carries(
                m,
                c.username@,
                c.icon@,
                content,
                c.now,
                c.channel,
            )
        }),
{
    lemma_entries(r);
    assert(r.deep_view().len() == 3);
    assert(r@[0].deep_view() == r.deep_view()[0]);
    assert(r@[1].deep_view() == r.deep_view()[1]);
    assert(r@[2].deep_view() == r.deep_view()[2]);
    lemma_fields(r@[0]->Cache_0->Push_message);
    lemma_fields(r@[2]->Cache_0->Publish_message);
}

/// After `/channel_ban <name> <d>` at second `now` by a super administrator, on a user who is none, the
/// target's message in that channel at second `s` is refused exactly if `s < now + 60 * d`, for every
/// `d` of at least 1 for which that second is a 64-bit number.
pub proof fn lemma_ban_lasts(
    command: &str,
    args: &str,
    name: Seq<char>,
    d: int,
    channel: Channel,
    username: &str,
    now: i64,
    step: AdminStep,
    user: User,
    effects: Vec<Effect>,
    message: AwaitingBan,
    until: i64,
    turn: BanTurn,
)
    requires
        command@ == "/channel_ban"@,
        args@ == name + seq![' '] + signed_decimal(d),
        forall|i: int| 0 <= i < name.len() ==> !white_space(#[trigger] name[i]),
        1 <= d,
        0 <= now,
        now + 60 * d <= 0x7fff_ffff_ffff_ffff,
        !user.is_super_admin,
        call_ensures(admin_command_at, (command, args, &channel, username, true, now), step),
        step matches AdminStep::NeedUser(w) ==> call_ensures(
            AwaitingUser::resume,
            (w, Some(user)),
            effects,
        ),
        effects@[0] matches Effect::Apply(
            Change::PutChannelBan { channel_id, username: target, until: u },
        ) ==> until == u,
        call_ensures(
            AwaitingBan::resume,
            (message, Some(ChannelBanInfo { ban_mute_until: Some(until) })),
            turn,
        ),
    ensures
        step is NeedUser,
        effects@.len() == 2,
        effects@[0] matches Effect::Apply(
            Change::PutChannelBan { channel_id, username: target, until: u },
        ) && channel_id@ == channel.id@ && target@ == name && u == now + 60 * d,
        replies(
            effects@[1],
            "User '"@ + name + "' has been banned from channel '"@ + channel.name@ + "' "@ + (
            "for "@ + signed_decimal(d) + " minutes"@) + "."@,
            "💻"@,
            channel,
        ),
        turn is Refused <==> message.now < now + 60 * d,
{
    crate::commands::lemma_name_marks();
    assert(white_space(' '));
    assert(forall|i: int| 0 <= i < name.len() ==> #[trigger] name[i] != ' ');
    lemma_cut(name, ' ', signed_decimal(d));
    let none = Seq::<char>::empty();
    lemma_trim(none, name, none);
    assert(none + name + none =~= name);
    lemma_bounds(0, 0, d, none);
    lemma_entries(effects);
    assert(Some(user).deep_view() == Some(user.deep_view()));
    assert(effects.deep_view().len() == 2);
    assert(effects@[0].deep_view() == effects.deep_view()[0]);
    assert(effects@[1].deep_view() == effects.deep_view()[1]);
}

/// How the lists of pending proposals of two calls relate: with one more proposal at the end the text
/// is that of the shorter list and behind it one line, with the identifier, the name, the icon and the
/// proposer of that proposal. A list of none says so.
pub proof fn lemma_list_grows(
    first: AwaitingProposals,
    second: AwaitingProposals,
    shorter: Vec<ChannelProposal>,
    longer: Vec<ChannelProposal>,
    p: ChannelProposal,
    r: Vec<Effect>,
    s: Vec<Effect>,
)
    requires
        call_ensures(AwaitingProposals::resume, (first, shorter), r),
        call_ensures(AwaitingProposals::resume, (second, longer), s),
        longer@ == shorter@.push(p),
    ensures
        r@.len() == 1,
        s@.len() == 1,
        shorter@.len() == 0 ==> replies(
            r@[0],
            "No pending channel proposals."@,
            "📝"@,
            first.channel,
        ),
        replies(
            s@[0],
            (if shorter@.len() == 0 {
                "Pending Channel Proposals:\n"@
            } else {
                r@[0]->Reply_0.content@
            }) + ("- ID: "@ + p.id@ + ", Name: '"@ + p.name@ + "', Icon: '"@ + p.icon@
                + "', Proposer: '"@ + p.proposer_username@ + "'\n"@),
            "📝"@,
            second.channel,
        ),
{
    let ps = longer.deep_view();
    let i = shorter@.len() as int;
    lemma_proposals_listed(ps, i, second.channel.deep_view());
    assert(shorter.deep_view() =~= ps.take(i));
    assert(ps.take(i + 1) =~= ps);
    assert(ps[i] == p.deep_view());
    lemma_entries(r);
    lemma_entries(s);
    assert(r.deep_view().len() == 1 && s.deep_view().len() == 1);
    assert(r@[0].deep_view() == r.deep_view()[0]);
    assert(s@[0].deep_view() == s.deep_view()[0]);
}

/// Every pending proposal is listed: line `i` of the answer is that of proposal `i`, between the lines
/// of the proposals before it and those of the proposals behind it, so that the identifier of each
/// occurs in the answer.
pub proof fn lemma_all_listed(
    waiting: AwaitingProposals,
    first: AwaitingProposals,
    proposals: Vec<ChannelProposal>,
    shorter: Vec<ChannelProposal>,
    i: int,
    r: Vec<Effect>,
    s: Vec<Effect>,
)
    requires
        call_ensures(AwaitingProposals::resume, (waiting, proposals), r),
        call_ensures(AwaitingProposals::resume, (first, shorter), s),
        0 <= i < proposals@.len(),
        shorter@ == proposals@.take(i),
    ensures
        r@.len() == 1,
        s@.len() == 1,
        ({
            let p = proposals@[i];
            let line = "- ID: "@ + p.id@ + ", Name: '"@ + p.name@ + "', Icon: '"@ + p.icon@
                + "', Proposer: '"@ + p.proposer_username@ + "'\n"@;
            let all = r@[0]->Reply_0.content@;
            let start = if i == 0 {
                "Pending Channel Proposals:\n"@.len()
            } else {
                s@[0]->Reply_0.content@.len()
            };
            &&& replies(r@[0], all, "📝"@, waiting.channel)
            &&& start + line.len() <= all.len()
            &&& all.subrange(start as int, start + line.len() as int) == line
            &&& i == proposals@.len() - 1 ==> all.len() == start + line.len()
            &&& exists|a: Seq<char>, b: Seq<char>| all == #[trigger] (a + p.id@ + b)
        }),
{
    let ps = proposals.deep_view();
    let channel = waiting.channel.deep_view();
    lemma_proposals_listed(ps, i, channel);
    assert(shorter.deep_view() =~= ps.take(i));
    assert(ps[i] == proposals@[i].deep_view());
    lemma_entries(r);
    lemma_entries(s);
    assert(r.deep_view().len() == 1 && s.deep_view().len() == 1);
    assert(r@[0].deep_view() == r.deep_view()[0]);
    assert(s@[0].deep_view() == s.deep_view()[0]);
    let whole = crate::commands::admin::proposals_answer(ps, channel)->Reply_0.content;
    assert(r@[0]->Reply_0.content@ == whole);
    let short = crate::commands::admin::proposals_answer(ps.take(i), channel)->Reply_0.content;
    assert(s@[0]->Reply_0.content@ == short);
}

/// The calculator's answer to an operation on two numbers is, in full, the text that arithmetic gives
/// for that operation on those two numbers, unless it is a division by zero.
pub proof fn lemma_calculator_answers(
    expression: &str,
    a: Seq<char>,
    op: char,
    b: Seq<char>,
    reads: spec_fn(CalculationView) -> ReadingView,
    right_is_zero: bool,
    result: Seq<char>,
    tried: Vec<Calculation>,
    readings: Vec<Reading>,
    r: String,
    waiting: AwaitingArithmetic,
    effects: Vec<Effect>,
)
    requires
        expression@ == a + seq![op] + b,
        waiting.expression@ == a + seq![op] + b,
        op == '+' || op == '-' || op == '*' || op == '/',
        forall|i: int| 0 <= i < a.len() ==> #[trigger] a[i] != op,
        forall|i: int| 0 <= i < b.len() ==> #[trigger] b[i] != op,
        is_arithmetic(reads),
        reads(CalculationView { op, left: a, right: b }) == (ReadingView::Numbers {
            right_is_zero,
            result,
        }),
        call_ensures(calculations, (expression,), tried),
        readings@.len() == tried@.len(),
        forall|i: int|
            0 <= i < tried@.len() ==> (#[trigger] readings@[i]).deep_view() == reads(
                tried@[i].deep_view(),
            ),
        call_ensures(parse_and_calculate, (expression, &readings), r),
        call_ensures(AwaitingArithmetic::resume, (waiting, readings), effects),
    ensures
        !(op == '/' && right_is_zero) ==> r@ == result,
        op == '/' && right_is_zero ==> r@ == "Error: Division by zero"@,
        effects@.len() == 1,
        replies(effects@[0], "Result: "@ + r@, "🧮"@, waiting.channel),
{
    let all = calculations_with(expression@, operators());
    let given = readings.deep_view();
    assert(tried.deep_view() == all);
    assert(given =~= all.map_values(reads)) by {
        assert forall|i: int| 0 <= i < all.len() implies given[i] == #[trigger] all.map_values(
            reads,
        )[i] by {
            assert(given[i] == readings@[i].deep_view());
            assert(tried.deep_view()[i] == tried@[i].deep_view());
        }
    }
    lemma_operation_answered(a, op, b, reads, right_is_zero, result, waiting.channel.deep_view());
    lemma_entries(effects);
    assert(effects.deep_view().len() == 1);
    assert(effects@[0].deep_view() == effects.deep_view()[0]);
}

} // verus!
