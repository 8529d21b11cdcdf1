//! What the lists, sets and numbers in Redis come to hold, and who hears what is published.

use vstd::prelude::*;
use crate::auth::AuthUser;
use crate::cache::CacheView;
use crate::cache::HISTORY_LIMIT;
use crate::commands::admin::admin_step;
use crate::commands::admin::proposals_answer;
use crate::commands::admin::AdminStepView;
use crate::commands::admin::AwaitingProposalView;
use crate::commands::lemma_name_marks;
use crate::commands::user::calculation_answer;
use crate::commands::user::history_step;
use crate::commands::user::lists_once;
use crate::commands::user::user_step;
use crate::commands::user::wrapped;
use crate::commands::user::AwaitingHistoryView;
use crate::commands::user::Chance;
use crate::commands::user::UserStepView;
use crate::commands::user::PAGE_SIZE;
use crate::effect::EffectView;
use crate::files::UploadView;
use crate::message::text_view;
use crate::message::MessageView;
use crate::models::ChannelView;
use crate::models::ProposalView;
use crate::models::UserView;
use crate::utils::ReadingView;
use crate::ws::closing;
use crate::ws::opening;
use crate::ws::topics;
use crate::ws::AwaitingChannelView;
use crate::ws::AwaitingMeowView;
use crate::ws::BanTurnView;
use crate::ws::ChannelTurnView;
use crate::ws::CommandCallView;
use crate::ws::CommandStepView;
use crate::ws::TaskView;

verus! {

/// The entries of a list from position `start` to position `stop`, both of them in it. A negative
/// position is counted from the end; what lies outside the list is left out.
pub open spec fn entries_between<A>(list: Seq<A>, start: int, stop: int) -> Seq<A> {
    let from = if start < 0 {
        start + list.len()
    } else {
        start
    };
    let to = if stop < 0 {
        stop + list.len()
    } else {
        stop
    };
    let first = if from < 0 {
        0
    } else {
        from
    };
    let last = if to >= list.len() {
        list.len() - 1
    } else {
        to
    };
    if first > last {
        Seq::empty()
    } else {
        list.subrange(first, last + 1)
    }
}

/// What the list under `key` holds after a command.
pub open spec fn list_after_one(
    list: Seq<MessageView>,
    key: Seq<char>,
    command: CacheView,
) -> Seq<MessageView> {
    match command {
        CacheView::Push { key: k, message } => if k == key {
            list.push(message)
        } else {
            list
        },
        CacheView::Trim { key: k, start, stop } => if k == key {
            entries_between(list, start as int, stop as int)
        } else {
            list
        },
        _ => list,
    }
}

/// What the list under `key` holds after some effects.
pub open spec fn list_after(
    list: Seq<MessageView>,
    key: Seq<char>,
    effects: Seq<EffectView>,
) -> Seq<MessageView>
    decreases effects.len(),
{
    if effects.len() == 0 {
        list
    } else {
        let before = list_after(list, key, effects.drop_last());
        match effects.last() {
            EffectView::Cache(command) => list_after_one(before, key, command),
            _ => before,
        }
    }
}

/// The last `n` entries of a list, or all if there are fewer.
pub open spec fn newest<A>(list: Seq<A>, n: int) -> Seq<A> {
    if list.len() <= n {
        list
    } else {
        list.skip(list.len() - n)
    }
}

/// A list without its last `n` entries.
pub open spec fn without_newest<A>(list: Seq<A>, n: int) -> Seq<A> {
    if list.len() <= n {
        Seq::empty()
    } else {
        list.take(list.len() - n)
    }
}

/// A message for a channel becomes the last entry of that channel's history, behind the newest of
/// the entries that were there, and no more than the limit are kept. The history of any other
/// channel stays as it is.
pub proof fn lemma_message_stored(
    waiting: AwaitingMeowView,
    meow_mode: i64,
    list: Seq<MessageView>,
    other: Seq<char>,
)
    ensures
        ({
            let content = if meow_mode == 1 {
                "meow"@
            } else {
                waiting.content
            };
            let message = text_view(
                waiting.username,
                waiting.icon,
                content,
                waiting.now,
                waiting.channel,
            );
            let after = list_after(
                list,
                "chat_history:"@ + waiting.channel.id,
                waiting.outcome(meow_mode),
            );
            &&& after == newest(list.push(message), HISTORY_LIMIT as int)
            &&& after.last() == message
            &&& 1 <= after.len() <= HISTORY_LIMIT
        }),
        other != waiting.channel.id ==> list_after(
            list,
            "chat_history:"@ + other,
            waiting.outcome(meow_mode),
        ) == list,
{
    let effects = waiting.outcome(meow_mode);
    let key = "chat_history:"@ + waiting.channel.id;
    let two = effects.drop_last();
    let one = two.drop_last();
    assert(one.drop_last() =~= Seq::<EffectView>::empty());
    reveal_with_fuel(list_after, 4);
    let message = effects[0]->Cache_0->Push_message;
    let pushed = list.push(message);
    assert(list_after(list, key, one) == pushed);
    assert(entries_between(pushed, -HISTORY_LIMIT as int, -1) =~= newest(
        pushed,
        HISTORY_LIMIT as int,
    ));
    if other != waiting.channel.id {
        lemma_prefix_injective("chat_history:"@, other, waiting.channel.id);
    }
}

/// Two texts behind one prefix are alike only where the texts are.
pub proof fn lemma_prefix_injective(prefix: Seq<char>, a: Seq<char>, b: Seq<char>)
    ensures
        prefix + a == prefix + b ==> a == b,
{
    assert((prefix + a).skip(prefix.len() as int) =~= a);
    assert((prefix + b).skip(prefix.len() as int) =~= b);
}

/// A page of history holds the messages that come just before the newest `offset`, and there are
/// more exactly if the list holds messages before these.
pub proof fn lemma_page(
    args: Seq<char>,
    channel: ChannelView,
    page: AwaitingHistoryView,
    list: Seq<MessageView>,
)
    requires
        history_step(args, channel) == UserStepView::NeedHistory(page),
        page.offset + PAGE_SIZE <= isize::MAX,
    ensures
        entries_between(list, page.start as int, page.stop as int) == newest(
            without_newest(list, page.offset as int),
            PAGE_SIZE as int,
        ),
        list.len() > wrapped(page.offset + PAGE_SIZE) <==> without_newest(
            list,
            page.offset + PAGE_SIZE,
        ).len() > 0,
{
    assert(page.start == -(page.offset + PAGE_SIZE));
    assert(page.stop == -(page.offset + 1));
    assert(entries_between(list, page.start as int, page.stop as int) =~= newest(
        without_newest(list, page.offset as int),
        PAGE_SIZE as int,
    ));
}

/// The first `count` pages of a list, one behind the other from the oldest to the newest.
pub open spec fn pages<A>(list: Seq<A>, count: nat) -> Seq<A>
    decreases count,
{
    if count == 0 {
        Seq::empty()
    } else {
        let offset = (count - 1) * PAGE_SIZE;
        newest(without_newest(list, offset), PAGE_SIZE as int) + pages(list, (count - 1) as nat)
    }
}

/// Pages that are asked for one after the other neither overlap nor leave a message out: together
/// they hold the newest messages in order.
pub proof fn lemma_pages_tile<A>(list: Seq<A>, count: nat)
    ensures
        pages(list, count) == newest(list, count * PAGE_SIZE),
    decreases count,
{
    if count == 0 {
        assert(newest(list, 0) =~= Seq::<A>::empty());
    } else {
        lemma_pages_tile(list, (count - 1) as nat);
        assert(pages(list, count) =~= newest(list, count * PAGE_SIZE));
    }
}

/// What a user writes to a channel that exists reaches the channel: without a ban and unless it is a
/// command, the text is stored and published as the user's message, and nothing else is done.
pub proof fn lemma_message_delivered(
    waiting: AwaitingChannelView,
    channel: ChannelView,
    meow_mode: i64,
)
    requires
        !waiting.user.is_silenced(),
        !(waiting.content.len() > 0 && waiting.content[0] == '/'),
        meow_mode != 1,
    ensures
        waiting.outcome(Some(channel)) matches ChannelTurnView::NeedBan(author) && author.outcome(
            None,
        ) matches BanTurnView::Admitted { effects: first, task: TaskView::Chat(chat) } && {
            let message = text_view(
                waiting.username,
                waiting.user.icon,
                waiting.content,
                waiting.now,
                channel,
            );
            &&& first == Seq::<EffectView>::empty()
            &&& chat.outcome(meow_mode) == seq![
                EffectView::Cache(CacheView::Push { key: "chat_history:"@ + channel.id, message }),
                EffectView::Cache(
                    CacheView::Trim {
                        key: "chat_history:"@ + channel.id,
                        start: (-HISTORY_LIMIT) as i64,
                        stop: (-1) as i64,
                    },
                ),
                EffectView::Cache(CacheView::Publish { topic: "chat:"@ + channel.id, message }),
            ]
        },
{
}

/// A message that was stored is the last of the first page.
pub proof fn lemma_read_after_write(
    waiting: AwaitingMeowView,
    meow_mode: i64,
    list: Seq<MessageView>,
    channel: ChannelView,
    page: AwaitingHistoryView,
    args: Seq<char>,
)
    requires
        history_step(args, channel) == UserStepView::NeedHistory(page),
        page.channel_id == waiting.channel.id,
        page.offset == 0,
    ensures
        ({
            let after = list_after(list, page.key, waiting.outcome(meow_mode));
            let read = entries_between(after, page.start as int, page.stop as int);
            &&& read.len() > 0
            &&& EffectView::Cache(CacheView::Push { key: page.key, message: read.last() })
                == waiting.outcome(meow_mode)[0]
        }),
{
    lemma_message_stored(waiting, meow_mode, list, waiting.channel.id);
    let after = list_after(list, page.key, waiting.outcome(meow_mode));
    lemma_page(args, channel, page, after);
    assert(without_newest(after, 0) =~= after);
}

/// The message that tells of an upload becomes the last entry of the channel's history, and no entry
/// is dropped.
pub proof fn lemma_upload_stored(
    upload: UploadView,
    user: AuthUser,
    channel_id: Seq<char>,
    channel: ChannelView,
    now: i64,
    list: Seq<MessageView>,
)
    ensures
        list_after(
            list,
            "chat_history:"@ + channel_id,
            upload.announcing(user, channel_id, channel, now),
        ) == list.push(upload.announcement(user, channel_id, channel, now)),
{
    let effects = upload.announcing(user, channel_id, channel, now);
    assert(effects.drop_last().drop_last() =~= Seq::<EffectView>::empty());
    reveal_with_fuel(list_after, 3);
}

/// Whether some effects neither store nor publish a message, nor drop one.
pub open spec fn without_message(effects: Seq<EffectView>) -> bool {
    forall|i: int|
        0 <= i < effects.len() ==> match #[trigger] effects[i] {
            EffectView::Cache(CacheView::Push { .. }) => false,
            EffectView::Cache(CacheView::Trim { .. }) => false,
            EffectView::Cache(CacheView::Publish { .. }) => false,
            _ => true,
        }
}

/// Effects without a message leave every list as it is.
pub proof fn lemma_no_message(
    list: Seq<MessageView>,
    key: Seq<char>,
    effects: Seq<EffectView>,
)
    requires
        without_message(effects),
    ensures
        list_after(list, key, effects) == list,
    decreases effects.len(),
{
    if effects.len() > 0 {
        let before = effects.drop_last();
        assert(without_message(before)) by {
            assert forall|i: int| 0 <= i < before.len() implies #[trigger] before[i]
                == effects[i] by {}
        }
        lemma_no_message(list, key, before);
        assert(effects.last() == effects[effects.len() - 1]);
    }
}

/// No command is stored or published as a message, neither by what it does when it starts nor by what
/// it does once what it waits for has come.
pub proof fn lemma_commands_are_no_messages(
    call: CommandCallView,
    chance: Chance,
    now: int,
    user: Option<UserView>,
    proposal: Option<ProposalView>,
    proposals: Seq<ProposalView>,
    readings: Seq<ReadingView>,
)
    ensures
        match call.step(chance, now) {
            CommandStepView::Unknown(effects) => without_message(effects),
            CommandStepView::User(UserStepView::Done(effects)) => without_message(effects),
            CommandStepView::User(UserStepView::NeedArithmetic(waiting)) => without_message(
                seq![calculation_answer(waiting, readings)],
            ),
            CommandStepView::User(_) => true,
            CommandStepView::Admin(AdminStepView::Done(effects)) => without_message(effects),
            CommandStepView::Admin(AdminStepView::NeedUser(waiting)) => without_message(
                waiting.outcome(user),
            ),
            CommandStepView::Admin(AdminStepView::NeedProposal(waiting)) => without_message(
                waiting.outcome(proposal),
            ),
            CommandStepView::Admin(AdminStepView::NeedProposals(channel)) => without_message(
                seq![proposals_answer(proposals, channel)],
            ),
            CommandStepView::Admin(_) => true,
        },
{
}

/// The number under `key` after some effects, where 0 stands for none.
pub open spec fn number_after(number: i64, key: Seq<char>, effects: Seq<EffectView>) -> i64
    decreases effects.len(),
{
    if effects.len() == 0 {
        number
    } else {
        let before = number_after(number, key, effects.drop_last());
        match effects.last() {
            EffectView::Cache(CacheView::SetNumber { key: k, value }) => if k == key {
                value
            } else {
                before
            },
            EffectView::Cache(CacheView::Delete { key: k }) => if k == key {
                0
            } else {
                before
            },
            _ => before,
        }
    }
}

/// After `/meow_event` every message says `meow`, and after `/stop_meow` it says again what its
/// author wrote.
pub proof fn lemma_meow_mode(
    number: i64,
    args: Seq<char>,
    channel: ChannelView,
    username: Seq<char>,
    is_super_admin: bool,
    now: int,
    waiting: AwaitingMeowView,
)
    ensures
        admin_step("/meow_event"@, args, channel, username, is_super_admin, now) matches
            AdminStepView::Done(effects) && waiting.outcome(
            number_after(number, "meow_mode"@, effects),
        ) == (AwaitingMeowView { content: "meow"@, ..waiting }).outcome(0),
        admin_step("/stop_meow"@, args, channel, username, is_super_admin, now) matches
            AdminStepView::Done(effects) && waiting.outcome(
            number_after(number, "meow_mode"@, effects),
        ) == waiting.outcome(0),
{
    lemma_name_marks();
    reveal_with_fuel(number_after, 4);
    let start = admin_step("/meow_event"@, args, channel, username, is_super_admin, now)->Done_0;
    let stop = admin_step("/stop_meow"@, args, channel, username, is_super_admin, now)->Done_0;
    assert(start.drop_last().drop_last().drop_last() =~= Seq::<EffectView>::empty());
    assert(stop.drop_last().drop_last() =~= Seq::<EffectView>::empty());
}

/// A connection hears every message of the channels that it listens to: the topic of the message is
/// among its topics.
pub proof fn lemma_messages_heard(
    channels: Seq<ChannelView>,
    i: int,
    waiting: AwaitingMeowView,
    meow_mode: i64,
)
    requires
        0 <= i < channels.len(),
        waiting.channel.id == channels[i].id,
    ensures
        waiting.outcome(meow_mode)[2] matches EffectView::Cache(CacheView::Publish { topic, .. })
            && topics(channels).contains(topic),
{
    assert(topics(channels)[i] == "chat:"@ + channels[i].id);
}

/// Every connection hears of a channel that is approved.
pub proof fn lemma_approvals_heard(
    channels: Seq<ChannelView>,
    waiting: AwaitingProposalView,
    p: ProposalView,
)
    requires
        waiting.approve,
        p.status == "PENDING"@,
    ensures
        waiting.outcome(Some(p))[3] matches EffectView::Cache(
            CacheView::PublishChannel { topic, channel },
        ) && topics(channels).contains(topic) && channel == (ChannelView {
            id: p.id,
            name: p.name,
            icon: p.icon,
        }),
{
    assert(topics(channels).last() == "channel_updates"@);
}

/// The members of the set under `key` after some effects.
pub open spec fn members_after(
    members: Set<Seq<char>>,
    key: Seq<char>,
    effects: Seq<EffectView>,
) -> Set<Seq<char>>
    decreases effects.len(),
{
    if effects.len() == 0 {
        members
    } else {
        let before = members_after(members, key, effects.drop_last());
        match effects.last() {
            EffectView::Cache(CacheView::AddMember { key: k, member }) => if k == key {
                before.insert(member)
            } else {
                before
            },
            EffectView::Cache(CacheView::RemoveMember { key: k, member }) => if k == key {
                before.remove(member)
            } else {
                before
            },
            _ => before,
        }
    }
}

/// `/get_active_users` reads the set that a user is in from the opening of a connection to its
/// closing: a list of its members names the user in between.
pub proof fn lemma_active_users(
    members: Set<Seq<char>>,
    args: Seq<char>,
    channel: ChannelView,
    username: Seq<char>,
    chance: Chance,
    listed: Seq<Seq<char>>,
)
    requires
        lists_once(listed, members.insert(username)),
    ensures
        user_step("/get_active_users"@, args, channel, username, chance) matches
            UserStepView::NeedActiveUsers { key } && {
            let open = members_after(members, key, opening(username));
            &&& open == members.insert(username)
            &&& lists_once(listed, open)
            &&& listed.contains(username)
            &&& members_after(open, key, closing(username)) == members.remove(username)
        },
{
    lemma_name_marks();
    reveal_with_fuel(members_after, 2);
    assert(listed.to_set().contains(username));
    assert(opening(username).drop_last() =~= Seq::<EffectView>::empty());
    assert(closing(username).drop_last() =~= Seq::<EffectView>::empty());
    let open = members_after(members, "active_users"@, opening(username));
    assert(open =~= members.insert(username));
    assert(members_after(open, "active_users"@, closing(username)) =~= members.remove(username));
}

} // verus!
