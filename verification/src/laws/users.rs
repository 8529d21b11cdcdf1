//! What the commands that everyone can give do.

use vstd::prelude::*;
use crate::commands::lemma_name_marks;
use crate::commands::user::ActiveUsers;
use crate::commands::user::AwaitingActiveUsers;
use crate::commands::user::AwaitingHistory;
use crate::commands::user::Chance;
use crate::commands::user::HistoryPage;
use crate::commands::user::UserStepView;
use crate::commands::user::present;
use crate::commands::user::user_step;
use crate::commands::user::wrap;
use crate::laws::session::says;
use crate::laws::texts::lemma_bounds;
use crate::laws::texts::lemma_cut;
use crate::laws::texts::lemma_words;
use crate::models::ChannelView;
use crate::number::unsigned_value;
use crate::outside::hyphenated;
use crate::text::white_space;
use crate::text::words;

verus! {

/// Commands that are answered at once say what they are given in full: an echo is the arguments, and a
/// roll is what the dice said. What waits for something waits with the arguments as they stand.
pub proof fn lemma_simple_commands(
    args: Seq<char>,
    channel: ChannelView,
    username: Seq<char>,
    chance: Chance,
)
    ensures
        user_step("/echo"@, args, channel, username, chance) matches UserStepView::Done(effects)
            && effects.len() == 1 && says(effects[0], args, "🗣️"@, channel),
        user_step("/roll"@, args, channel, username, chance) matches UserStepView::Done(effects)
            && effects.len() == 1 && says(effects[0], "Roll: "@ + chance.dice, "🎲"@, channel),
        user_step("/calc"@, args, channel, username, chance) matches UserStepView::NeedArithmetic(w)
            && w.expression == args && w.channel == channel,
        user_step("/get_active_users"@, args, channel, username, chance) matches
            UserStepView::NeedActiveUsers { key } && key == "active_users"@,
        user_step("/help"@, args, channel, username, chance) matches UserStepView::Done(effects)
            && effects.len() == 1 && says(
            effects[0],
            "Available commands:\n- /help: Show this help message.\n- /echo <message>: Repeats your message.\n- /calc <expression>: Basic calculator (e.g., 5+3, 10/2).\n- /roll <NdM>: Roll dice (e.g., 2d6).\n- /get_history <channel_id>: Get message history for a channel.\n- /propose_channel <name> <icon>: Propose a new channel.\n- /get_active_users: Get a list of currently active users.\n\nAdmin Commands:\n- /ban <username>: Globally ban a user.\n- /rm_admin <username>: Remove global admin status.\n- /meow_event: Activate meow mode.\n- /stop_meow: Deactivate meow mode.\n- /delete_channel <id>: Delete a channel.\n- /list_proposals: List pending channel proposals.\n- /approve_channel <proposal_id>: Approve a channel proposal.\n- /reject_channel <proposal_id>: Reject a channel proposal.\n- /channel_ban <username> [duration_minutes]: Ban user from current channel.\n- /channel_unban <username>: Unban user from current channel."@,
            "💡"@,
            channel,
        ),
{
    lemma_name_marks();
}

/// A proposal is stored with the name before the first space and the icon behind it, in the name of
/// the user who makes it and pending, and is told with the identifier under which it is stored;
/// without a space nothing is stored.
pub proof fn lemma_proposing(
    name: Seq<char>,
    icon: Seq<char>,
    channel: ChannelView,
    username: Seq<char>,
    chance: Chance,
)
    requires
        forall|i: int| 0 <= i < name.len() ==> #[trigger] name[i] != ' ',
    ensures
        user_step("/propose_channel"@, name + seq![' '] + icon, channel, username, chance) matches
            UserStepView::Done(effects) && {
            let p = effects[0]->Apply_0->AddProposal_0;
            &&& effects.len() == 2
            &&& effects[0] is Apply && effects[0]->Apply_0 is AddProposal
            &&& p.id == hyphenated(chance.id)
            &&& p.name == name
            &&& p.icon == icon
            &&& p.proposer_username == username
            &&& p.status == "PENDING"@
            &&& p.timestamp == chance.now
            &&& says(
                effects[1],
                "Channel proposal '"@ + name + "' (ID: "@ + p.id
                    + ") submitted for review. Please wait for a super-admin to approve it."@,
                "📝"@,
                channel,
            )
        },
        user_step("/propose_channel"@, name, channel, username, chance) matches UserStepView::Done(
            effects,
        ) && effects.len() == 1 && says(
            effects[0],
            "Usage: /propose_channel <name> <icon>"@,
            "🚫"@,
            channel,
        ),
{
    lemma_name_marks();
    lemma_cut(name, ' ', icon);
}

/// The history of the channel whose identifier is the first word is read from the newest message on
/// where no number of messages to pass over follows that can be read; without a word the usage is
/// told.
pub proof fn lemma_history_from_newest(
    before: Seq<char>,
    id: Seq<char>,
    rest: Seq<char>,
    channel: ChannelView,
    username: Seq<char>,
    chance: Chance,
)
    requires
        forall|i: int| 0 <= i < before.len() ==> white_space(#[trigger] before[i]),
        forall|i: int| 0 <= i < id.len() ==> !white_space(#[trigger] id[i]),
        id.len() > 0,
        rest.len() > 0 ==> white_space(rest[0]),
        words(rest).len() > 0 ==> (unsigned_value(words(rest)[0]) matches Some(n) ==> n
            > usize::MAX),
    ensures
        user_step("/get_history"@, before + id + rest, channel, username, chance) matches
            UserStepView::NeedHistory(page) && {
            &&& page.channel_id == id
            &&& page.key == "chat_history:"@ + id
            &&& page.offset == 0
            &&& page.start == -50
            &&& page.stop == -1
        },
        user_step("/get_history"@, before, channel, username, chance) matches UserStepView::Done(
            effects,
        ) && effects.len() == 1 && says(
            effects[0],
            "Usage: /get_history <channel_id> [offset]"@,
            "🚫"@,
            channel,
        ),
{
    lemma_name_marks();
    lemma_words(before, id, rest);
    let all = words(before + id + rest);
    assert(all[0] == id);
    if words(rest).len() > 0 {
        assert(all[1] == words(rest)[0]);
        lemma_bounds(0, usize::MAX as nat, 0, words(rest)[0]);
    }
}

/// Where the second word is a number `n`, in whatever way it is written, the page holds the 50 messages
/// before the newest `n`: from place `n + 50` to place `n + 1` from the end. A number so large that the
/// places are no machine numbers is given up, and one beyond the signed half is taken as the negative
/// number with its bits.
pub proof fn lemma_history_page(
    before: Seq<char>,
    id: Seq<char>,
    gap: Seq<char>,
    word: Seq<char>,
    n: nat,
    rest: Seq<char>,
    channel: ChannelView,
    username: Seq<char>,
    chance: Chance,
)
    requires
        forall|i: int| 0 <= i < before.len() ==> white_space(#[trigger] before[i]),
        forall|i: int| 0 <= i < id.len() ==> !white_space(#[trigger] id[i]),
        id.len() > 0,
        forall|i: int| 0 <= i < gap.len() ==> white_space(#[trigger] gap[i]),
        gap.len() > 0,
        rest.len() > 0 ==> white_space(rest[0]),
        forall|i: int| 0 <= i < word.len() ==> !white_space(#[trigger] word[i]),
        word.len() > 0,
        unsigned_value(word) == Some(n),
        n <= usize::MAX,
    ensures
        ({
            let step = user_step(
                "/get_history"@,
                before + id + (gap + word + rest),
                channel,
                username,
                chance,
            );
            &&& step is Overflow <==> (n <= isize::MAX && n + 50 > isize::MAX) || n + 50
                > usize::MAX
            &&& step !is Overflow ==> step is NeedHistory && {
                let page = step->NeedHistory_0;
                &&& page.channel_id == id
                &&& page.key == "chat_history:"@ + id
                &&& page.offset == n
                &&& n <= isize::MAX ==> page.start == -(n + 50) && page.stop == -(n + 1)
                &&& n > isize::MAX ==> page.start == usize::MAX + 1 - (n + 50) && page.stop
                    == usize::MAX + 1 - (n + 1)
            }
        }),
{
    lemma_name_marks();
    let tail = gap + word + rest;
    assert(tail[0] == gap[0]);
    lemma_words(before, id, tail);
    lemma_words(gap, word, rest);
    let all = words(before + id + tail);
    assert(all[0] == id);
    assert(all[1] == word);
    lemma_bounds(0, usize::MAX as nat, 0, word);
}

/// A page of history hands on every entry that could be read, in order, and the place at which the
/// next page begins; there are more messages if the list is longer than that.
pub proof fn lemma_page_handed_on<M>(
    waiting: AwaitingHistory,
    entries: Vec<Option<M>>,
    length: isize,
    r: HistoryPage<M>,
)
    requires
        call_ensures(AwaitingHistory::resume::<M>, (waiting, entries, length), r),
        waiting.offset + 50 <= usize::MAX,
    ensures
        r.channel_id@ == waiting.channel_id@,
        r.offset == waiting.offset + 50,
        waiting.offset + 50 <= isize::MAX ==> (r.has_more <==> length > waiting.offset + 50),
        waiting.offset + 50 > isize::MAX ==> (r.has_more <==> length > waiting.offset + 50 - (
        usize::MAX + 1)),
        (forall|i: int| 0 <= i < entries@.len() ==> #[trigger] entries@[i] is Some) ==> {
            &&& r.messages@.len() == entries@.len()
            &&& forall|i: int|
                0 <= i < entries@.len() ==> Some(#[trigger] r.messages@[i]) == entries@[i]
        },
        forall|i: int|
            0 <= i < entries@.len() && (#[trigger] entries@[i]) is Some ==> r.messages@.contains(
                entries@[i]->0,
            ),
        forall|j: int|
            0 <= j < r.messages@.len() ==> entries@.contains(Some(#[trigger] r.messages@[j])),
{
    lemma_present(entries@);
}

proof fn lemma_present<M>(entries: Seq<Option<M>>)
    ensures
        (forall|i: int| 0 <= i < entries.len() ==> #[trigger] entries[i] is Some) ==> {
            &&& present(entries).len() == entries.len()
            &&& forall|i: int|
                0 <= i < entries.len() ==> Some(#[trigger] present(entries)[i]) == entries[i]
        },
        forall|i: int|
            0 <= i < entries.len() && (#[trigger] entries[i]) is Some ==> present(entries).contains(
                entries[i]->0,
            ),
        forall|j: int|
            0 <= j < present(entries).len() ==> entries.contains(
                Some(#[trigger] present(entries)[j]),
            ),
    decreases entries.len(),
{
    if entries.len() > 0 {
        let before = entries.drop_last();
        let last = entries.last();
        lemma_present(before);
        let short = present(before);
        let all = present(entries);
        if forall|i: int| 0 <= i < entries.len() ==> #[trigger] entries[i] is Some {
            assert forall|i: int| 0 <= i < before.len() implies #[trigger] before[i] is Some by {
                assert(before[i] == entries[i]);
            }
            assert(last == entries[entries.len() - 1]);
            assert forall|i: int| 0 <= i < entries.len() implies Some(
                #[trigger] present(entries)[i],
            ) == entries[i] by {
                if i < before.len() {
                    assert(all[i] == short[i]);
                    assert(before[i] == entries[i]);
                }
            }
        }
        assert forall|i: int| 0 <= i < entries.len() && (#[trigger] entries[i]) is Some implies
            present(entries).contains(entries[i]->0) by {
            if i < before.len() {
                assert(before[i] == entries[i]);
                let j = choose|j: int| 0 <= j < short.len() && short[j] == entries[i]->0;
                assert(all[j] == short[j]);
            } else {
                assert(all[short.len() as int] == entries[i]->0);
            }
        }
        assert forall|j: int| 0 <= j < present(entries).len() implies entries.contains(
            Some(#[trigger] present(entries)[j]),
        ) by {
            if j < short.len() {
                assert(all[j] == short[j]);
                let i = choose|i: int| 0 <= i < before.len() && before[i] == Some(short[j]);
                assert(entries[i] == before[i]);
            } else {
                assert(entries[entries.len() - 1] == last);
            }
        }
    }
}

/// Entries that come one behind the other are handed on one behind the other: what a longer page hands
/// on is what the shorter hands on and then the further entry, if it could be read.
pub proof fn lemma_page_grows<M>(
    first: AwaitingHistory,
    second: AwaitingHistory,
    entries: Vec<Option<M>>,
    longer: Vec<Option<M>>,
    further: Option<M>,
    length: isize,
    r: HistoryPage<M>,
    s: HistoryPage<M>,
)
    requires
        call_ensures(AwaitingHistory::resume::<M>, (first, entries, length), r),
        call_ensures(AwaitingHistory::resume::<M>, (second, longer, length), s),
        longer@ == entries@.push(further),
    ensures
        further matches Some(m) ==> s.messages@ == r.messages@.push(m),
        further is None ==> s.messages@ == r.messages@,
{
    assert(longer@.drop_last() =~= entries@);
}

/// The users that are active are told as they were found, each in its place.
pub proof fn lemma_active_users_told(
    waiting: AwaitingActiveUsers,
    members: Vec<String>,
    r: ActiveUsers,
    i: int,
)
    requires
        call_ensures(AwaitingActiveUsers::resume, (waiting, members), r),
        0 <= i < members@.len(),
    ensures
        r.active_users@.len() == members@.len(),
        r.active_users@[i]@ == members@[i]@,
{
    assert(r.active_users.deep_view().len() == members.deep_view().len());
    assert(r.active_users.deep_view()[i] == r.active_users@[i]@);
    assert(members.deep_view()[i] == members@[i]@);
}

/// A machine number in the signed half is kept, and one beyond it is taken as the negative number with
/// its bits.
pub proof fn lemma_wrapping(n: usize, r: isize)
    requires
        call_ensures(wrap, (n,), r),
    ensures
        n <= isize::MAX ==> r == n,
        n > isize::MAX ==> r == n - (usize::MAX + 1),
{
}

} // verus!
