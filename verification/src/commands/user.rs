//! The commands that everyone can give.

use vstd::prelude::*;
use vstd::string::*;
use crate::cache::history_key;
use crate::effect::answer;
use crate::effect::one;
use crate::effect::reply;
use crate::effect::two;
use crate::effect::Effect;
use crate::effect::EffectView;
use crate::models::Channel;
use crate::models::ChannelProposal;
use crate::models::ChannelView;
use crate::models::ProposalView;
use crate::number::bounded_value;
use crate::number::parse_bounded;
use crate::outside::clock_seconds;
use crate::outside::hyphenated;
use crate::outside::lower_case;
use crate::outside::random_identifier;
use crate::outside::random_uuid;
use crate::outside::uuid_text;
use crate::outside::LATEST_SECOND;
use crate::store::Change;
use crate::store::ChangeView;
use crate::text::part;
use crate::text::parted;
use crate::text::plus;
use crate::text::same;
use crate::text::split_words;
use crate::text::words;
use crate::utils::calculated;
use crate::utils::calculations;
use crate::utils::calculations_with;
use crate::utils::dice_answer;
use crate::utils::operators;
use crate::utils::parse_and_calculate;
use crate::utils::parse_and_roll_dice;
use crate::utils::Calculation;
use crate::utils::Reading;
use crate::utils::ReadingView;

verus! {

/// How many messages a page of a channel's history holds.
pub const PAGE_SIZE: usize = 50;

/// A calculation that waits for arithmetic.
#[derive(Debug)]
pub struct AwaitingArithmetic {
    pub expression: String,
    pub channel: Channel,
}

/// What a waiting calculation holds.
pub struct AwaitingArithmeticView {
    pub expression: Seq<char>,
    pub channel: ChannelView,
}

impl DeepView for AwaitingArithmetic {
    type V = AwaitingArithmeticView;

    open spec fn deep_view(&self) -> AwaitingArithmeticView {
        AwaitingArithmeticView {
            expression: self.expression@,
            channel: self.channel.deep_view(),
        }
    }
}

/// A request for a page of a channel's history: it waits for the entries of the list `key` from
/// position `start` to position `stop`, and for the length of that list.
#[derive(Debug)]
pub struct AwaitingHistory {
    pub channel_id: String,
    pub key: String,
    pub offset: usize,
    pub start: isize,
    pub stop: isize,
}

/// What a waiting request holds.
pub struct AwaitingHistoryView {
    pub channel_id: Seq<char>,
    pub key: Seq<char>,
    pub offset: usize,
    pub start: isize,
    pub stop: isize,
}

impl DeepView for AwaitingHistory {
    type V = AwaitingHistoryView;

    open spec fn deep_view(&self) -> AwaitingHistoryView {
        AwaitingHistoryView {
            channel_id: self.channel_id@,
            key: self.key@,
            offset: self.offset,
            start: self.start,
            stop: self.stop,
        }
    }
}

/// A request for the active users: it waits for the members of the set `key`.
#[derive(Debug)]
pub struct AwaitingActiveUsers {
    pub key: &'static str,
}

/// The answer that lists the active users.
#[derive(Debug)]
pub struct ActiveUsers {
    pub active_users: Vec<String>,
}

/// Whether a list names exactly the members of a set, each once.
pub open spec fn lists_once(list: Seq<Seq<char>>, members: Set<Seq<char>>) -> bool {
    list.no_duplicates() && list.to_set() == members
}

impl AwaitingActiveUsers {
    /// Goes on with the members of the set, in any order: the answer lists them as they come, and so
    /// exactly the members, each once, where these are what came.
    pub fn resume(self, members: Vec<String>) -> (r: ActiveUsers)
        ensures
            r.active_users.deep_view() == members.deep_view(),
            forall|set: Set<Seq<char>>| #[trigger]
                lists_once(members.deep_view(), set) ==> lists_once(
                    r.active_users.deep_view(),
                    set,
                ),
    {
        ActiveUsers { active_users: members }
    }
}

/// How a user's command goes on.
#[derive(Debug)]
pub enum UserStep {
    /// There is no such command.
    NotHandled,
    /// The page that is asked for has no position in a list.
    Overflow,
    /// The command is done once these effects are.
    Done(Vec<Effect>),
    /// A page of history is needed.
    NeedHistory(AwaitingHistory),
    /// The members of a set are needed.
    NeedActiveUsers(AwaitingActiveUsers),
    /// Arithmetic is needed.
    NeedArithmetic(AwaitingArithmetic),
}

/// What a step holds.
pub enum UserStepView {
    NotHandled,
    Overflow,
    Done(Seq<EffectView>),
    NeedHistory(AwaitingHistoryView),
    NeedActiveUsers { key: Seq<char> },
    NeedArithmetic(AwaitingArithmeticView),
}

impl DeepView for UserStep {
    type V = UserStepView;

    open spec fn deep_view(&self) -> UserStepView {
        match self {
            UserStep::NotHandled => UserStepView::NotHandled,
            UserStep::Overflow => UserStepView::Overflow,
            UserStep::Done(effects) => UserStepView::Done(effects.deep_view()),
            UserStep::NeedHistory(waiting) => UserStepView::NeedHistory(waiting.deep_view()),
            UserStep::NeedActiveUsers(waiting) => UserStepView::NeedActiveUsers {
                key: waiting.key@,
            },
            UserStep::NeedArithmetic(waiting) => UserStepView::NeedArithmetic(waiting.deep_view()),
        }
    }
}

/// The text of `/help`.
pub open spec fn help_text() -> Seq<char> {
    "Available commands:\n- /help: Show this help message.\n- /echo <message>: Repeats your message.\n- /calc <expression>: Basic calculator (e.g., 5+3, 10/2).\n- /roll <NdM>: Roll dice (e.g., 2d6).\n- /get_history <channel_id>: Get message history for a channel.\n- /propose_channel <name> <icon>: Propose a new channel.\n- /get_active_users: Get a list of currently active users.\n\nAdmin Commands:\n- /ban <username>: Globally ban a user.\n- /rm_admin <username>: Remove global admin status.\n- /meow_event: Activate meow mode.\n- /stop_meow: Deactivate meow mode.\n- /delete_channel <id>: Delete a channel.\n- /list_proposals: List pending channel proposals.\n- /approve_channel <proposal_id>: Approve a channel proposal.\n- /reject_channel <proposal_id>: Reject a channel proposal.\n- /channel_ban <username> [duration_minutes]: Ban user from current channel.\n- /channel_unban <username>: Unban user from current channel."@
}

fn help() -> (r: String)
    ensures
        r@ == help_text(),
{
    "Available commands:\n- /help: Show this help message.\n- /echo <message>: Repeats your message.\n- /calc <expression>: Basic calculator (e.g., 5+3, 10/2).\n- /roll <NdM>: Roll dice (e.g., 2d6).\n- /get_history <channel_id>: Get message history for a channel.\n- /propose_channel <name> <icon>: Propose a new channel.\n- /get_active_users: Get a list of currently active users.\n\nAdmin Commands:\n- /ban <username>: Globally ban a user.\n- /rm_admin <username>: Remove global admin status.\n- /meow_event: Activate meow mode.\n- /stop_meow: Deactivate meow mode.\n- /delete_channel <id>: Delete a channel.\n- /list_proposals: List pending channel proposals.\n- /approve_channel <proposal_id>: Approve a channel proposal.\n- /reject_channel <proposal_id>: Reject a channel proposal.\n- /channel_ban <username> [duration_minutes]: Ban user from current channel.\n- /channel_unban <username>: Unban user from current channel.".to_string()
}

/// A number of the address width read as a signed one.
pub open spec fn wrapped(n: int) -> int {
    if n <= isize::MAX {
        n
    } else {
        n - usize::MAX - 1
    }
}

/// Whether the page behind the newest `offset` messages has a position and an end.
pub open spec fn page_fits(offset: int) -> bool {
    &&& wrapped(offset) + PAGE_SIZE <= isize::MAX
    &&& offset + PAGE_SIZE <= usize::MAX
}

/// The offset that a request for history names: its second word, or 0 if that is no number.
pub open spec fn history_offset(request: Seq<Seq<char>>) -> nat {
    if request.len() < 2 {
        0
    } else {
        match bounded_value(request[1], usize::MAX as nat) {
            Some(n) => n,
            None => 0,
        }
    }
}

/// How `/get_history` goes on. Positions are counted from the end of the list, so that a page holds
/// the messages before the newest `offset`.
pub open spec fn history_step(args: Seq<char>, channel: ChannelView) -> UserStepView {
    let request = words(args);
    if request.len() == 0 {
        UserStepView::Done(
            seq![answer("Usage: /get_history <channel_id> [offset]"@, "🚫"@, channel)],
        )
    } else {
        let offset = history_offset(request) as int;
        if page_fits(offset) {
            UserStepView::NeedHistory(
                AwaitingHistoryView {
                    channel_id: request[0],
                    key: "chat_history:"@ + request[0],
                    offset: offset as usize,
                    start: -(wrapped(offset) + PAGE_SIZE) as isize,
                    stop: -(wrapped(offset) + 1) as isize,
                },
            )
        } else {
            UserStepView::Overflow
        }
    }
}

/// A number of the address width read as a signed one.
pub fn wrap(n: usize) -> (r: isize)
    ensures
        r == wrapped(n as int),
{
    if n <= isize::MAX as usize {
        n as isize
    } else {
        -((usize::MAX - n) as isize) - 1
    }
}

fn get_history(args: &str, channel: &Channel) -> (r: UserStep)
    ensures
        r.deep_view() == history_step(args@, channel.deep_view()),
{
    let request = split_words(args);
    if request.len() == 0 {
        return UserStep::Done(
            one(reply("Usage: /get_history <channel_id> [offset]".to_string(), "🚫", channel)),
        );
    }
    assert(request.deep_view()[0] == request@[0]@);
    let mut offset: usize = 0;
    if request.len() >= 2 {
        assert(request.deep_view()[1] == request@[1]@);
        if let Some(n) = parse_bounded(request[1].as_str(), usize::MAX as u64) {
            offset = n as usize;
        }
    }
    let signed: isize = wrap(offset);
    if signed > isize::MAX - PAGE_SIZE as isize || offset > usize::MAX - PAGE_SIZE {
        return UserStep::Overflow;
    }
    UserStep::NeedHistory(
        AwaitingHistory {
            channel_id: request[0].clone(),
            key: history_key(request[0].as_str()),
            offset,
            start: -(signed + PAGE_SIZE as isize),
            stop: -(signed + 1),
        },
    )
}

/// A page of a channel's history.
#[derive(Debug)]
pub struct HistoryPage<M> {
    pub channel_id: String,
    pub messages: Vec<M>,
    /// Where the next page starts.
    pub offset: usize,
    /// Whether there are older messages.
    pub has_more: bool,
}

/// What is there, in order.
pub open spec fn present<M>(entries: Seq<Option<M>>) -> Seq<M>
    decreases entries.len(),
{
    if entries.len() == 0 {
        Seq::empty()
    } else {
        match entries.last() {
            Some(m) => present(entries.drop_last()).push(m),
            None => present(entries.drop_last()),
        }
    }
}

fn take_present<M>(entries: Vec<Option<M>>) -> (r: Vec<M>)
    ensures
        r@ == present(entries@),
{
    let mut r: Vec<M> = Vec::new();
    let ghost all = entries@;
    assert(r@ =~= present(all.take(0)));
    for entry in it: entries.into_iter()
        invariant
            it.seq() == all,
            r@ == present(all.take(it.index())),
    {
        let ghost k = it.index();
        assert(all.take(k + 1).drop_last() =~= all.take(k));
        if let Some(m) = entry {
            r.push(m);
        }
    }
    assert(all.take(all.len() as int) =~= all);
    r
}

impl AwaitingHistory {
    /// Goes on with the entries of the page, those that hold no message left out, and with the
    /// length of the whole list.
    pub fn resume<M>(self, entries: Vec<Option<M>>, length: isize) -> (r: HistoryPage<M>)
        requires
            self.offset + PAGE_SIZE <= usize::MAX,
        ensures
            r.channel_id@ == self.channel_id@,
            r.messages@ == present(entries@),
            r.offset == self.offset + PAGE_SIZE,
            r.has_more == (length > wrapped(self.offset + PAGE_SIZE)),
    {
        let next: usize = self.offset + PAGE_SIZE;
        HistoryPage {
            channel_id: self.channel_id,
            messages: take_present(entries),
            offset: next,
            has_more: length > wrap(next),
        }
    }
}

impl AwaitingArithmetic {
    /// The operations of which arithmetic is needed.
    pub fn calculations(&self) -> (r: Vec<Calculation>)
        ensures
            r.deep_view() == calculations_with(self.expression@, operators()),
    {
        calculations(self.expression.as_str())
    }

    /// Goes on with what arithmetic makes of each operation.
    pub fn resume(self, readings: Vec<Reading>) -> (r: Vec<Effect>)
        requires
            readings@.len() == calculations_with(self.expression@, operators()).len(),
        ensures
            r.deep_view() == seq![calculation_answer(self.deep_view(), readings.deep_view())],
    {
        let result = parse_and_calculate(self.expression.as_str(), &readings);
        one(reply(plus("Result: ", result.as_str()), "🧮", &self.channel))
    }
}

/// The answer to `/calc`.
pub open spec fn calculation_answer(
    waiting: AwaitingArithmeticView,
    readings: Seq<ReadingView>,
) -> EffectView {
    answer(
        "Result: "@ + calculated(calculations_with(waiting.expression, operators()), readings),
        "🧮"@,
        waiting.channel,
    )
}

/// What a command finds by chance: the second on the clock, a new identifier and the answer of the
/// dice.
pub struct Chance {
    pub now: i64,
    pub id: u128,
    pub dice: Seq<char>,
}

impl Chance {
    /// Whether a command with such arguments can find this.
    pub open spec fn possible(self, command: Seq<char>, args: Seq<char>) -> bool {
        &&& 0 <= self.now <= LATEST_SECOND
        &&& command == "/propose_channel"@ ==> random_identifier(self.id)
        &&& command == "/roll"@ ==> dice_answer(lower_case(args), self.dice)
    }
}

/// The proposal that a command makes.
pub open spec fn new_proposal(
    name: Seq<char>,
    icon: Seq<char>,
    username: Seq<char>,
    now: i64,
    id: u128,
) -> ProposalView {
    ProposalView {
        id: hyphenated(id),
        name,
        icon,
        proposer_username: username,
        status: "PENDING"@,
        timestamp: now,
    }
}

/// How `/propose_channel` goes on.
pub open spec fn propose_step(
    args: Seq<char>,
    channel: ChannelView,
    username: Seq<char>,
    now: i64,
    id: u128,
) -> UserStepView {
    match parted(args, ' ') {
        (name, Some(icon)) => UserStepView::Done(
            seq![
                EffectView::Apply(
                    ChangeView::AddProposal(new_proposal(name, icon, username, now, id)),
                ),
                answer(
                    "Channel proposal '"@ + name + "' (ID: "@ + hyphenated(id)
                        + ") submitted for review. Please wait for a super-admin to approve it."@,
                    "📝"@,
                    channel,
                ),
            ],
        ),
        (_, None) => UserStepView::Done(
            seq![answer("Usage: /propose_channel <name> <icon>"@, "🚫"@, channel)],
        ),
    }
}

/// How `/roll` goes on.
pub open spec fn roll_step(dice: Seq<char>, channel: ChannelView) -> UserStepView {
    UserStepView::Done(seq![answer("Roll: "@ + dice, "🎲"@, channel)])
}

/// How a user's command goes on.
pub open spec fn user_step(
    command: Seq<char>,
    args: Seq<char>,
    channel: ChannelView,
    username: Seq<char>,
    chance: Chance,
) -> UserStepView {
    if command == "/help"@ {
        UserStepView::Done(seq![answer(help_text(), "💡"@, channel)])
    } else if command == "/echo"@ {
        UserStepView::Done(seq![answer(args, "🗣️"@, channel)])
    } else if command == "/calc"@ {
        UserStepView::NeedArithmetic(AwaitingArithmeticView { expression: args, channel })
    } else if command == "/roll"@ {
        roll_step(chance.dice, channel)
    } else if command == "/get_history"@ {
        history_step(args, channel)
    } else if command == "/propose_channel"@ {
        propose_step(args, channel, username, chance.now, chance.id)
    } else if command == "/get_active_users"@ {
        UserStepView::NeedActiveUsers { key: "active_users"@ }
    } else {
        UserStepView::NotHandled
    }
}

fn propose_channel(
    args: &str,
    channel: &Channel,
    username: &str,
    now: i64,
    id: u128,
) -> (r: UserStep)
    ensures
        r.deep_view() == propose_step(args@, channel.deep_view(), username@, now, id),
{
    let (name, rest) = part(args, ' ');
    match rest {
        Some(icon) => {
            let id_text = uuid_text(id);
            let mut text = plus("Channel proposal '", name.as_str());
            text.append("' (ID: ");
            text.append(id_text.as_str());
            text.append(") submitted for review. Please wait for a super-admin to approve it.");
            UserStep::Done(
                two(
                    Effect::Apply(
                        Change::AddProposal(
                            ChannelProposal {
                                id: id_text,
                                name,
                                icon,
                                proposer_username: username.to_string(),
                                status: "PENDING".to_string(),
                                timestamp: now,
                            },
                        ),
                    ),
                    reply(text, "📝", channel),
                ),
            )
        },
        None => UserStep::Done(
            one(reply("Usage: /propose_channel <name> <icon>".to_string(), "🚫", channel)),
        ),
    }
}

/// Starts a user's command that is given in a channel.
pub fn handle_user_command(
    command: &str,
    args: &str,
    channel_info: &Channel,
    user_username: &str,
) -> (r: UserStep)
    ensures
        exists|chance: Chance|
            chance.possible(command@, args@) && r.deep_view() == #[trigger] user_step(
                command@,
                args@,
                channel_info.deep_view(),
                user_username@,
                chance,
            ),
{
    let now: i64 = clock_seconds();
    let id: u128 = if same(command, "/propose_channel") {
        random_uuid()
    } else {
        0
    };
    let dice: String = if same(command, "/roll") {
        parse_and_roll_dice(args)
    } else {
        String::new()
    };
    let ghost chance = Chance { now, id, dice: dice@ };
    let r = user_command_with(
        command,
        args,
        channel_info,
        user_username,
        now,
        id,
        dice.as_str(),
    );
    assert(chance.possible(command@, args@));
    r
}

/// Starts a user's command at second `now`, with a new identifier and the answer of the dice for
/// the commands that need them.
pub fn user_command_with(
    command: &str,
    args: &str,
    channel: &Channel,
    username: &str,
    now: i64,
    id: u128,
    dice: &str,
) -> (r: UserStep)
    ensures
        r.deep_view() == user_step(
            command@,
            args@,
            channel.deep_view(),
            username@,
            (Chance { now, id, dice: dice@ }),
        ),
{
    if same(command, "/help") {
        UserStep::Done(one(reply(help(), "💡", channel)))
    } else if same(command, "/echo") {
        UserStep::Done(one(reply(args.to_string(), "🗣️", channel)))
    } else if same(command, "/calc") {
        UserStep::NeedArithmetic(
            AwaitingArithmetic { expression: args.to_string(), channel: channel.clone() },
        )
    } else if same(command, "/roll") {
        UserStep::Done(one(reply(plus("Roll: ", dice), "🎲", channel)))
    } else if same(command, "/get_history") {
        get_history(args, channel)
    } else if same(command, "/propose_channel") {
        propose_channel(args, channel, username, now, id)
    } else if same(command, "/get_active_users") {
        UserStep::NeedActiveUsers(AwaitingActiveUsers { key: "active_users" })
    } else {
        UserStep::NotHandled
    }
}

} // verus!
