//! What the server asks of the database, and what it answers with.

use vstd::prelude::*;
use crate::commands::admin::AdminStep;
use crate::commands::admin::AwaitingProposal;
use crate::commands::admin::AwaitingProposals;
use crate::commands::admin::AwaitingUser;
use crate::commands::admin::handle_admin_command;
use crate::commands::lemma_name_marks;
use crate::commands::user::Chance;
use crate::commands::user::UserStep;
use crate::commands::user::handle_user_command;
use crate::config::MAX_CONNECTIONS;
use crate::config::count_channels;
use crate::config::database_url;
use crate::config::first_channel;
use crate::config::jwt_secret;
use crate::config::pubsub_url;
use crate::config::redis_url;
use crate::config::websocket_address;
use crate::data_access::get_all_approved_channels;
use crate::data_access::get_all_pending_channel_proposals;
use crate::data_access::get_channel_ban_info;
use crate::data_access::get_channel_info;
use crate::data_access::get_channel_proposal_info;
use crate::data_access::get_user_info;
use crate::data_service::DataService;
use crate::data_service::ServiceUser;
use crate::data_service::UnreadableDate;
use crate::data_service::UserRow;
use crate::data_service::user_with;
use crate::effect::Effect;
use crate::files::UPLOADS_DIR;
use crate::laws::accounts::binds;
use crate::laws::accounts::lemma_values;
use crate::laws::calls::lemma_entries;
use crate::laws::operations::replies;
use crate::models::Channel;
use crate::outside::DecodedClaims;
use crate::outside::LATEST_SECOND;
use crate::outside::moment_of;
use crate::status::Status;
use crate::store::Change;
use crate::store::Statement;
use crate::ws::Admission;
use crate::ws::AwaitingBan;
use crate::ws::AwaitingChannel;
use crate::ws::AwaitingMeow;
use crate::ws::ChannelList;
use crate::ws::channel_list;
use crate::ws::forward;
use crate::ws::let_in;
use crate::ws::subscriptions;

verus! {

/// Records are looked up by exactly the keys that are given.
pub proof fn lemma_look_ups(
    a: &str,
    b: &str,
    user: Statement,
    channel: Statement,
    ban: Statement,
    proposal: Statement,
    channels: Statement,
    pending: Statement,
)
    requires
        call_ensures(get_user_info, (a,), user),
        call_ensures(get_channel_info, (a,), channel),
        call_ensures(get_channel_ban_info, (a, b), ban),
        call_ensures(get_channel_proposal_info, (a,), proposal),
        call_ensures(get_all_approved_channels, (), channels),
        call_ensures(get_all_pending_channel_proposals, (), pending),
    ensures
        binds(
            user,
            "SELECT id, username, icon, password_hash, IsAdmin as is_admin, IsSuperAdmin as is_super_admin, IsBanned as is_banned, BanMuteUntil as ban_mute_until FROM users WHERE username = ?"@,
            seq![a@],
        ),
        binds(channel, "SELECT id, name, icon FROM channels WHERE id = ?"@, seq![a@]),
        binds(
            ban,
            "SELECT ban_mute_until FROM channel_bans WHERE channel_id = ? AND banned_username = ?"@,
            seq![a@, b@],
        ),
        binds(
            proposal,
            "SELECT id, name, icon, proposer_username, status, timestamp FROM channel_proposals WHERE id = ?"@,
            seq![a@],
        ),
        binds(channels, "SELECT id, name, icon FROM channels"@, Seq::empty()),
        binds(
            pending,
            "SELECT id, name, icon, proposer_username, status, timestamp FROM channel_proposals WHERE status = 'PENDING'"@,
            Seq::empty(),
        ),
{
    lemma_values(user);
    lemma_values(channel);
    lemma_values(ban);
    lemma_values(proposal);
    lemma_values(channels);
    lemma_values(pending);
}

/// What a message or a command waits for is looked up by what it names: the channel of a message, its
/// author's ban from that channel, the target of a command, the proposal to decide on.
pub proof fn lemma_waits(
    message: AwaitingChannel,
    author: AwaitingBan,
    target: AwaitingUser,
    decision: AwaitingProposal,
    chat: AwaitingMeow,
    channel: Statement,
    ban: Statement,
    user: Statement,
    proposal: Statement,
    key: &'static str,
)
    requires
        call_ensures(AwaitingChannel::query, (&message,), channel),
        call_ensures(AwaitingBan::query, (&author,), ban),
        call_ensures(AwaitingUser::query, (&target,), user),
        call_ensures(AwaitingProposal::query, (&decision,), proposal),
        call_ensures(AwaitingMeow::key, (&chat,), key),
    ensures
        binds(
            channel,
            "SELECT id, name, icon FROM channels WHERE id = ?"@,
            seq![message.channel_id@],
        ),
        binds(
            ban,
            "SELECT ban_mute_until FROM channel_bans WHERE channel_id = ? AND banned_username = ?"@,
            seq![author.channel.id@, author.username@],
        ),
        binds(
            user,
            "SELECT id, username, icon, password_hash, IsAdmin as is_admin, IsSuperAdmin as is_super_admin, IsBanned as is_banned, BanMuteUntil as ban_mute_until FROM users WHERE username = ?"@,
            seq![target.target@],
        ),
        binds(
            proposal,
            "SELECT id, name, icon, proposer_username, status, timestamp FROM channel_proposals WHERE id = ?"@,
            seq![decision.id@],
        ),
        key@ == "meow_mode"@,
{
    lemma_values(channel);
    lemma_values(ban);
    lemma_values(user);
    lemma_values(proposal);
}

/// Each change of the chat's tables is made by its own statement, with what it changes bound in the
/// places of the statement.
pub proof fn lemma_change_statements(change: Change, r: Statement)
    requires
        call_ensures(Change::statement, (&change,), r),
    ensures
        match change {
            Change::BanUser { username } => binds(
                r,
                "UPDATE users SET IsBanned = 1 WHERE username = ?"@,
                seq![username@],
            ),
            Change::RemoveAdmin { username } => binds(
                r,
                "UPDATE users SET IsAdmin = 0 WHERE username = ?"@,
                seq![username@],
            ),
            Change::MuteUser { username, until } => {
                &&& r.sql@ == "UPDATE users SET BanMuteUntil = ? WHERE username = ?"@
                &&& r.values@.len() == 2
                &&& r.values@[0] is Integer && r.values@[0]->Integer_0 == until
                &&& r.values@[1] is Text && r.values@[1]->Text_0@ == username@
            },
            Change::AddChannel(channel) => binds(
                r,
                "INSERT INTO channels (id, name, icon) VALUES (?, ?, ?)"@,
                seq![channel.id@, channel.name@, channel.icon@],
            ),
            Change::DeleteChannel { channel_id } => binds(
                r,
                "DELETE FROM channels WHERE id = ?"@,
                seq![channel_id@],
            ),
            Change::DeleteChannelBans { channel_id } => binds(
                r,
                "DELETE FROM channel_bans WHERE channel_id = ?"@,
                seq![channel_id@],
            ),
            Change::AddProposal(p) => {
                &&& r.sql@
                    == "INSERT INTO channel_proposals (id, name, icon, proposer_username, status, timestamp) VALUES (?, ?, ?, ?, ?, ?)"@
                &&& r.values@.len() == 6
                &&& r.values@[0] is Text && r.values@[0]->Text_0@ == p.id@
                &&& r.values@[1] is Text && r.values@[1]->Text_0@ == p.name@
                &&& r.values@[2] is Text && r.values@[2]->Text_0@ == p.icon@
                &&& r.values@[3] is Text && r.values@[3]->Text_0@ == p.proposer_username@
                &&& r.values@[4] is Text && r.values@[4]->Text_0@ == p.status@
                &&& r.values@[5] is Integer && r.values@[5]->Integer_0 == p.timestamp
            },
            Change::ApproveProposal { id } => binds(
                r,
                "UPDATE channel_proposals SET status = 'APPROVED' WHERE id = ?"@,
                seq![id@],
            ),
            Change::RejectProposal { id } => binds(
                r,
                "UPDATE channel_proposals SET status = 'REJECTED' WHERE id = ?"@,
                seq![id@],
            ),
            Change::PutChannelBan { channel_id, username, until } => {
                &&& r.sql@
                    == "INSERT OR REPLACE INTO channel_bans (channel_id, banned_username, ban_mute_until) VALUES (?, ?, ?)"@
                &&& r.values@.len() == 3
                &&& r.values@[0] is Text && r.values@[0]->Text_0@ == channel_id@
                &&& r.values@[1] is Text && r.values@[1]->Text_0@ == username@
                &&& r.values@[2] is Integer && r.values@[2]->Integer_0 == until
            },
            Change::DeleteChannelBan { channel_id, username } => binds(
                r,
                "DELETE FROM channel_bans WHERE channel_id = ? AND banned_username = ?"@,
                seq![channel_id@, username@],
            ),
        },
{
    lemma_values(r);
}

/// What a row says of a user is read as it stands, if its date can be read.
pub proof fn lemma_rows_read(
    service: DataService,
    row: UserRow,
    moment: Option<(i64, u32)>,
    r: Result<ServiceUser, UnreadableDate>,
    s: Result<ServiceUser, UnreadableDate>,
)
    requires
        call_ensures(user_with, (row, moment), r),
        call_ensures(DataService::read_user, (&service, row), s),
    ensures
        r is Ok <==> moment is Some,
        r matches Ok(user) ==> user.id == row.id && user.name@ == row.name@ && user.password@
            == row.password@ && user.icon@ == row.icon@ && Some(user.date_of_creation) == moment,
        s is Ok <==> moment_of(row.date_of_creation@) is Some,
        s matches Ok(user) ==> user.id == row.id && user.name@ == row.name@ && user.password@
            == row.password@ && user.icon@ == row.icon@ && Some(user.date_of_creation) == moment_of(
            row.date_of_creation@,
        ),
{
}

/// Whether a statement is this one and binds this number alone.
pub open spec fn binds_number(r: Statement, sql: Seq<char>, n: i64) -> bool {
    &&& r.sql@ == sql
    &&& r.values@.len() == 1
    &&& r.values@[0] is Integer && r.values@[0]->Integer_0 == n
}

/// The users and servers of the service are looked up, renamed and removed by the number given.
pub proof fn lemma_service_statements(
    service: DataService,
    id: i64,
    name: String,
    exists_user: Statement,
    exists_server: Statement,
    get: Statement,
    remove: Statement,
    rename: Statement,
)
    requires
        call_ensures(DataService::user_exists, (&service, id), exists_user),
        call_ensures(DataService::server_exists, (&service, id), exists_server),
        call_ensures(DataService::get_user, (&service, id), get),
        call_ensures(DataService::remove_user, (&service, id), remove),
        call_ensures(DataService::change_user_name, (&service, id, name), rename),
    ensures
        binds_number(exists_user, "SELECT id FROM users WHERE id = ?"@, id),
        binds_number(exists_server, "SELECT id FROM servers WHERE id = ?"@, id),
        binds_number(
            get,
            "SELECT id, name, password, date_of_creation, icon FROM users WHERE id = ?"@,
            id,
        ),
        binds_number(remove, "DELETE FROM users WHERE id = ?"@, id),
        rename.sql@ == "UPDATE users SET name = ? WHERE id = ?"@,
        rename.values@.len() == 2,
        rename.values@[0] is Text && rename.values@[0]->Text_0@ == name@,
        rename.values@[1] is Integer && rename.values@[1]->Integer_0 == id,
{
    lemma_values(exists_user);
    lemma_values(exists_server);
    lemma_values(get);
    lemma_values(remove);
    lemma_values(rename);
}

/// A user of the service is stored with the name, the hash, the date and the icon given, in these
/// places.
pub proof fn lemma_service_insertion(
    service: DataService,
    name: String,
    hash: String,
    date: String,
    icon: String,
    r: Statement,
)
    requires
        call_ensures(DataService::insert_user, (&service, name, hash, date, icon), r),
    ensures
        binds(
            r,
            "INSERT INTO users (name, password, date_of_creation, icon) VALUES (?, ?, ?, ?)"@,
            seq![name@, hash@, date@, icon@],
        ),
{
    lemma_values(r);
}

/// What the environment sets is taken as it is, and each setting has its own default.
pub proof fn lemma_settings(
    value: Option<String>,
    database: String,
    pubsub: String,
    redis: String,
    secret: String,
    address: &'static str,
)
    requires
        call_ensures(database_url, (value,), database),
        call_ensures(pubsub_url, (value,), pubsub),
        call_ensures(redis_url, (value,), redis),
        call_ensures(jwt_secret, (value,), secret),
        call_ensures(websocket_address, (), address),
    ensures
        value matches Some(v) ==> database@ == v@ && pubsub@ == v@ && redis@ == v@ && secret@
            == v@,
        value is None ==> database@ == "sqlite://chat.db"@ && pubsub@ == "redis://127.0.0.1/"@
            && redis@ == "redis://127.0.0.1:6333"@ && secret@
            == "heyoheyoimahardcodedsecretandimgonnabepushedtotherepoingithubyay"@,
        address@ == "0.0.0.0:34093"@,
{
}

/// The channel `home` is made exactly if there is no channel yet.
pub proof fn lemma_first_channel(count: i64, r: Option<Change>, counting: Statement)
    requires
        call_ensures(first_channel, (count,), r),
        call_ensures(count_channels, (), counting),
    ensures
        r is Some <==> count == 0,
        r matches Some(change) ==> change is AddChannel && change->AddChannel_0.id@ == "home"@
            && change->AddChannel_0.name@ == "Home"@ && change->AddChannel_0.icon@ == "\u{f015}"@,
        binds(counting, "SELECT COUNT(*) FROM channels"@, Seq::empty()),
{
    lemma_values(counting);
}

/// The numbers of the statuses.
pub proof fn lemma_status_codes(status: Status, r: u16)
    requires
        call_ensures(Status::code, (status,), r),
    ensures
        r == 200 <==> status is Success,
        r == 400 <==> status is BadRequest,
        r == 401 <==> status is Unauthorized,
        r == 404 <==> status is NotFound,
        r == 409 <==> status is Conflict,
        r == 413 <==> status is PayloadTooLarge,
        r == 500 <==> status is InternalServerError,
{
}

/// Whoever connects is let in under the name in the claims, told of every channel, subscribed to each
/// of them, and sent what is published as it stands.
pub proof fn lemma_connections(
    claims: Option<DecodedClaims>,
    r: Admission,
    channels: Vec<Channel>,
    list: ChannelList,
    names: Vec<String>,
    i: int,
    payload: String,
    sent: Effect,
)
    requires
        call_ensures(let_in, (claims,), r),
        call_ensures(channel_list, (channels,), list),
        call_ensures(subscriptions, (&channels,), names),
        call_ensures(forward, (payload,), sent),
        0 <= i < channels@.len(),
    ensures
        r is Accepted <==> claims is Some && claims->0.sub is Some,
        r is Accepted ==> r->username@ == claims->0.sub->0@,
        r is Refused ==> r->code == 1008 && r->reason@ == "Invalid or expired token"@,
        list.channels@.len() == channels@.len(),
        list.channels@[i].id@ == channels@[i].id@,
        list.channels@[i].name@ == channels@[i].name@,
        list.channels@[i].icon@ == channels@[i].icon@,
        names@.len() == channels@.len() + 1,
        names@[i]@ == "chat:"@ + channels@[i].id@,
        names@[channels@.len() as int]@ == "channel_updates"@,
        sent is SendText && sent->SendText_0@ == payload@,
{
    assert(claims.deep_view() is Some <==> claims is Some);
    let given = channels.deep_view();
    assert(list.channels.deep_view().len() == given.len());
    assert(list.channels.deep_view()[i] == list.channels@[i].deep_view());
    assert(given[i] == channels@[i].deep_view());
    assert(names.deep_view().len() == given.len() + 1);
    assert(names.deep_view()[i] == names@[i]@);
    assert(names.deep_view()[given.len() as int] == names@[given.len() as int]@);
}

/// What nothing sets: where uploads are kept, and how many connections to the database there are.
pub proof fn lemma_fixed_settings()
    ensures
        UPLOADS_DIR@ == "uploads"@,
        MAX_CONNECTIONS == 5,
{
}

/// The pending proposals are listed to super administrators, from the proposals that are pending, and
/// to no other administrator; an echo is what was given.
pub proof fn lemma_handled_for(
    command: &str,
    args: &str,
    channel: Channel,
    username: &str,
    user: crate::models::User,
    r: AdminStep,
    waiting: AwaitingProposals,
    query: Statement,
    echo: &str,
    s: UserStep,
)
    requires
        command@ == "/list_proposals"@,
        echo@ == "/echo"@,
        call_ensures(handle_admin_command, (command, args, &channel, username, &user), r),
        call_ensures(AwaitingProposals::query, (&waiting,), query),
        call_ensures(handle_user_command, (echo, args, &channel, username), s),
    ensures
        user.is_super_admin <==> r is NeedProposals,
        r matches AdminStep::NeedProposals(w) ==> w.channel.id@ == channel.id@ && w.channel.name@
            == channel.name@ && w.channel.icon@ == channel.icon@,
        !user.is_super_admin ==> (r matches AdminStep::Done(effects) && effects@.len() == 1
            && replies(
            effects@[0],
            "You do not have permission to list proposals."@,
            "🚫"@,
            channel,
        )),
        binds(
            query,
            "SELECT id, name, icon, proposer_username, status, timestamp FROM channel_proposals WHERE status = 'PENDING'"@,
            Seq::empty(),
        ),
        s matches UserStep::Done(effects) && effects@.len() == 1 && replies(
            effects@[0],
            args@,
            "🗣️"@,
            channel,
        ),
{
    lemma_name_marks();
    lemma_values(query);
    let now = choose|now: int|
        0 <= now <= LATEST_SECOND && r.deep_view()
            == #[trigger] crate::commands::admin::admin_step(
            command@,
            args@,
            channel.deep_view(),
            username@,
            user.is_super_admin,
            now,
        );
    let chance = choose|chance: Chance|
        chance.possible(echo@, args@) && s.deep_view()
            == #[trigger] crate::commands::user::user_step(
            echo@,
            args@,
            channel.deep_view(),
            username@,
            chance,
        );
    if let AdminStep::Done(effects) = r {
        lemma_entries(effects);
    }
    if let UserStep::Done(effects) = s {
        lemma_entries(effects);
    }
}

} // verus!
