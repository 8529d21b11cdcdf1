//! Where the server finds things, and what it sets up when it starts.

use vstd::prelude::*;
use crate::models::Channel;
use crate::models::ChannelView;
use crate::store::statement0;
use crate::store::Change;
use crate::store::ChangeView;
use crate::store::Statement;
use crate::store::StatementView;

verus! {

/// The most connections to the database.
pub const MAX_CONNECTIONS: u32 = 5;

/// The text that is set, or else the default.
pub open spec fn set_or(value: Option<Seq<char>>, default: Seq<char>) -> Seq<char> {
    match value {
        Some(text) => text,
        None => default,
    }
}

fn or_default(value: Option<String>, default: &'static str) -> (r: String)
    ensures
        r@ == set_or(value.deep_view(), default@),
{
    match value {
        Some(text) => text,
        None => default.to_string(),
    }
}

/// The address of the database, given what `DATABASE_URL` says.
pub fn database_url(value: Option<String>) -> (r: String)
    ensures
        r@ == set_or(value.deep_view(), "sqlite://chat.db"@),
{
    or_default(value, "sqlite://chat.db")
}

/// The address of the Redis server for a single connection, given what `REDIS_URL` says.
pub fn pubsub_url(value: Option<String>) -> (r: String)
    ensures
        r@ == set_or(value.deep_view(), "redis://127.0.0.1/"@),
{
    or_default(value, "redis://127.0.0.1/")
}

/// The address of the Redis server for the chat, given what `REDIS_URL` says.
pub fn redis_url(value: Option<String>) -> (r: String)
    ensures
        r@ == set_or(value.deep_view(), "redis://127.0.0.1:6333"@),
{
    or_default(value, "redis://127.0.0.1:6333")
}

/// The secret that signs session tokens, given what `JWT_SECRET` says.
pub fn jwt_secret(value: Option<String>) -> (r: String)
    ensures
        r@ == set_or(
            value.deep_view(),
            "heyoheyoimahardcodedsecretandimgonnabepushedtotherepoingithubyay"@,
        ),
{
    or_default(value, "heyoheyoimahardcodedsecretandimgonnabepushedtotherepoingithubyay")
}

/// The address on which WebSocket connections are taken.
pub fn websocket_address() -> (r: &'static str)
    ensures
        r@ == "0.0.0.0:34093"@,
{
    "0.0.0.0:34093"
}

/// The query that counts the channels.
pub fn count_channels() -> (r: Statement)
    ensures
        r.deep_view() == (StatementView { sql: "SELECT COUNT(*) FROM channels"@, values: seq![] }),
{
    statement0("SELECT COUNT(*) FROM channels")
}

/// What is added to the database when the server starts: where there is no channel, the channel
/// that plain messages go to.
pub open spec fn first_change(count: int) -> Option<ChangeView> {
    if count == 0 {
        Some(
            ChangeView::AddChannel(
                ChannelView { id: "home"@, name: "Home"@, icon: "\u{f015}"@ },
            ),
        )
    } else {
        None
    }
}

/// What is added to the database when the server starts and finds so many channels.
pub fn first_channel(count: i64) -> (r: Option<Change>)
    ensures
        r.deep_view() == first_change(count as int),
{
    if count == 0 {
        Some(
            Change::AddChannel(
                Channel {
                    id: "home".to_string(),
                    name: "Home".to_string(),
                    icon: "\u{f015}".to_string(),
                },
            ),
        )
    } else {
        None
    }
}

} // verus!
