//! The look-ups that the chat makes in the database.

use vstd::prelude::*;
use crate::store::statement0;
use crate::store::statement1;
use crate::store::statement2;
use crate::store::text_value;
use crate::store::SqlView;
use crate::store::Statement;
use crate::store::StatementView;

verus! {

/// The look-up of an account by its name.
pub open spec fn user_query(username: Seq<char>) -> StatementView {
    StatementView {
        sql:
            "SELECT id, username, icon, password_hash, IsAdmin as is_admin, IsSuperAdmin as is_super_admin, IsBanned as is_banned, BanMuteUntil as ban_mute_until FROM users WHERE username = ?"@,
        values: seq![SqlView::Text(username)],
    }
}

/// Looks up an account by its name.
pub fn get_user_info(username: &str) -> (r: Statement)
    ensures
        r.deep_view() == user_query(username@),
{
    statement1(
        "SELECT id, username, icon, password_hash, IsAdmin as is_admin, IsSuperAdmin as is_super_admin, IsBanned as is_banned, BanMuteUntil as ban_mute_until FROM users WHERE username = ?",
        text_value(username),
    )
}

/// The look-up of a channel by its identifier.
pub open spec fn channel_query(channel_id: Seq<char>) -> StatementView {
    StatementView {
        sql: "SELECT id, name, icon FROM channels WHERE id = ?"@,
        values: seq![SqlView::Text(channel_id)],
    }
}

/// Looks up a channel by its identifier.
pub fn get_channel_info(channel_id: &str) -> (r: Statement)
    ensures
        r.deep_view() == channel_query(channel_id@),
{
    statement1("SELECT id, name, icon FROM channels WHERE id = ?", text_value(channel_id))
}

/// The look-up of a user's ban from a channel.
pub open spec fn channel_ban_query(channel_id: Seq<char>, username: Seq<char>) -> StatementView {
    StatementView {
        sql:
            "SELECT ban_mute_until FROM channel_bans WHERE channel_id = ? AND banned_username = ?"@,
        values: seq![SqlView::Text(channel_id), SqlView::Text(username)],
    }
}

/// Looks up a user's ban from a channel.
pub fn get_channel_ban_info(channel_id: &str, username: &str) -> (r: Statement)
    ensures
        r.deep_view() == channel_ban_query(channel_id@, username@),
{
    statement2(
        "SELECT ban_mute_until FROM channel_bans WHERE channel_id = ? AND banned_username = ?",
        text_value(channel_id),
        text_value(username),
    )
}

/// Lists the channels.
pub fn get_all_approved_channels() -> (r: Statement)
    ensures
        r.deep_view() == (StatementView {
            sql: "SELECT id, name, icon FROM channels"@,
            values: seq![],
        }),
{
    statement0("SELECT id, name, icon FROM channels")
}

/// The look-up of a proposal by its identifier.
pub open spec fn proposal_query(proposal_id: Seq<char>) -> StatementView {
    StatementView {
        sql:
            "SELECT id, name, icon, proposer_username, status, timestamp FROM channel_proposals WHERE id = ?"@,
        values: seq![SqlView::Text(proposal_id)],
    }
}

/// Looks up a proposal by its identifier.
pub fn get_channel_proposal_info(proposal_id: &str) -> (r: Statement)
    ensures
        r.deep_view() == proposal_query(proposal_id@),
{
    statement1(
        "SELECT id, name, icon, proposer_username, status, timestamp FROM channel_proposals WHERE id = ?",
        text_value(proposal_id),
    )
}

/// The list of the proposals that wait for a decision.
pub open spec fn pending_query() -> StatementView {
    StatementView {
        sql:
            "SELECT id, name, icon, proposer_username, status, timestamp FROM channel_proposals WHERE status = 'PENDING'"@,
        values: seq![],
    }
}

/// Lists the proposals that wait for a decision.
pub fn get_all_pending_channel_proposals() -> (r: Statement)
    ensures
        r.deep_view() == pending_query(),
{
    statement0(
        "SELECT id, name, icon, proposer_username, status, timestamp FROM channel_proposals WHERE status = 'PENDING'",
    )
}

} // verus!
