//! The database: the statements that the server runs, and what they do to its tables.

use vstd::prelude::*;
use crate::models::Channel;
use crate::models::ChannelProposal;
use crate::models::ChannelView;
use crate::models::ProposalView;

verus! {

/// A value that a statement binds.
#[derive(Debug)]
pub enum SqlValue {
    Text(String),
    Integer(i64),
    Identifier(u128),
    Null,
}

/// A bound value by what it holds.
pub enum SqlView {
    Text(Seq<char>),
    Integer(i64),
    Identifier(u128),
    Null,
}

impl DeepView for SqlValue {
    type V = SqlView;

    open spec fn deep_view(&self) -> SqlView {
        match self {
            SqlValue::Text(s) => SqlView::Text(s@),
            SqlValue::Integer(n) => SqlView::Integer(*n),
            SqlValue::Identifier(id) => SqlView::Identifier(*id),
            SqlValue::Null => SqlView::Null,
        }
    }
}

/// A text value.
pub fn text_value(s: &str) -> (r: SqlValue)
    ensures
        r.deep_view() == SqlView::Text(s@),
{
    SqlValue::Text(s.to_string())
}

/// A statement with the values for its placeholders, in order.
#[derive(Debug)]
pub struct Statement {
    pub sql: &'static str,
    pub values: Vec<SqlValue>,
}

/// What a statement holds.
pub struct StatementView {
    pub sql: Seq<char>,
    pub values: Seq<SqlView>,
}

impl DeepView for Statement {
    type V = StatementView;

    open spec fn deep_view(&self) -> StatementView {
        StatementView { sql: self.sql@, values: self.values.deep_view() }
    }
}

/// A statement without placeholders.
pub fn statement0(sql: &'static str) -> (r: Statement)
    ensures
        r.deep_view() == (StatementView { sql: sql@, values: seq![] }),
{
    let values: Vec<SqlValue> = Vec::new();
    assert(values.deep_view() =~= seq![]);
    Statement { sql, values }
}

/// A statement with one placeholder.
pub fn statement1(sql: &'static str, a: SqlValue) -> (r: Statement)
    ensures
        r.deep_view() == (StatementView { sql: sql@, values: seq![a.deep_view()] }),
{
    let values: Vec<SqlValue> = vec![a];
    assert(values.deep_view() =~= seq![a.deep_view()]);
    Statement { sql, values }
}

/// A statement with two placeholders.
pub fn statement2(sql: &'static str, a: SqlValue, b: SqlValue) -> (r: Statement)
    ensures
        r.deep_view() == (StatementView { sql: sql@, values: seq![a.deep_view(), b.deep_view()] }),
{
    let values: Vec<SqlValue> = vec![a, b];
    assert(values.deep_view() =~= seq![a.deep_view(), b.deep_view()]);
    Statement { sql, values }
}

/// A statement with any number of placeholders.
pub fn statement(sql: &'static str, values: Vec<SqlValue>) -> (r: Statement)
    ensures
        r.deep_view() == (StatementView { sql: sql@, values: values.deep_view() }),
{
    Statement { sql, values }
}

/// A change that the chat makes to the database.
#[derive(Debug)]
pub enum Change {
    BanUser { username: String },
    RemoveAdmin { username: String },
    MuteUser { username: String, until: i64 },
    AddChannel(Channel),
    DeleteChannel { channel_id: String },
    DeleteChannelBans { channel_id: String },
    AddProposal(ChannelProposal),
    ApproveProposal { id: String },
    RejectProposal { id: String },
    PutChannelBan { channel_id: String, username: String, until: i64 },
    DeleteChannelBan { channel_id: String, username: String },
}

/// A change by what it holds.
pub enum ChangeView {
    BanUser { username: Seq<char> },
    RemoveAdmin { username: Seq<char> },
    MuteUser { username: Seq<char>, until: i64 },
    AddChannel(ChannelView),
    DeleteChannel { channel_id: Seq<char> },
    DeleteChannelBans { channel_id: Seq<char> },
    AddProposal(ProposalView),
    ApproveProposal { id: Seq<char> },
    RejectProposal { id: Seq<char> },
    PutChannelBan { channel_id: Seq<char>, username: Seq<char>, until: i64 },
    DeleteChannelBan { channel_id: Seq<char>, username: Seq<char> },
}

impl DeepView for Change {
    type V = ChangeView;

    open spec fn deep_view(&self) -> ChangeView {
        match self {
            Change::BanUser { username } => ChangeView::BanUser { username: username@ },
            Change::RemoveAdmin { username } => ChangeView::RemoveAdmin { username: username@ },
            Change::MuteUser { username, until } => ChangeView::MuteUser {
                username: username@,
                until: *until,
            },
            Change::AddChannel(channel) => ChangeView::AddChannel(channel.deep_view()),
            Change::DeleteChannel { channel_id } => ChangeView::DeleteChannel {
                channel_id: channel_id@,
            },
            Change::DeleteChannelBans { channel_id } => ChangeView::DeleteChannelBans {
                channel_id: channel_id@,
            },
            Change::AddProposal(proposal) => ChangeView::AddProposal(proposal.deep_view()),
            Change::ApproveProposal { id } => ChangeView::ApproveProposal { id: id@ },
            Change::RejectProposal { id } => ChangeView::RejectProposal { id: id@ },
            Change::PutChannelBan { channel_id, username, until } => ChangeView::PutChannelBan {
                channel_id: channel_id@,
                username: username@,
                until: *until,
            },
            Change::DeleteChannelBan { channel_id, username } => ChangeView::DeleteChannelBan {
                channel_id: channel_id@,
                username: username@,
            },
        }
    }
}

impl ChangeView {
    /// The statement that makes the change.
    pub open spec fn statement(self) -> StatementView {
        match self {
            ChangeView::BanUser { username } => StatementView {
                sql: "UPDATE users SET IsBanned = 1 WHERE username = ?"@,
                values: seq![SqlView::Text(username)],
            },
            ChangeView::RemoveAdmin { username } => StatementView {
                sql: "UPDATE users SET IsAdmin = 0 WHERE username = ?"@,
                values: seq![SqlView::Text(username)],
            },
            ChangeView::MuteUser { username, until } => StatementView {
                sql: "UPDATE users SET BanMuteUntil = ? WHERE username = ?"@,
                values: seq![SqlView::Integer(until), SqlView::Text(username)],
            },
            ChangeView::AddChannel(channel) => StatementView {
                sql: "INSERT INTO channels (id, name, icon) VALUES (?, ?, ?)"@,
                values: seq![
                    SqlView::Text(channel.id),
                    SqlView::Text(channel.name),
                    SqlView::Text(channel.icon),
                ],
            },
            ChangeView::DeleteChannel { channel_id } => StatementView {
                sql: "DELETE FROM channels WHERE id = ?"@,
                values: seq![SqlView::Text(channel_id)],
            },
            ChangeView::DeleteChannelBans { channel_id } => StatementView {
                sql: "DELETE FROM channel_bans WHERE channel_id = ?"@,
                values: seq![SqlView::Text(channel_id)],
            },
            ChangeView::AddProposal(proposal) => StatementView {
                sql:
                    "INSERT INTO channel_proposals (id, name, icon, proposer_username, status, timestamp) VALUES (?, ?, ?, ?, ?, ?)"@,
                values: seq![
                    SqlView::Text(proposal.id),
                    SqlView::Text(proposal.name),
                    SqlView::Text(proposal.icon),
                    SqlView::Text(proposal.proposer_username),
                    SqlView::Text(proposal.status),
                    SqlView::Integer(proposal.timestamp),
                ],
            },
            ChangeView::ApproveProposal { id } => StatementView {
                sql: "UPDATE channel_proposals SET status = 'APPROVED' WHERE id = ?"@,
                values: seq![SqlView::Text(id)],
            },
            ChangeView::RejectProposal { id } => StatementView {
                sql: "UPDATE channel_proposals SET status = 'REJECTED' WHERE id = ?"@,
                values: seq![SqlView::Text(id)],
            },
            ChangeView::PutChannelBan { channel_id, username, until } => StatementView {
                sql:
                    "INSERT OR REPLACE INTO channel_bans (channel_id, banned_username, ban_mute_until) VALUES (?, ?, ?)"@,
                values: seq![
                    SqlView::Text(channel_id),
                    SqlView::Text(username),
                    SqlView::Integer(until),
                ],
            },
            ChangeView::DeleteChannelBan { channel_id, username } => StatementView {
                sql: "DELETE FROM channel_bans WHERE channel_id = ? AND banned_username = ?"@,
                values: seq![SqlView::Text(channel_id), SqlView::Text(username)],
            },
        }
    }
}

impl Change {
    /// The statement that makes the change.
    pub fn statement(&self) -> (r: Statement)
        ensures
            r.deep_view() == self.deep_view().statement(),
    {
        match self {
            Change::BanUser { username } => statement1(
                "UPDATE users SET IsBanned = 1 WHERE username = ?",
                text_value(username),
            ),
            Change::RemoveAdmin { username } => statement1(
                "UPDATE users SET IsAdmin = 0 WHERE username = ?",
                text_value(username),
            ),
            Change::MuteUser { username, until } => statement2(
                "UPDATE users SET BanMuteUntil = ? WHERE username = ?",
                SqlValue::Integer(*until),
                text_value(username),
            ),
            Change::AddChannel(channel) => {
                let values: Vec<SqlValue> = vec![
                    text_value(&channel.id),
                    text_value(&channel.name),
                    text_value(&channel.icon),
                ];
                assert(values.deep_view() =~= self.deep_view().statement().values);
                statement("INSERT INTO channels (id, name, icon) VALUES (?, ?, ?)", values)
            },
            Change::DeleteChannel { channel_id } => statement1(
                "DELETE FROM channels WHERE id = ?",
                text_value(channel_id),
            ),
            Change::DeleteChannelBans { channel_id } => statement1(
                "DELETE FROM channel_bans WHERE channel_id = ?",
                text_value(channel_id),
            ),
            Change::AddProposal(proposal) => {
                let values: Vec<SqlValue> = vec![
                    text_value(&proposal.id),
                    text_value(&proposal.name),
                    text_value(&proposal.icon),
                    text_value(&proposal.proposer_username),
                    text_value(&proposal.status),
                    SqlValue::Integer(proposal.timestamp),
                ];
                assert(values.deep_view() =~= self.deep_view().statement().values);
                statement(
                    "INSERT INTO channel_proposals (id, name, icon, proposer_username, status, timestamp) VALUES (?, ?, ?, ?, ?, ?)",
                    values,
                )
            },
            Change::ApproveProposal { id } => statement1(
                "UPDATE channel_proposals SET status = 'APPROVED' WHERE id = ?",
                text_value(id),
            ),
            Change::RejectProposal { id } => statement1(
                "UPDATE channel_proposals SET status = 'REJECTED' WHERE id = ?",
                text_value(id),
            ),
            Change::PutChannelBan { channel_id, username, until } => {
                let values: Vec<SqlValue> = vec![
                    text_value(channel_id),
                    text_value(username),
                    SqlValue::Integer(*until),
                ];
                assert(values.deep_view() =~= self.deep_view().statement().values);
                statement(
                    "INSERT OR REPLACE INTO channel_bans (channel_id, banned_username, ban_mute_until) VALUES (?, ?, ?)",
                    values,
                )
            },
            Change::DeleteChannelBan { channel_id, username } => statement2(
                "DELETE FROM channel_bans WHERE channel_id = ? AND banned_username = ?",
                text_value(channel_id),
                text_value(username),
            ),
        }
    }
}

} // verus!
