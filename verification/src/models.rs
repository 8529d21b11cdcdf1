//! The records that the server keeps.

use vstd::prelude::*;

verus! {

/// An account.
#[derive(Debug)]
pub struct User {
    pub id: u128,
    pub username: String,
    pub icon: String,
    pub password_hash: String,
    pub is_admin: bool,
    pub is_super_admin: bool,
    pub is_banned: bool,
    pub ban_mute_until: Option<i64>,
}

/// What an account holds.
pub struct UserView {
    pub id: u128,
    pub username: Seq<char>,
    pub icon: Seq<char>,
    pub password_hash: Seq<char>,
    pub is_admin: bool,
    pub is_super_admin: bool,
    pub is_banned: bool,
    pub ban_mute_until: Option<i64>,
}

impl DeepView for User {
    type V = UserView;

    open spec fn deep_view(&self) -> UserView {
        UserView {
            id: self.id,
            username: self.username@,
            icon: self.icon@,
            password_hash: self.password_hash@,
            is_admin: self.is_admin,
            is_super_admin: self.is_super_admin,
            is_banned: self.is_banned,
            ban_mute_until: self.ban_mute_until,
        }
    }
}

impl Clone for User {
    fn clone(&self) -> (r: Self)
        ensures
            r.deep_view() == self.deep_view(),
    {
        User {
            id: self.id,
            username: self.username.clone(),
            icon: self.icon.clone(),
            password_hash: self.password_hash.clone(),
            is_admin: self.is_admin,
            is_super_admin: self.is_super_admin,
            is_banned: self.is_banned,
            ban_mute_until: self.ban_mute_until,
        }
    }
}

/// A user's ban from one channel: the second at which it ends, or 0 if it has no end.
#[derive(Debug, Clone, Copy)]
pub struct ChannelBanInfo {
    pub ban_mute_until: Option<i64>,
}

/// What a session token says: whose it is, and the second at which it expires.
#[derive(Debug)]
pub struct Claims {
    pub sub: String,
    pub exp: usize,
}

/// A chat message as it is stored.
#[derive(Debug)]
pub struct Message {
    pub user: String,
    pub icon: String,
    pub content: String,
    pub timestamp: i64,
    pub channel_id: String,
}

/// A channel.
#[derive(Debug)]
pub struct Channel {
    pub id: String,
    pub name: String,
    pub icon: String,
}

/// What a channel holds.
pub struct ChannelView {
    pub id: Seq<char>,
    pub name: Seq<char>,
    pub icon: Seq<char>,
}

impl DeepView for Channel {
    type V = ChannelView;

    open spec fn deep_view(&self) -> ChannelView {
        ChannelView { id: self.id@, name: self.name@, icon: self.icon@ }
    }
}

impl Clone for Channel {
    fn clone(&self) -> (r: Self)
        ensures
            r.deep_view() == self.deep_view(),
    {
        Channel { id: self.id.clone(), name: self.name.clone(), icon: self.icon.clone() }
    }
}

/// A channel that a user has proposed.
#[derive(Debug)]
pub struct ChannelProposal {
    pub id: String,
    pub name: String,
    pub icon: String,
    pub proposer_username: String,
    pub status: String,
    pub timestamp: i64,
}

/// What a proposal holds.
pub struct ProposalView {
    pub id: Seq<char>,
    pub name: Seq<char>,
    pub icon: Seq<char>,
    pub proposer_username: Seq<char>,
    pub status: Seq<char>,
    pub timestamp: i64,
}

impl DeepView for ChannelProposal {
    type V = ProposalView;

    open spec fn deep_view(&self) -> ProposalView {
        ProposalView {
            id: self.id@,
            name: self.name@,
            icon: self.icon@,
            proposer_username: self.proposer_username@,
            status: self.status@,
            timestamp: self.timestamp,
        }
    }
}

impl Clone for ChannelProposal {
    fn clone(&self) -> (r: Self)
        ensures
            r.deep_view() == self.deep_view(),
    {
        ChannelProposal {
            id: self.id.clone(),
            name: self.name.clone(),
            icon: self.icon.clone(),
            proposer_username: self.proposer_username.clone(),
            status: self.status.clone(),
            timestamp: self.timestamp,
        }
    }
}

} // verus!
