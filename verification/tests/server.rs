use chat_server::cache::CacheCommand;
use chat_server::commands::admin::AdminStep;
use chat_server::commands::user::UserStep;
use chat_server::config::first_channel;
use chat_server::effect::Effect;
use chat_server::files::Upload;
use chat_server::auth::AuthUser;
use chat_server::message::BroadcastMessage;
use chat_server::models::{Channel, ChannelBanInfo, ChannelProposal, User};
use chat_server::store::Change;
use chat_server::ws::{
    on_close, on_open, receive, BanTurn, ChannelTurn, ClientWsMessage, CommandStep, Frame,
    Received, Task,
};
use std::collections::{BTreeMap, BTreeSet};

/// A server in memory.
struct Server {
    users: BTreeMap<String, User>,
    channels: BTreeMap<String, Channel>,
    proposals: BTreeMap<String, ChannelProposal>,
    bans: BTreeMap<(String, String), i64>,
    lists: BTreeMap<String, Vec<BroadcastMessage>>,
    numbers: BTreeMap<String, i64>,
    active: BTreeSet<String>,
    published: Vec<(String, String)>,
    replies: Vec<String>,
}

fn user(name: &str, is_admin: bool, is_super_admin: bool) -> User {
    User {
        id: 1,
        username: name.to_string(),
        icon: "i".to_string(),
        password_hash: "p".to_string(),
        is_admin,
        is_super_admin,
        is_banned: false,
        ban_mute_until: None,
    }
}

impl Server {
    fn new() -> Server {
        let mut server = Server {
            users: BTreeMap::new(),
            channels: BTreeMap::new(),
            proposals: BTreeMap::new(),
            bans: BTreeMap::new(),
            lists: BTreeMap::new(),
            numbers: BTreeMap::new(),
            active: BTreeSet::new(),
            published: Vec::new(),
            replies: Vec::new(),
        };
        for (name, admin, boss) in [("bob", false, false), ("ann", true, false), ("boss", true, true)] {
            server.users.insert(name.to_string(), user(name, admin, boss));
        }
        let first = first_channel(0).unwrap();
        server.perform(vec![Effect::Apply(first)]);
        server
    }

    fn apply(&mut self, change: Change) {
        match change {
            Change::BanUser { username } => {
                self.users.get_mut(&username).unwrap().is_banned = true
            }
            Change::RemoveAdmin { username } => {
                self.users.get_mut(&username).unwrap().is_admin = false
            }
            Change::MuteUser { username, until } => {
                self.users.get_mut(&username).unwrap().ban_mute_until = Some(until)
            }
            Change::AddChannel(channel) => {
                self.channels.insert(channel.id.clone(), channel);
            }
            Change::DeleteChannel { channel_id } => {
                self.channels.remove(&channel_id);
            }
            Change::DeleteChannelBans { channel_id } => {
                self.bans.retain(|key, _| key.0 != channel_id)
            }
            Change::AddProposal(proposal) => {
                self.proposals.insert(proposal.id.clone(), proposal);
            }
            Change::ApproveProposal { id } => {
                self.proposals.get_mut(&id).unwrap().status = "APPROVED".to_string()
            }
            Change::RejectProposal { id } => {
                self.proposals.get_mut(&id).unwrap().status = "REJECTED".to_string()
            }
            Change::PutChannelBan { channel_id, username, until } => {
                self.bans.insert((channel_id, username), until);
            }
            Change::DeleteChannelBan { channel_id, username } => {
                self.bans.remove(&(channel_id, username));
            }
        }
    }

    fn cache(&mut self, command: CacheCommand) {
        match command {
            CacheCommand::SetNumber { key, value } => {
                self.numbers.insert(key.to_string(), value);
            }
            CacheCommand::Expire { .. } => {}
            CacheCommand::Delete { key } => {
                self.numbers.remove(key);
            }
            CacheCommand::AddMember { member, .. } => {
                self.active.insert(member);
            }
            CacheCommand::RemoveMember { member, .. } => {
                self.active.remove(&member);
            }
            CacheCommand::Push { key, message } => {
                self.lists.entry(key).or_default().push(message)
            }
            CacheCommand::Trim { key, start, stop } => {
                assert_eq!(stop, -1);
                let list = self.lists.get_mut(&key).unwrap();
                let extra = list.len() as i64 + start;
                if extra > 0 {
                    list.drain(0..extra as usize);
                }
            }
            CacheCommand::Publish { topic, message } => {
                self.published.push((topic, message.content))
            }
            CacheCommand::PublishChannel { topic, channel } => {
                self.published.push((topic.to_string(), channel.id))
            }
        }
    }

    fn perform(&mut self, effects: Vec<Effect>) {
        for effect in effects {
            match effect {
                Effect::Apply(change) => self.apply(change),
                Effect::Cache(command) => self.cache(command),
                Effect::Reply(reply) => self.replies.push(reply.content),
                Effect::SendText(text) => self.replies.push(text),
            }
        }
    }

    fn says_in(&mut self, name: &str, channel_id: &str, text: &str, now: i64) {
        let frame = Frame::Text {
            text: text.to_string(),
            decoded: Some(ClientWsMessage::ChannelCommand {
                content: text.to_string(),
                channel_id: channel_id.to_string(),
            }),
        };
        let waiting = match receive(frame, name, self.users[name].clone(), now) {
            Received::NeedChannel(waiting) => waiting,
            other => panic!("{:?}", other),
        };
        let channel = self.channels.get(&waiting.channel_id).cloned();
        let waiting = match waiting.resume(channel) {
            ChannelTurn::Refused(effects) => return self.perform(effects),
            ChannelTurn::NeedBan(waiting) => waiting,
        };
        let key = (waiting.channel.id.clone(), waiting.username.clone());
        let ban = self.bans.get(&key).map(|u| ChannelBanInfo { ban_mute_until: Some(*u) });
        let task = match waiting.resume(ban) {
            BanTurn::Refused(effects) => return self.perform(effects),
            BanTurn::Admitted { effects, task } => {
                self.perform(effects);
                task
            }
        };
        match task {
            Task::Chat(waiting) => {
                let mode = self.numbers.get(waiting.key()).cloned().unwrap_or(0);
                self.perform(waiting.resume(mode))
            }
            Task::Command(call) => match call.run() {
                CommandStep::Unknown(effects) => self.perform(effects),
                CommandStep::User(UserStep::Done(effects)) => self.perform(effects),
                CommandStep::User(_) => {}
                CommandStep::Admin(AdminStep::Done(effects)) => self.perform(effects),
                CommandStep::Admin(AdminStep::NeedUser(waiting)) => {
                    let found = self.users.get(&waiting.target).cloned();
                    self.perform(waiting.resume(found))
                }
                CommandStep::Admin(AdminStep::NeedProposal(waiting)) => {
                    let found = self.proposals.get(&waiting.id).cloned();
                    self.perform(waiting.resume(found))
                }
                CommandStep::Admin(AdminStep::NeedProposals(waiting)) => {
                    let pending = self.proposals.values().filter(|p| p.status == "PENDING");
                    let pending = pending.cloned().collect();
                    self.perform(waiting.resume(pending))
                }
                CommandStep::Admin(other) => panic!("{:?}", other),
            },
        }
    }

    fn says(&mut self, name: &str, text: &str, now: i64) {
        self.says_in(name, "home", text, now)
    }

    fn history(&self, channel_id: &str) -> Vec<String> {
        match self.lists.get(&format!("chat_history:{}", channel_id)) {
            Some(list) => list.iter().map(|m| m.content.clone()).collect(),
            None => Vec::new(),
        }
    }

    fn last_reply(&self) -> &str {
        self.replies.last().map(|s| s.as_str()).unwrap_or("")
    }
}

#[test]
fn what_is_said_is_kept_and_heard() {
    let mut server = Server::new();
    server.says("bob", "one", 1);
    server.says("ann", "two", 2);
    assert_eq!(server.history("home"), vec!["one", "two"]);
    assert_eq!(
        server.published,
        vec![
            ("chat:home".to_string(), "one".to_string()),
            ("chat:home".to_string(), "two".to_string())
        ]
    );
    assert!(server.replies.is_empty());
}

#[test]
fn only_the_newest_messages_are_kept() {
    let mut server = Server::new();
    for i in 0..503 {
        server.says("bob", format!("m{}", i).as_str(), i);
    }
    let history = server.history("home");
    assert_eq!(history.len(), 500);
    assert_eq!(history[0], "m3");
    assert_eq!(history[499], "m502");
}

#[test]
fn uploads_drop_no_message() {
    let mut server = Server::new();
    for i in 0..500 {
        server.says("bob", "m", i);
    }
    let mut upload = Upload::start();
    upload.saved(1);
    let home = server.channels["home"].clone();
    let effects = upload.announce(&AuthUser("bob".to_string(), "i".to_string()), "home", &home);
    server.perform(effects);
    assert_eq!(server.history("home").len(), 501);
    assert_eq!(server.history("home")[500], "bob uploaded a file: unknown");
}

#[test]
fn commands_are_not_kept() {
    let mut server = Server::new();
    for text in ["/help", "/echo x", "/roll 1d1", "/nothing", "/meow_event", "/delete_channel x"] {
        server.says("boss", text, 1);
    }
    assert!(server.history("home").is_empty());
    assert!(server.published.is_empty());
}

#[test]
fn banned_users_fall_silent() {
    let mut server = Server::new();
    server.says("ann", "/ban bob", 100);
    assert_eq!(server.last_reply(), "User 'bob' has been GLOBALLY banned by admin 'ann'.");
    server.says("bob", "hello", 101);
    assert_eq!(server.users["bob"].ban_mute_until, Some(1901));
    server.says("bob", "hello?", 1900);
    assert_eq!(
        server.last_reply(),
        "You are currently globally banned and cannot send messages."
    );
    assert_eq!(server.users["bob"].ban_mute_until, Some(1901));
    server.says("bob", "/help", 1901);
    assert_eq!(server.users["bob"].ban_mute_until, Some(3701));
    assert!(server.history("home").is_empty());
}

#[test]
fn super_admins_cannot_be_touched() {
    let mut server = Server::new();
    server.says("ann", "/ban boss", 1);
    server.says("ann", "/rm_admin boss", 1);
    server.says("boss", "/channel_ban boss", 1);
    assert!(!server.users["boss"].is_banned && server.users["boss"].is_admin);
    assert!(server.bans.is_empty());
    server.says("boss", "still here", 2);
    assert_eq!(server.history("home"), vec!["still here"]);
}

#[test]
fn channel_bans_begin_and_end() {
    let mut server = Server::new();
    server.says("boss", "/channel_ban bob", 1);
    server.says("bob", "hello", 2);
    assert_eq!(server.last_reply(), "You are banned from this channel.");
    server.says("boss", "/channel_unban bob", 3);
    assert!(server.bans.is_empty());
    server.says("bob", "hello", 4);
    assert_eq!(server.history("home"), vec!["hello"]);

    server.bans.insert(("home".to_string(), "bob".to_string()), 50);
    server.says("bob", "early", 49);
    assert_eq!(server.history("home"), vec!["hello"]);
    server.says("bob", "late", 50);
    assert_eq!(server.last_reply(), "Your ban in channel 'Home' has expired.");
    assert!(server.bans.is_empty());
    assert_eq!(server.history("home"), vec!["hello", "late"]);
}

#[test]
fn others_cannot_do_what_super_admins_do() {
    let mut server = Server::new();
    server.says("ann", "/channel_ban bob", 1);
    assert_eq!(
        server.last_reply(),
        "You do not have permission to ban users from channels."
    );
    server.says("bob", "/ban ann", 1);
    assert!(server.last_reply().starts_with("Unknown command or insufficient permissions"));
    assert!(server.bans.is_empty() && !server.users["ann"].is_banned);
}

#[test]
fn proposals_become_channels_once() {
    let mut server = Server::new();
    server.says("bob", "/propose_channel Cats 🐈", 9);
    let id = server.proposals.keys().next().unwrap().clone();
    assert_eq!(server.proposals[&id].status, "PENDING");
    assert_eq!(server.proposals[&id].proposer_username, "bob");
    assert_eq!(server.channels.len(), 1);
    server.says("boss", "/list_proposals", 10);
    assert!(server.last_reply().contains(&id));
    server.says("boss", format!("/approve_channel {}", id).as_str(), 11);
    assert_eq!(server.channels[&id].name, "Cats");
    assert_eq!(server.published, vec![("channel_updates".to_string(), id.clone())]);
    server.says("boss", format!("/reject_channel {}", id).as_str(), 12);
    assert_eq!(server.last_reply(), "This proposal is not in PENDING status.");
    assert_eq!(server.proposals[&id].status, "APPROVED");
    server.says_in("bob", id.as_str(), "meow?", 13);
    assert_eq!(server.history(id.as_str()), vec!["meow?"]);
    assert!(server.history("home").is_empty());
}

#[test]
fn rejected_proposals_stay_rejected() {
    let mut server = Server::new();
    server.says("bob", "/propose_channel Cats 🐈", 9);
    let id = server.proposals.keys().next().unwrap().clone();
    server.says("boss", format!("/reject_channel {}", id).as_str(), 11);
    server.says("boss", format!("/approve_channel {}", id).as_str(), 12);
    assert_eq!(server.proposals[&id].status, "REJECTED");
    assert_eq!(server.channels.len(), 1);
}

#[test]
fn deleted_channels_are_gone() {
    let mut server = Server::new();
    server.bans.insert(("home".to_string(), "bob".to_string()), 0);
    server.bans.insert(("other".to_string(), "bob".to_string()), 0);
    server.says("ann", "/delete_channel home", 1);
    assert!(server.channels.is_empty());
    assert_eq!(server.bans.len(), 1);
    assert_eq!(server.last_reply(), "/channel_delete home");
    server.says("bob", "hello?", 2);
    assert_eq!(server.last_reply(), "Channel 'home' not found.");
}

#[test]
fn meow_mode_comes_and_goes() {
    let mut server = Server::new();
    server.says("ann", "/meow_event", 1);
    server.says("bob", "hello", 2);
    server.says("ann", "/stop_meow", 3);
    server.says("bob", "hello", 4);
    assert_eq!(server.history("home"), vec!["meow", "hello"]);
}

#[test]
fn the_active_users_are_known() {
    let mut server = Server::new();
    server.perform(on_open("bob"));
    server.perform(on_open("ann"));
    assert_eq!(server.active.len(), 2);
    server.perform(on_close("bob"));
    assert!(server.active.contains("ann") && !server.active.contains("bob"));
}
