use chat_server::cache::CacheCommand;
use chat_server::commands::admin::AdminStep;
use chat_server::commands::user::UserStep;
use chat_server::config::{
    count_channels, database_url, first_channel, jwt_secret, pubsub_url, redis_url,
    websocket_address,
};
use chat_server::data_access::{
    get_all_approved_channels, get_channel_ban_info, get_channel_info, get_user_info,
};
use chat_server::effect::Effect;
use chat_server::message::default_message_type;
use chat_server::models::{Channel, ChannelBanInfo, User};
use chat_server::outside::LATEST_SECOND;
use chat_server::ws::{
    authenticate, channel_list, current_second, forward, let_in, on_close, on_open, receive, subscriptions, Admission,
    AwaitingBan, AwaitingChannel, BanTurn, ChannelTurn, ClientWsMessage, CommandCall, CommandStep,
    Frame, Received, Task,
};
use chat_server::auth::generate_token;
use chat_server::token::{decode_base64, read_token};

fn channel(id: &str) -> Channel {
    Channel { id: id.to_string(), name: "Home".to_string(), icon: "h".to_string() }
}

fn bob() -> User {
    User {
        id: 1,
        username: "bob".to_string(),
        icon: "b".to_string(),
        password_hash: "p".to_string(),
        is_admin: false,
        is_super_admin: false,
        is_banned: false,
        ban_mute_until: None,
    }
}

fn says(user: User, text: &str) -> AwaitingChannel {
    let frame = Frame::Text { text: text.to_string(), decoded: None };
    match receive(frame, "bob", user, 1000) {
        Received::NeedChannel(w) => w,
        other => panic!("{:?}", other),
    }
}

fn in_channel(user: User, text: &str) -> AwaitingBan {
    match says(user, text).resume(Some(channel("home"))) {
        ChannelTurn::NeedBan(w) => w,
        other => panic!("{:?}", other),
    }
}

fn call(user: User, text: &str) -> CommandCall {
    match in_channel(user, text).resume(None) {
        BanTurn::Admitted { effects, task: Task::Command(call) } => {
            assert!(effects.is_empty());
            call
        }
        other => panic!("{:?}", other),
    }
}

fn text_of(effect: &Effect) -> (String, &'static str) {
    match effect {
        Effect::Reply(reply) => (reply.content.clone(), reply.icon),
        other => panic!("{:?}", other),
    }
}

#[test]
fn a_connection_needs_a_token() {
    match authenticate(None, "secret") {
        Admission::Refused { code, reason } => {
            assert_eq!((code, reason), (1008, "No token provided"))
        }
        other => panic!("{:?}", other),
    }
    for token in ["", "nonsense", "a.b.c"] {
        match authenticate(Some(token.to_string()), "secret") {
            Admission::Refused { code, reason } => {
                assert_eq!((code, reason), (1008, "Invalid or expired token"))
            }
            other => panic!("{:?}", other),
        }
    }
}

#[test]
fn a_token_lets_its_user_in() {
    let token = generate_token("bob", "secret").unwrap();
    match authenticate(Some(token.clone()), "secret") {
        Admission::Accepted { username } => assert_eq!(username, "bob"),
        other => panic!("{:?}", other),
    }
    assert!(matches!(
        authenticate(Some(token), "another secret"),
        Admission::Refused { .. }
    ));
}

fn sign(claims: &[(&str, serde_json::Value)], secret: &str) -> String {
    let mut object = serde_json::Map::new();
    for (key, value) in claims {
        object.insert(key.to_string(), value.clone());
    }
    jsonwebtoken::encode(
        &jsonwebtoken::Header::default(),
        &object,
        &jsonwebtoken::EncodingKey::from_secret(secret.as_bytes()),
    )
    .unwrap()
}

#[test]
fn tokens_must_name_a_user_and_be_fresh() {
    let later = serde_json::Value::from(4_000_000_000u64);
    let nameless = sign(&[("exp", later.clone())], "secret");
    assert!(matches!(authenticate(Some(nameless), "secret"), Admission::Refused { .. }));
    let old = sign(
        &[("sub", serde_json::Value::from("bob")), ("exp", serde_json::Value::from(1000u64))],
        "secret",
    );
    assert!(matches!(authenticate(Some(old), "secret"), Admission::Refused { .. }));
    let endless = sign(&[("sub", serde_json::Value::from("bob"))], "secret");
    assert!(matches!(authenticate(Some(endless), "secret"), Admission::Refused { .. }));
    let good = sign(&[("sub", serde_json::Value::from("bob")), ("exp", later)], "secret");
    assert!(matches!(
        authenticate(Some(good), "secret"),
        Admission::Accepted { username } if username == "bob"
    ));
    assert!(matches!(let_in(None), Admission::Refused { .. }));
}

#[test]
fn users_are_active_while_connected() {
    match &on_open("bob")[..] {
        [Effect::Cache(CacheCommand::AddMember { key, member })] => {
            assert_eq!((*key, member.as_str()), ("active_users", "bob"))
        }
        other => panic!("{:?}", other),
    }
    match &on_close("bob")[..] {
        [Effect::Cache(CacheCommand::RemoveMember { key, member })] => {
            assert_eq!((*key, member.as_str()), ("active_users", "bob"))
        }
        other => panic!("{:?}", other),
    }
}

#[test]
fn connections_listen_to_every_channel() {
    assert_eq!(
        subscriptions(&vec![channel("home"), channel("cats")]),
        vec!["chat:home", "chat:cats", "channel_updates"]
    );
    assert_eq!(subscriptions(&vec![]), vec!["channel_updates"]);
}

#[test]
fn clients_get_the_channels_first() {
    let list = channel_list(vec![channel("home"), channel("cats")]);
    let ids: Vec<&str> = list.channels.iter().map(|c| c.id.as_str()).collect();
    assert_eq!(ids, vec!["home", "cats"]);
    assert_eq!(list.channels[1].name, "Home");
}

#[test]
fn clients_get_what_is_published() {
    assert!(matches!(forward("{\"a\": 1}".to_string()), Effect::SendText(t) if t == "{\"a\": 1}"));
}

fn sign_payload(payload: &[u8]) -> String {
    let message = format!("eyJ0eXAiOiJKV1QiLCJhbGciOiJIUzI1NiJ9.{}", base64_url(payload));
    let signature = jsonwebtoken::crypto::sign(
        message.as_bytes(),
        &jsonwebtoken::EncodingKey::from_secret(b"secret"),
        jsonwebtoken::Algorithm::HS256,
    )
    .unwrap();
    format!("{}.{}", message, signature)
}

fn member(name: &[u8], extra: &[u8]) -> Vec<u8> {
    [b"{\"sub\":\"", name, b"\",\"x\":", extra, b",\"exp\":4000000000}"].concat()
}

#[test]
fn claims_that_nobody_reads_are_skipped() {
    let deep = "[".repeat(300) + "]".repeat(300).as_str();
    let extras: [&[u8]; 5] =
        [b"1e999999", deep.as_bytes(), b"{\"sub\": 1}", b"\"\xff\xc3\"", b"[\"\x80\", {}]"];
    for extra in extras {
        let token = sign_payload(&member("bób".as_bytes(), extra));
        match authenticate(Some(token), "secret") {
            Admission::Accepted { username } => assert_eq!(username, "bób"),
            other => panic!("{:?}", other),
        }
    }
}

#[test]
fn names_are_well_formed() {
    let payloads = [
        member(b"b\xffb", b"1"),
        member(b"b\\ud800", b"1"),
        b"{\"sub\":5,\"exp\":4000000000}".to_vec(),
        b"{\"sub\":null,\"exp\":4000000000}".to_vec(),
        b"{\"sub\":\"a\",\"sub\":\"b\",\"exp\":4000000000}".to_vec(),
        b"[4000000000,null,\"bob\",5,5]".to_vec(),
        b"\"bob\"".to_vec(),
    ];
    for payload in payloads {
        assert!(matches!(
            authenticate(Some(sign_payload(&payload)), "secret"),
            Admission::Refused { .. }
        ));
    }
    let escaped = sign_payload(b"{\"s\\u0075b\":\"b\\u006fb\",\"exp\":4e9}");
    assert_eq!(read_token(escaped.as_str()).exp, None);
    assert!(matches!(
        authenticate(Some(escaped), "secret"),
        Admission::Accepted { username } if username == "bob"
    ));
}

#[test]
fn tokens_can_be_read() {
    let claims = read_token(sign_payload(b" {\"exp\": 7, \"sub\": \"a.b\"} ").as_str());
    assert_eq!((claims.sub.as_deref(), claims.exp), (Some("a.b"), Some(7)));
    for token in ["", "a.b", "a.b.c.d", "a.!.c", "a.e30.c"] {
        let claims = read_token(token);
        assert_eq!((claims.sub, claims.exp), (None, None));
    }
}

#[test]
fn base_64_is_decoded() {
    let all: Vec<u8> = (0..=255).collect();
    for n in 0..all.len() {
        assert_eq!(decode_base64(base64_url(&all[n..]).as_str()), Some(all[n..].to_vec()));
    }
    assert_eq!(decode_base64("-_8"), Some(vec![0xfb, 0xff]));
    for text in ["+", "a/", "Zg==", "a b", "é"] {
        assert_eq!(decode_base64(text), None);
    }
}

fn base64_url(bytes: &[u8]) -> String {
    let alphabet = b"ABCDEFGHIJKLMNOPQRSTUVWXYZabcdefghijklmnopqrstuvwxyz0123456789-_";
    let mut text = String::new();
    for chunk in bytes.chunks(3) {
        let mut n: u32 = 0;
        for i in 0..3 {
            n = n << 8 | *chunk.get(i).unwrap_or(&0) as u32;
        }
        for i in 0..chunk.len() + 1 {
            text.push(alphabet[(n >> (18 - 6 * i) & 63) as usize] as char);
        }
    }
    text
}

#[test]
fn tokens_are_accepted_for_a_minute_more() {
    let now = current_second() as u64;
    for (exp, good) in [(now + 30, true), (now - 30, true), (now - 90, false)] {
        let token = sign(
            &[("sub", serde_json::Value::from("bob")), ("exp", serde_json::Value::from(exp))],
            "secret",
        );
        assert_eq!(
            matches!(authenticate(Some(token), "secret"), Admission::Accepted { .. }),
            good
        );
    }
}

#[test]
fn frames_are_told_apart() {
    assert!(matches!(
        receive(Frame::Ping(vec![1, 2]), "bob", bob(), 0),
        Received::Pong(p) if p == vec![1, 2]
    ));
    assert!(matches!(receive(Frame::Close, "bob", bob(), 0), Received::Closed));
    assert!(matches!(receive(Frame::Other, "bob", bob(), 0), Received::Ignored));
}

#[test]
fn messages_go_to_their_channel() {
    let plain = says(bob(), "hello");
    assert_eq!((plain.content.as_str(), plain.channel_id.as_str()), ("hello", "home"));
    assert_eq!(plain.query().sql, "SELECT id, name, icon FROM channels WHERE id = ?");
    let frame = Frame::Text {
        text: "\"quoted\"".to_string(),
        decoded: Some(ClientWsMessage::Text("quoted".to_string())),
    };
    match receive(frame, "bob", bob(), 5) {
        Received::NeedChannel(w) => {
            assert_eq!((w.content.as_str(), w.channel_id.as_str(), w.now), ("quoted", "home", 5))
        }
        other => panic!("{:?}", other),
    }
    let message = ClientWsMessage::ChannelCommand {
        content: "hi".to_string(),
        channel_id: "cats".to_string(),
    };
    let frame = Frame::Text { text: "{}".to_string(), decoded: Some(message.clone()) };
    match receive(frame, "bob", bob(), 5) {
        Received::NeedChannel(w) => {
            assert_eq!((w.content.as_str(), w.channel_id.as_str()), ("hi", "cats"))
        }
        other => panic!("{:?}", other),
    }
}

#[test]
fn unknown_channels_are_reported() {
    match says(bob(), "hello").resume(None) {
        ChannelTurn::Refused(effects) => {
            assert_eq!(text_of(&effects[0]), ("Channel 'home' not found.".to_string(), "🚫"));
            match &effects[0] {
                Effect::Reply(reply) => {
                    assert_eq!(reply.channel.id, "home");
                    assert_eq!(reply.channel.name, "Unknown Channel");
                    assert_eq!(reply.channel.icon, "🚫");
                }
                other => panic!("{:?}", other),
            }
        }
        other => panic!("{:?}", other),
    }
}

#[test]
fn banned_users_are_refused() {
    let muted = User { is_banned: true, ban_mute_until: Some(1001), ..bob() };
    match says(muted, "hello").resume(Some(channel("home"))) {
        ChannelTurn::Refused(effects) => {
            assert_eq!(effects.len(), 1);
            assert_eq!(
                text_of(&effects[0]),
                ("You are currently globally banned and cannot send messages.".to_string(), "⛔")
            );
        }
        other => panic!("{:?}", other),
    }
}

#[test]
fn banned_users_are_muted_anew() {
    for until in [None, Some(1000), Some(0)] {
        let banned = User { is_banned: true, ban_mute_until: until, ..bob() };
        match says(banned, "hello").resume(Some(channel("home"))) {
            ChannelTurn::Refused(effects) => {
                assert_eq!(effects.len(), 2);
                match &effects[0] {
                    Effect::Apply(change) => {
                        let statement = change.statement();
                        assert_eq!(
                            statement.sql,
                            "UPDATE users SET BanMuteUntil = ? WHERE username = ?"
                        );
                        assert_eq!(
                            format!("{:?}", statement.values),
                            "[Integer(2800), Text(\"bob\")]"
                        );
                    }
                    other => panic!("{:?}", other),
                }
                assert_eq!(
                    text_of(&effects[1]),
                    ("User 'bob' (globally banned) tried to send a message. Global mute extended.".to_string(), "⛔")
                );
            }
            other => panic!("{:?}", other),
        }
    }
}

#[test]
fn banned_super_admins_are_heard() {
    let boss = User { is_banned: true, is_super_admin: true, ban_mute_until: Some(5000), ..bob() };
    assert!(matches!(
        says(boss, "hello").resume(Some(channel("home"))),
        ChannelTurn::NeedBan(_)
    ));
}

#[test]
fn channel_bans_are_kept() {
    for until in [0, 1001] {
        let waiting = in_channel(bob(), "hello");
        assert_eq!(format!("{:?}", waiting.query().values), "[Text(\"home\"), Text(\"bob\")]");
        match waiting.resume(Some(ChannelBanInfo { ban_mute_until: Some(until) })) {
            BanTurn::Refused(effects) => assert_eq!(
                text_of(&effects[0]),
                ("You are banned from this channel.".to_string(), "⛔")
            ),
            other => panic!("{:?}", other),
        }
    }
}

#[test]
fn expired_channel_bans_are_lifted() {
    for until in [1000, 1, -5] {
        let turn = in_channel(bob(), "hello")
            .resume(Some(ChannelBanInfo { ban_mute_until: Some(until) }));
        match turn {
            BanTurn::Admitted { effects, task: Task::Chat(_) } => {
                assert_eq!(effects.len(), 2);
                match &effects[0] {
                    Effect::Apply(change) => assert_eq!(
                        change.statement().sql,
                        "DELETE FROM channel_bans WHERE channel_id = ? AND banned_username = ?"
                    ),
                    other => panic!("{:?}", other),
                }
                assert_eq!(
                    text_of(&effects[1]),
                    ("Your ban in channel 'Home' has expired.".to_string(), "✅")
                );
            }
            other => panic!("{:?}", other),
        }
    }
    match in_channel(bob(), "hello").resume(Some(ChannelBanInfo { ban_mute_until: None })) {
        BanTurn::Admitted { effects, .. } => assert!(effects.is_empty()),
        other => panic!("{:?}", other),
    }
}

#[test]
fn messages_are_stored_and_published() {
    for (meow, content) in [(0, "hello"), (2, "hello"), (1, "meow")] {
        let chat = match in_channel(bob(), "hello").resume(None) {
            BanTurn::Admitted { task: Task::Chat(chat), .. } => chat,
            other => panic!("{:?}", other),
        };
        match &chat.resume(meow)[..] {
            [Effect::Cache(CacheCommand::Push { key, message }), Effect::Cache(CacheCommand::Trim { key: trimmed, start, stop }), Effect::Cache(CacheCommand::Publish { topic, message: sent })] =>
            {
                assert_eq!(key, "chat_history:home");
                assert_eq!((trimmed.as_str(), *start, *stop), ("chat_history:home", -500, -1));
                assert_eq!(topic, "chat:home");
                assert_eq!(format!("{:?}", message), format!("{:?}", sent));
                assert_eq!(message.user, "bob");
                assert_eq!(message.icon, "b");
                assert_eq!(message.content, content);
                assert_eq!(message.timestamp, 1000);
                assert_eq!(message.channel_name, "Home");
                assert_eq!(message.message_type, default_message_type());
            }
            other => panic!("{:?}", other),
        }
    }
}

#[test]
fn commands_are_taken_apart() {
    let c = call(bob(), "/echo  hi there ");
    assert_eq!((c.command.as_str(), c.args.as_str()), ("/echo", "hi there"));
    let c = call(bob(), "/help");
    assert_eq!((c.command.as_str(), c.args.as_str()), ("/help", ""));
    let c = call(bob(), "/");
    assert_eq!((c.command.as_str(), c.args.as_str()), ("/", ""));
    assert!(matches!(
        in_channel(bob(), " /help").resume(None),
        BanTurn::Admitted { task: Task::Chat(_), .. }
    ));
    assert!(matches!(
        in_channel(bob(), "").resume(None),
        BanTurn::Admitted { task: Task::Chat(_), .. }
    ));
}

#[test]
fn commands_are_dispatched() {
    assert!(matches!(
        call(bob(), "/help").run(),
        CommandStep::User(UserStep::Done(_))
    ));
    let admin = User { is_admin: true, ..bob() };
    assert!(matches!(
        call(admin, "/ban eve").run(),
        CommandStep::Admin(AdminStep::NeedUser(_))
    ));
    let boss = User { is_super_admin: true, ..bob() };
    assert!(matches!(
        call(boss, "/list_proposals").run(),
        CommandStep::Admin(AdminStep::NeedProposals(_))
    ));
}

#[test]
fn unknown_commands_are_answered() {
    let admin = User { is_admin: true, ..bob() };
    for (user, text) in [(bob(), "/ban eve"), (bob(), "/nothing x"), (admin, "/nothing x")] {
        match call(user, text).run() {
            CommandStep::Unknown(effects) => assert_eq!(
                text_of(&effects[0]),
                (format!("Unknown command or insufficient permissions: '{}'. Type /help for a list of commands.", text), "💻")
            ),
            other => panic!("{:?}", other),
        }
    }
}

#[test]
fn the_clock_stays_in_its_range() {
    let now = current_second();
    assert!((chrono::Utc::now().timestamp() - now).abs() <= 5);
    assert_eq!(LATEST_SECOND, chrono::DateTime::<chrono::Utc>::MAX_UTC.timestamp());
}

#[test]
fn queries_are_as_the_tables_want_them() {
    assert_eq!(
        get_user_info("bob").sql,
        "SELECT id, username, icon, password_hash, IsAdmin as is_admin, IsSuperAdmin as is_super_admin, IsBanned as is_banned, BanMuteUntil as ban_mute_until FROM users WHERE username = ?"
    );
    assert_eq!(get_channel_info("home").sql, "SELECT id, name, icon FROM channels WHERE id = ?");
    assert_eq!(
        get_channel_ban_info("home", "bob").sql,
        "SELECT ban_mute_until FROM channel_bans WHERE channel_id = ? AND banned_username = ?"
    );
    let all = get_all_approved_channels();
    assert_eq!(all.sql, "SELECT id, name, icon FROM channels");
    assert!(all.values.is_empty());
}

#[test]
fn settings_have_defaults() {
    assert_eq!(database_url(None), "sqlite://chat.db");
    assert_eq!(database_url(Some("x".to_string())), "x");
    assert_eq!(redis_url(None), "redis://127.0.0.1:6333");
    assert_eq!(pubsub_url(None), "redis://127.0.0.1/");
    assert_eq!(
        jwt_secret(None),
        "heyoheyoimahardcodedsecretandimgonnabepushedtotherepoingithubyay"
    );
    assert_eq!(jwt_secret(Some("s".to_string())), "s");
    assert_eq!(websocket_address(), "0.0.0.0:34093");
}

#[test]
fn an_empty_server_gets_a_channel() {
    assert_eq!(count_channels().sql, "SELECT COUNT(*) FROM channels");
    let statement = first_channel(0).unwrap().statement();
    assert_eq!(statement.sql, "INSERT INTO channels (id, name, icon) VALUES (?, ?, ?)");
    assert_eq!(
        format!("{:?}", statement.values),
        format!("[Text(\"home\"), Text(\"Home\"), Text({:?})]", "\u{f015}")
    );
    assert!(first_channel(1).is_none());
}
