use chat_server::cache::CacheCommand;
use chat_server::commands::admin::{admin_command_at, handle_admin_command, AdminStep};
use chat_server::commands::user::{handle_user_command, user_command_with, wrap, UserStep};
use chat_server::effect::Effect;
use chat_server::message::{server_reply, Reply};
use chat_server::models::{Channel, ChannelProposal, User};
use chat_server::store::Change;
use chat_server::utils::{
    calculations, parse_and_calculate, parse_and_roll_dice, parse_dice, show_rolls, DiceRequest,
    Reading,
};

fn home() -> Channel {
    Channel { id: "home".to_string(), name: "Home".to_string(), icon: "h".to_string() }
}

fn user(name: &str, is_admin: bool, is_super_admin: bool) -> User {
    User {
        id: 7,
        username: name.to_string(),
        icon: "i".to_string(),
        password_hash: "p".to_string(),
        is_admin,
        is_super_admin,
        is_banned: false,
        ban_mute_until: None,
    }
}

fn proposal(status: &str) -> ChannelProposal {
    ChannelProposal {
        id: "p1".to_string(),
        name: "Cats".to_string(),
        icon: "🐈".to_string(),
        proposer_username: "bob".to_string(),
        status: status.to_string(),
        timestamp: 5,
    }
}

fn reply_of(effect: &Effect) -> (String, &'static str) {
    match effect {
        Effect::Reply(Reply { content, icon, channel }) => {
            assert_eq!(channel.id, "home");
            (content.clone(), *icon)
        }
        other => panic!("no reply: {:?}", other),
    }
}

fn statement_of(effect: &Effect) -> (String, String) {
    match effect {
        Effect::Apply(change) => {
            let statement = change.statement();
            (statement.sql.to_string(), format!("{:?}", statement.values))
        }
        other => panic!("no change: {:?}", other),
    }
}

fn admin_done(command: &str, args: &str, is_super: bool) -> Vec<Effect> {
    match admin_command_at(command, args, &home(), "root", is_super, 1000) {
        AdminStep::Done(effects) => effects,
        other => panic!("not done: {:?}", other),
    }
}

fn user_done(command: &str, args: &str) -> Vec<Effect> {
    match handle_user_command(command, args, &home(), "bob") {
        UserStep::Done(effects) => effects,
        other => panic!("not done: {:?}", other),
    }
}

#[test]
fn ban_of_a_user() {
    let step = match admin_command_at("/ban", "eve", &home(), "root", false, 0) {
        AdminStep::NeedUser(w) => w,
        other => panic!("{:?}", other),
    };
    let query = step.query();
    assert!(query.sql.starts_with("SELECT id, username, icon, password_hash, IsAdmin as is_admin"));
    assert_eq!(format!("{:?}", query.values), "[Text(\"eve\")]");
    let effects = step.resume(Some(user("eve", false, false)));
    assert_eq!(effects.len(), 2);
    assert_eq!(
        statement_of(&effects[0]),
        (
            "UPDATE users SET IsBanned = 1 WHERE username = ?".to_string(),
            "[Text(\"eve\")]".to_string()
        )
    );
    assert_eq!(
        reply_of(&effects[1]),
        ("User 'eve' has been GLOBALLY banned by admin 'root'.".to_string(), "💻")
    );
}

#[test]
fn super_admins_are_safe() {
    let cases = [
        ("/ban", "boss", "Cannot globally ban a super admin."),
        ("/rm_admin", "boss", "Cannot remove admin status from a super admin."),
        ("/channel_ban", "boss 5", "Cannot ban a super admin from any channel."),
    ];
    for (command, args, text) in cases {
        match admin_command_at(command, args, &home(), "root", true, 0) {
            AdminStep::NeedUser(w) => {
                assert_eq!(w.target, "boss");
                let effects = w.resume(Some(user("boss", true, true)));
                assert_eq!(effects.len(), 1);
                assert_eq!(reply_of(&effects[0]), (text.to_string(), "🚫"));
            }
            other => panic!("{:?}", other),
        }
    }
}

#[test]
fn unknown_targets_are_reported() {
    for command in ["/ban", "/rm_admin", "/channel_ban"] {
        match admin_command_at(command, "ghost", &home(), "root", true, 0) {
            AdminStep::NeedUser(w) => {
                let effects = w.resume(None);
                assert_eq!(effects.len(), 1);
                assert_eq!(
                    reply_of(&effects[0]),
                    ("User 'ghost' not found.".to_string(), "💻")
                );
            }
            other => panic!("{:?}", other),
        }
    }
}

#[test]
fn admin_status_is_removed() {
    match admin_command_at("/rm_admin", "eve", &home(), "root", false, 0) {
        AdminStep::NeedUser(w) => {
            let effects = w.resume(Some(user("eve", true, false)));
            assert_eq!(
                statement_of(&effects[0]),
                (
                    "UPDATE users SET IsAdmin = 0 WHERE username = ?".to_string(),
                    "[Text(\"eve\")]".to_string()
                )
            );
            assert_eq!(
                reply_of(&effects[1]),
                ("User 'eve' is no longer a global admin.".to_string(), "💻")
            );
        }
        other => panic!("{:?}", other),
    }
}

#[test]
fn meow_mode_is_switched() {
    let on = admin_done("/meow_event", "", false);
    assert_eq!(on.len(), 3);
    assert!(matches!(
        on[0],
        Effect::Cache(CacheCommand::SetNumber { key: "meow_mode", value: 1 })
    ));
    assert!(matches!(
        on[1],
        Effect::Cache(CacheCommand::Expire { key: "meow_mode", seconds: 300 })
    ));
    assert_eq!(
        reply_of(&on[2]),
        ("Meow mode activated! Every message is now 'meow'.".to_string(), "🐈")
    );
    let off = admin_done("/stop_meow", "", false);
    assert_eq!(off.len(), 2);
    assert!(matches!(off[0], Effect::Cache(CacheCommand::Delete { key: "meow_mode" })));
    assert_eq!(reply_of(&off[1]), ("Meow mode deactivated.".to_string(), "🐈"));
}

#[test]
fn channel_is_deleted_with_its_bans() {
    let effects = admin_done("/delete_channel", "cats", false);
    assert_eq!(effects.len(), 4);
    assert_eq!(
        statement_of(&effects[0]).0,
        "DELETE FROM channel_bans WHERE channel_id = ?"
    );
    assert_eq!(statement_of(&effects[1]).0, "DELETE FROM channels WHERE id = ?");
    assert_eq!(
        reply_of(&effects[2]),
        ("Channel 'cats' and its related data deleted.".to_string(), "💻")
    );
    assert!(matches!(&effects[3], Effect::SendText(t) if t == "/channel_delete cats"));
}

#[test]
fn proposals_are_listed() {
    match admin_command_at("/list_proposals", "", &home(), "root", true, 0) {
        AdminStep::NeedProposals(w) => {
            assert!(w.query().sql.ends_with("FROM channel_proposals WHERE status = 'PENDING'"));
            let effects = w.resume(vec![proposal("PENDING"), proposal("PENDING")]);
            let line = "- ID: p1, Name: 'Cats', Icon: '🐈', Proposer: 'bob'\n";
            assert_eq!(
                reply_of(&effects[0]),
                (format!("Pending Channel Proposals:\n{}{}", line, line), "📝")
            );
        }
        other => panic!("{:?}", other),
    }
    match admin_command_at("/list_proposals", "", &home(), "root", true, 0) {
        AdminStep::NeedProposals(w) => {
            let effects = w.resume(vec![]);
            assert_eq!(
                reply_of(&effects[0]),
                ("No pending channel proposals.".to_string(), "📝")
            );
        }
        other => panic!("{:?}", other),
    }
}

#[test]
fn approval_opens_the_channel() {
    match admin_command_at("/approve_channel", "p1", &home(), "root", true, 0) {
        AdminStep::NeedProposal(w) => {
            assert_eq!(format!("{:?}", w.query().values), "[Text(\"p1\")]");
            let effects = w.resume(Some(proposal("PENDING")));
            assert_eq!(effects.len(), 4);
            assert_eq!(
                statement_of(&effects[0]),
                (
                    "INSERT INTO channels (id, name, icon) VALUES (?, ?, ?)".to_string(),
                    "[Text(\"p1\"), Text(\"Cats\"), Text(\"🐈\")]".to_string()
                )
            );
            assert_eq!(
                statement_of(&effects[1]).0,
                "UPDATE channel_proposals SET status = 'APPROVED' WHERE id = ?"
            );
            assert_eq!(
                reply_of(&effects[2]),
                ("Channel 'Cats' (ID: p1) has been APPROVED and is now active.".to_string(), "✅")
            );
            match &effects[3] {
                Effect::Cache(CacheCommand::PublishChannel { topic, channel }) => {
                    assert_eq!(*topic, "channel_updates");
                    assert_eq!(channel.name, "Cats");
                }
                other => panic!("{:?}", other),
            }
        }
        other => panic!("{:?}", other),
    }
}

#[test]
fn only_pending_proposals_are_decided() {
    for command in ["/approve_channel", "/reject_channel"] {
        for (found, text) in [
            (Some(proposal("APPROVED")), "This proposal is not in PENDING status."),
            (Some(proposal("REJECTED")), "This proposal is not in PENDING status."),
            (None, "Channel proposal 'p1' not found."),
        ] {
            match admin_command_at(command, "p1", &home(), "root", true, 0) {
                AdminStep::NeedProposal(w) => {
                    let effects = w.resume(found);
                    assert_eq!(effects.len(), 1);
                    assert_eq!(reply_of(&effects[0]), (text.to_string(), "🚫"));
                }
                other => panic!("{:?}", other),
            }
        }
    }
}

#[test]
fn rejection_closes_the_proposal() {
    match admin_command_at("/reject_channel", "p1", &home(), "root", true, 0) {
        AdminStep::NeedProposal(w) => {
            let effects = w.resume(Some(proposal("PENDING")));
            assert_eq!(effects.len(), 2);
            assert_eq!(
                statement_of(&effects[0]).0,
                "UPDATE channel_proposals SET status = 'REJECTED' WHERE id = ?"
            );
            assert_eq!(
                reply_of(&effects[1]),
                ("Channel proposal 'Cats' (ID: p1) has been REJECTED.".to_string(), "❌")
            );
        }
        other => panic!("{:?}", other),
    }
}

#[test]
fn channel_bans_last_as_long_as_they_say() {
    let cases = [
        ("eve", 0i64, "permanently"),
        ("eve 5", 1300, "for 5 minutes"),
        ("eve -5", 700, "for -5 minutes"),
        ("eve  5", 0, "permanently"),
        ("eve soon", 0, "permanently"),
        ("eve 0", 1000, "for 0 minutes"),
    ];
    for (args, until, span) in cases {
        match admin_command_at("/channel_ban", args, &home(), "root", true, 1000) {
            AdminStep::NeedUser(w) => {
                let effects = w.resume(Some(user("eve", false, false)));
                assert_eq!(
                    statement_of(&effects[0]),
                    (
                        "INSERT OR REPLACE INTO channel_bans (channel_id, banned_username, ban_mute_until) VALUES (?, ?, ?)".to_string(),
                        format!("[Text(\"home\"), Text(\"eve\"), Integer({})]", until)
                    )
                );
                assert_eq!(
                    reply_of(&effects[1]),
                    (
                        format!("User 'eve' has been banned from channel 'Home' {}.", span),
                        "💻"
                    )
                );
            }
            other => panic!("{:?}", other),
        }
    }
}

#[test]
fn bans_beyond_the_last_second_overflow() {
    for args in ["eve 9223372036854775807", "eve -9223372036854775808", "eve 153722867280912930"] {
        assert!(matches!(
            admin_command_at("/channel_ban", args, &home(), "root", true, 1000),
            AdminStep::Overflow
        ));
    }
    assert!(matches!(
        admin_command_at("/channel_ban", "eve 153722867280912930", &home(), "root", true, 0),
        AdminStep::NeedUser(_)
    ));
}

#[test]
fn channel_ban_is_lifted() {
    let effects = admin_done("/channel_unban", "eve", true);
    assert_eq!(
        statement_of(&effects[0]),
        (
            "DELETE FROM channel_bans WHERE channel_id = ? AND banned_username = ?".to_string(),
            "[Text(\"home\"), Text(\"eve\")]".to_string()
        )
    );
    assert_eq!(
        reply_of(&effects[1]),
        ("User 'eve' has been unbanned from channel 'Home'.".to_string(), "💻")
    );
}

#[test]
fn some_commands_are_kept_for_super_admins() {
    let cases = [
        ("/list_proposals", "You do not have permission to list proposals."),
        ("/approve_channel", "You do not have permission to approve channels."),
        ("/reject_channel", "You do not have permission to reject channels."),
        ("/channel_ban", "You do not have permission to ban users from channels."),
        ("/channel_unban", "You do not have permission to unban users from channels."),
    ];
    for (command, text) in cases {
        let effects = admin_done(command, "x", false);
        assert_eq!(effects.len(), 1);
        assert_eq!(reply_of(&effects[0]), (text.to_string(), "🚫"));
    }
}

#[test]
fn admin_commands_start_at_the_clock() {
    let boss = user("boss", true, true);
    let before = chrono::Utc::now().timestamp();
    match handle_admin_command("/channel_ban", "eve 1", &home(), "boss", &boss) {
        AdminStep::NeedUser(w) => {
            let effects = w.resume(Some(user("eve", false, false)));
            let after = chrono::Utc::now().timestamp();
            match &effects[0] {
                Effect::Apply(Change::PutChannelBan { until, .. }) => {
                    assert!(before + 60 <= *until && *until <= after + 60)
                }
                other => panic!("{:?}", other),
            }
        }
        other => panic!("{:?}", other),
    }
    assert!(matches!(
        handle_admin_command("/nothing", "", &home(), "boss", &boss),
        AdminStep::NotHandled
    ));
}

#[test]
fn help_lists_the_commands() {
    let effects = user_done("/help", "");
    let (text, icon) = reply_of(&effects[0]);
    assert_eq!(icon, "💡");
    assert!(text.starts_with("Available commands:\n- /help: Show this help message.\n- /echo"));
    assert!(text.contains("\n\nAdmin Commands:\n- /ban <username>: Globally ban a user.\n"));
    assert!(text.ends_with("- /channel_unban <username>: Unban user from current channel."));
    assert_eq!(text.lines().count(), 20);
}

#[test]
fn echo_repeats() {
    assert_eq!(
        reply_of(&user_done("/echo", "hi  there")[0]),
        ("hi  there".to_string(), "\u{1f5e3}\u{fe0f}")
    );
}

fn arithmetic(expression: &str) -> Vec<Reading> {
    calculations(expression)
        .iter()
        .map(|c| match (c.left.parse::<f64>(), c.right.parse::<f64>()) {
            (Ok(a), Ok(b)) => Reading::Numbers {
                right_is_zero: !(b != 0.0),
                result: match c.op {
                    '+' => a + b,
                    '-' => a - b,
                    '*' => a * b,
                    _ => a / b,
                }
                .to_string(),
            },
            _ => Reading::NotNumbers,
        })
        .collect()
}

fn calculate(expression: &str) -> String {
    parse_and_calculate(expression, &arithmetic(expression))
}

#[test]
fn calculator_gives_results() {
    assert_eq!(calculate("5+3"), "8");
    assert_eq!(calculate("10/2"), "5");
    assert_eq!(calculate(" 7 * 6 "), "42");
    assert_eq!(calculate("1-3"), "-2");
    assert_eq!(calculate("2.5+0.25"), "2.75");
    assert_eq!(calculate("6/-2"), "-3");
    assert_eq!(calculate("0/5"), "0");
    assert_eq!(calculate("0*0"), "0");
}

#[test]
fn white_space_around_operands_does_not_matter() {
    for (a, op, b) in [("5", "+", "3"), ("-1", "*", "2"), ("1e-5", "/", "+4"), ("1e+2", "-", "7")] {
        let plain = format!("{}{}{}", a, op, b);
        let spaced = format!(" {}\t{}\n  {} ", a, op, b);
        assert_eq!(calculate(spaced.as_str()), calculate(plain.as_str()));
        assert!(!calculate(plain.as_str()).starts_with("Error"));
    }
}

#[test]
fn calculator_refuses_division_by_zero() {
    assert_eq!(calculate("1/0"), "Error: Division by zero");
    assert_eq!(calculate("0 / 0.0"), "Error: Division by zero");
}

#[test]
fn calculator_refuses_other_texts() {
    let text = "Error: Invalid expression format. Use 'num1 operator num2' (e.g., 5+3)";
    for expression in ["", "5", "five+three", "1+2+3", "+", "1++2", "--1", "2^3"] {
        assert_eq!(calculate(expression), text, "{}", expression);
    }
}

#[test]
fn operators_are_tried_in_order() {
    let tried: Vec<(char, String, String)> =
        calculations("1 - 2*3").into_iter().map(|c| (c.op, c.left, c.right)).collect();
    assert_eq!(
        tried,
        vec![
            ('-', "1".to_string(), "2*3".to_string()),
            ('*', "1 - 2".to_string(), "3".to_string())
        ]
    );
    assert!(calculations("1--2").is_empty());
}

#[test]
fn calculator_is_asked_by_a_command() {
    match handle_user_command("/calc", "5+3", &home(), "bob") {
        UserStep::NeedArithmetic(w) => {
            assert_eq!(w.calculations().len(), 1);
            let effects = w.resume(arithmetic("5+3"));
            assert_eq!(reply_of(&effects[0]), ("Result: 8".to_string(), "🧮"));
        }
        other => panic!("{:?}", other),
    }
}

#[test]
fn dice_requests_are_read() {
    assert_eq!(parse_dice("2d6"), DiceRequest::Roll { dice: 2, sides: 6 });
    assert_eq!(parse_dice("100d1000"), DiceRequest::Roll { dice: 100, sides: 1000 });
    assert_eq!(parse_dice("+1d+1"), DiceRequest::Roll { dice: 1, sides: 1 });
    assert_eq!(parse_dice("101d6"), DiceRequest::TooMany);
    assert_eq!(parse_dice("1d1001"), DiceRequest::TooMany);
    assert_eq!(parse_dice("0d6"), DiceRequest::Zero);
    assert_eq!(parse_dice("6d0"), DiceRequest::Zero);
    assert_eq!(parse_dice("0d5000"), DiceRequest::Zero);
    for text in ["", "d", "2", "2d", "d6", "2d6d8", "2 d 6", "2D6", "-1d6", "4294967296d1"] {
        assert_eq!(parse_dice(text), DiceRequest::Malformed, "{}", text);
    }
}

#[test]
fn rolls_are_shown_with_their_sum() {
    assert_eq!(show_rolls(&vec![3, 4, 5]), "12 (rolls: 3, 4, 5)");
    assert_eq!(show_rolls(&vec![1]), "1 (rolls: 1)");
    assert_eq!(show_rolls(&vec![]), "0 (rolls: )");
}

#[test]
fn dice_are_rolled() {
    for text in ["3d6", "3D6"] {
        let answer = parse_and_roll_dice(text);
        let (sum, rest) = answer.split_once(" (rolls: ").unwrap();
        let rolls: Vec<u32> =
            rest.strip_suffix(")").unwrap().split(", ").map(|n| n.parse().unwrap()).collect();
        assert_eq!(rolls.len(), 3);
        assert!(rolls.iter().all(|r| 1 <= *r && *r <= 6));
        assert_eq!(sum.parse::<u32>().unwrap(), rolls.iter().sum::<u32>());
    }
    assert_eq!(parse_and_roll_dice("5d1"), "5 (rolls: 1, 1, 1, 1, 1)");
    assert_eq!(parse_and_roll_dice("0D1"), "Error: Number of dice or sides cannot be zero.");
    assert_eq!(parse_and_roll_dice("1d9999"), "Error: Too many dice or sides. Max 100d1000.");
    assert_eq!(parse_and_roll_dice("dice"), "Error: Invalid dice format. Use 'NdM' (e.g., 2d6)");
}

#[test]
fn dice_differ_from_roll_to_roll() {
    let first = parse_and_roll_dice("100d1000");
    assert!((0..5).any(|_| parse_and_roll_dice("100d1000") != first));
}

#[test]
fn dice_are_asked_by_a_command() {
    assert_eq!(
        reply_of(&user_done("/roll", "2d1")[0]),
        ("Roll: 2 (rolls: 1, 1)".to_string(), "🎲")
    );
}

#[test]
fn history_is_asked_for_in_pages() {
    let cases = [
        ("home", 0usize, -50isize, -1isize),
        ("home 50", 50, -100, -51),
        ("home many", 0, -50, -1),
        ("home 7 9", 7, -57, -8),
        ("  home\t3", 3, -53, -4),
    ];
    for (args, offset, start, stop) in cases {
        match handle_user_command("/get_history", args, &home(), "bob") {
            UserStep::NeedHistory(w) => {
                assert_eq!(w.channel_id, "home");
                assert_eq!(w.key, "chat_history:home");
                assert_eq!((w.offset, w.start, w.stop), (offset, start, stop));
            }
            other => panic!("{:?}", other),
        }
    }
    assert_eq!(
        reply_of(&user_done("/get_history", "  ")[0]),
        ("Usage: /get_history <channel_id> [offset]".to_string(), "🚫")
    );
}

#[test]
fn pages_leave_out_what_is_no_message() {
    match handle_user_command("/get_history", "home 50", &home(), "bob") {
        UserStep::NeedHistory(w) => {
            let page = w.resume(vec![Some("a"), None, Some("b")], 101);
            assert_eq!(page.channel_id, "home");
            assert_eq!(page.messages, vec!["a", "b"]);
            assert_eq!(page.offset, 100);
            assert!(page.has_more);
        }
        other => panic!("{:?}", other),
    }
    match handle_user_command("/get_history", "home 50", &home(), "bob") {
        UserStep::NeedHistory(w) => {
            assert!(!w.resume(Vec::<Option<String>>::new(), 100).has_more)
        }
        other => panic!("{:?}", other),
    }
}

#[test]
fn pages_tile_the_history() {
    let list: Vec<u32> = (0..130).collect();
    let mut seen: Vec<u32> = Vec::new();
    let mut offset = 0usize;
    loop {
        let args = format!("home {}", offset);
        let w = match handle_user_command("/get_history", args.as_str(), &home(), "bob") {
            UserStep::NeedHistory(w) => w,
            other => panic!("{:?}", other),
        };
        let from = std::cmp::max(0, list.len() as isize + w.start) as usize;
        let to = (list.len() as isize + w.stop + 1) as usize;
        let entries: Vec<Option<u32>> = list[from..to].iter().map(|n| Some(*n)).collect();
        let page = w.resume(entries, list.len() as isize);
        let mut next = page.messages;
        next.extend(seen);
        seen = next;
        offset = page.offset;
        if !page.has_more {
            break;
        }
    }
    assert_eq!(seen, list);
}

#[test]
fn offsets_without_a_page_overflow() {
    for offset in [isize::MAX as usize, isize::MAX as usize - 49, usize::MAX, usize::MAX - 49] {
        let args = format!("home {}", offset);
        assert!(matches!(
            handle_user_command("/get_history", args.as_str(), &home(), "bob"),
            UserStep::Overflow
        ));
    }
    let args = format!("home {}", isize::MAX as usize - 50);
    match handle_user_command("/get_history", args.as_str(), &home(), "bob") {
        UserStep::NeedHistory(w) => assert_eq!(w.start, -isize::MAX),
        other => panic!("{:?}", other),
    }
    let args = format!("home {}", usize::MAX - 50);
    match handle_user_command("/get_history", args.as_str(), &home(), "bob") {
        UserStep::NeedHistory(w) => {
            assert_eq!((w.start, w.stop), (1, 50));
            assert!(w.resume(Vec::<Option<String>>::new(), 0).has_more);
        }
        other => panic!("{:?}", other),
    }
}

#[test]
fn wrapping_agrees_with_casts() {
    for n in [0, 1, isize::MAX as usize, isize::MAX as usize + 1, usize::MAX - 1, usize::MAX] {
        assert_eq!(wrap(n), n as isize);
    }
}

#[test]
fn channels_are_proposed() {
    let id: u128 = 0x0123_4567_89ab_4def_8123_4567_89ab_cdef;
    match user_command_with("/propose_channel", "Cats 🐈 x", &home(), "bob", 99, id, "") {
        UserStep::Done(effects) => {
            assert_eq!(
                statement_of(&effects[0]),
                (
                    "INSERT INTO channel_proposals (id, name, icon, proposer_username, status, timestamp) VALUES (?, ?, ?, ?, ?, ?)".to_string(),
                    "[Text(\"01234567-89ab-4def-8123-456789abcdef\"), Text(\"Cats\"), Text(\"🐈 x\"), Text(\"bob\"), Text(\"PENDING\"), Integer(99)]".to_string()
                )
            );
            assert_eq!(
                reply_of(&effects[1]),
                ("Channel proposal 'Cats' (ID: 01234567-89ab-4def-8123-456789abcdef) submitted for review. Please wait for a super-admin to approve it.".to_string(), "📝")
            );
        }
        other => panic!("{:?}", other),
    }
    assert_eq!(
        reply_of(&user_done("/propose_channel", "Cats")[0]),
        ("Usage: /propose_channel <name> <icon>".to_string(), "🚫")
    );
}

#[test]
fn proposals_get_new_identifiers() {
    let ids: Vec<String> = (0..2)
        .map(|_| match &user_done("/propose_channel", "Cats x")[0] {
            Effect::Apply(Change::AddProposal(p)) => p.id.clone(),
            other => panic!("{:?}", other),
        })
        .collect();
    assert_ne!(ids[0], ids[1]);
    for id in ids {
        assert_eq!(uuid::Uuid::parse_str(id.as_str()).unwrap().get_version_num(), 4);
    }
}

#[test]
fn active_users_are_asked_for() {
    match handle_user_command("/get_active_users", "", &home(), "bob") {
        UserStep::NeedActiveUsers(waiting) => {
            assert_eq!(waiting.key, "active_users");
            let answer = waiting.resume(vec!["eve".to_string(), "bob".to_string()]);
            assert_eq!(answer.active_users, vec!["eve", "bob"]);
        }
        other => panic!("{:?}", other),
    }
}

#[test]
fn other_commands_are_not_handled() {
    for command in ["", "/", "/Help", "help", "/ban", "/nothing"] {
        assert!(matches!(
            handle_user_command(command, "", &home(), "bob"),
            UserStep::NotHandled
        ));
    }
    for command in ["/help", "/Ban", "ban"] {
        assert!(matches!(
            admin_command_at(command, "", &home(), "root", true, 0),
            AdminStep::NotHandled
        ));
    }
}

#[test]
fn answers_come_from_the_server() {
    let message = server_reply(
        &Reply { content: "hi".to_string(), icon: "💻", channel: home() },
        17,
    );
    assert_eq!(message.user, "server");
    assert_eq!(message.icon, "💻");
    assert_eq!(message.content, "hi");
    assert_eq!(message.timestamp, 17);
    assert_eq!(message.channel_id, "home");
    assert_eq!(message.channel_name, "Home");
    assert_eq!(message.channel_icon, "h");
    assert_eq!(message.message_type, "text");
    assert!(message.file_name.is_none() && message.download_progress.is_none());
}
