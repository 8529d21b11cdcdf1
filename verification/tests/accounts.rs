use chat_server::auth::{
    account_with, find_account, generate_token, judge, login, register, token_at, AuthUser,
    LoginInput, RegisterInput, User,
};
use chat_server::chat::{is_profane, send_message, MessageInput};
use chat_server::data_service::{user_with, DataService, UnreadableDate, UserRow};
use chat_server::outside::DecodedClaims;
use chat_server::password::check_lanes;
use chat_server::status::Status;
use chat_server::store::SqlValue;
use chat_server::user::{
    ban_user, change_icon, change_username, is_admin, promote_user, renamed, unban_user,
    ActionResponse, ActionTurn, BanUserPayload, ChangeIconPayload, ChangeUsernamePayload,
    PromoteUserPayload, UnbanUserPayload,
};

fn request(username: &str, password: &str) -> RegisterInput {
    RegisterInput {
        username: username.to_string(),
        password: password.to_string(),
        icon: "b".to_string(),
    }
}

fn credentials(username: &str, password: &str) -> LoginInput {
    LoginInput { username: username.to_string(), password: password.to_string() }
}

fn account(hash: &str) -> User {
    User {
        id: 3,
        username: "bob".to_string(),
        password_hash: hash.to_string(),
        icon: "b".to_string(),
    }
}

fn subject(token: &str, secret: &str) -> (String, u64) {
    let data = jsonwebtoken::decode::<serde_json::Map<String, serde_json::Value>>(
        token,
        &jsonwebtoken::DecodingKey::from_secret(secret.as_bytes()),
        &jsonwebtoken::Validation::new(jsonwebtoken::Algorithm::HS256),
    )
    .unwrap();
    (
        data.claims["sub"].as_str().unwrap().to_string(),
        data.claims["exp"].as_u64().unwrap(),
    )
}

#[test]
fn who_registers_can_log_in() {
    let user = register(request("bob", "hunter2")).unwrap();
    assert_eq!(user.username, "bob");
    assert_ne!(user.password_hash, "hunter2");
    assert!(user.password_hash.starts_with("$argon2id$"));
    assert_eq!(uuid::Uuid::from_u128(user.id).get_version_num(), 4);
    let statement = user.insert();
    assert_eq!(
        statement.sql,
        "INSERT INTO users (id, username, password_hash, icon) VALUES (?, ?, ?, ?)"
    );
    assert!(matches!(statement.values[0], SqlValue::Identifier(id) if id == user.id));
    let hash = user.password_hash.clone();
    let response = user.registered(true, "secret").unwrap();
    assert_eq!(response.icon, "b");
    assert_eq!(subject(response.token.as_str(), "secret").0, "bob");

    let good = login(&credentials("bob", "hunter2"), Ok(Some(account(hash.as_str()))), "secret");
    let response = good.unwrap();
    assert_eq!(response.icon, "b");
    assert_eq!(subject(response.token.as_str(), "secret").0, "bob");
    let bad = login(&credentials("bob", "hunter3"), Ok(Some(account(hash.as_str()))), "secret");
    assert_eq!(bad.unwrap_err(), Status::Unauthorized);
}

#[test]
fn salts_differ() {
    let a = register(request("bob", "x")).unwrap();
    let b = register(request("bob", "x")).unwrap();
    assert_ne!(a.password_hash, b.password_hash);
    assert_ne!(a.id, b.id);
}

#[test]
fn an_empty_password_is_a_password() {
    assert!(register(request("bob", "")).is_ok());
}

#[test]
fn a_name_that_is_taken_is_a_conflict() {
    let user = register(request("bob", "x")).unwrap();
    assert_eq!(user.registered(false, "secret").unwrap_err(), Status::Conflict);
}

#[test]
fn a_hash_that_fails_is_an_error() {
    assert_eq!(
        account_with(request("bob", "x"), 1, None).unwrap_err(),
        Status::InternalServerError
    );
    let user = account_with(request("bob", "x"), 1, Some("h".to_string())).unwrap();
    assert_eq!((user.id, user.password_hash.as_str(), user.icon.as_str()), (1, "h", "b"));
}

#[test]
fn logins_fail_as_they_should() {
    let input = credentials("bob", "x");
    assert_eq!(login(&input, Err(()), "s").unwrap_err(), Status::InternalServerError);
    assert_eq!(login(&input, Ok(None), "s").unwrap_err(), Status::Unauthorized);
    assert_eq!(
        login(&input, Ok(Some(account("no hash"))), "s").unwrap_err(),
        Status::InternalServerError
    );
    assert_eq!(find_account("bob").sql, "SELECT * FROM users WHERE username = ?");
    assert_eq!(judge(None), Err(Status::InternalServerError));
    assert_eq!(judge(Some(false)), Err(Status::Unauthorized));
    assert_eq!(judge(Some(true)), Ok(()));
}

#[test]
fn tokens_are_good_for_a_day() {
    let before = chrono::Utc::now().timestamp() as u64;
    let token = generate_token("bob", "secret").unwrap();
    let after = chrono::Utc::now().timestamp() as u64;
    let (name, exp) = subject(token.as_str(), "secret");
    assert_eq!(name, "bob");
    assert!(before + 86400 <= exp && exp <= after + 86400);
    assert_eq!(
        token_at("bob", "secret", 4_000_000_000).unwrap(),
        token_at("bob", "secret", 4_000_000_000).unwrap()
    );
    assert_eq!(
        subject(token_at("bob", "secret", 4_000_000_000).unwrap().as_str(), "secret").1,
        4_000_086_400
    );
}

#[test]
fn tokens_name_the_user_before_the_expiry() {
    let token = token_at("bob", "secret", 0).unwrap();
    let parts: Vec<&str> = token.split('.').collect();
    assert_eq!(parts[0], "eyJ0eXAiOiJKV1QiLCJhbGciOiJIUzI1NiJ9");
    assert_eq!(parts[1], "eyJzdWIiOiJib2IiLCJleHAiOjg2NDAwfQ");
}

#[test]
fn secrets_that_sign_alike_are_alike() {
    assert_eq!(
        token_at("bob", "secret", 0).unwrap(),
        token_at("bob", "secret\0", 0).unwrap()
    );
    assert_ne!(token_at("bob", "secret", 0).unwrap(), token_at("bob", "other", 0).unwrap());
}

#[test]
fn hashes_with_too_many_lanes_confirm_nothing() {
    let many = "$argon2id$v=19$m=19456,t=2,p=536870912$c2FsdHNhbHQ$aGFzaGhhc2hoYXNo";
    let few = "$argon2id$v=19$m=19456,t=2,p=536870911$c2FsdHNhbHQ$aGFzaGhhc2hoYXNo";
    let odd = "$argon2id$v=19$m=19456,t=2,p=536870912$c2FsdHNhbHQ$aGFzaGhhc2hoYXNo$";
    assert!(!check_lanes(many));
    assert!(check_lanes(few));
    assert!(check_lanes("$argon2id$v=19$m=19456,t=2,p=99999999999$c2FsdHNhbHQ$aGFzaGhhc2hoYXNo"));
    assert!(check_lanes(""));
    let input = credentials("bob", "x");
    for (stored, status) in [
        (many, Status::Unauthorized),
        (few, Status::Unauthorized),
        (odd, Status::InternalServerError),
    ] {
        assert_eq!(login(&input, Ok(Some(account(stored))), "s").unwrap_err(), status);
    }
}

#[test]
fn requests_show_whose_they_are() {
    let token = generate_token("bob", "secret").unwrap();
    let header = format!("Bearer {}", token);
    let waiting = AuthUser::from_request(Some(header.as_str()), "secret").unwrap();
    assert_eq!(waiting.username, "bob");
    assert_eq!(format!("{:?}", waiting.query().values), "[Text(\"bob\")]");
    let known = waiting.resume(Some(account("h"))).unwrap();
    assert_eq!((known.0.as_str(), known.1.as_str()), ("bob", "b"));
    let waiting = AuthUser::from_request(Some(header.as_str()), "secret").unwrap();
    assert_eq!(waiting.resume(None).unwrap_err(), Status::InternalServerError);
}

#[test]
fn other_requests_are_unauthorized() {
    let token = generate_token("bob", "secret").unwrap();
    let headers = [
        None,
        Some("".to_string()),
        Some(token.clone()),
        Some(format!("bearer {}", token)),
        Some(format!("Bearer  {}", token)),
        Some(format!("Bearer {}x", token)),
        Some("Bearer ".to_string()),
    ];
    for header in headers {
        assert_eq!(
            AuthUser::from_request(header.as_deref(), "secret").unwrap_err(),
            Status::Unauthorized
        );
    }
    let header = format!("Bearer {}", token);
    assert_eq!(
        AuthUser::from_request(Some(header.as_str()), "other").unwrap_err(),
        Status::Unauthorized
    );
}

#[test]
fn claims_need_a_subject_and_an_expiry() {
    let bob = Some("bob".to_string());
    assert_eq!(AuthUser::from_claims(None).unwrap_err(), Status::Unauthorized);
    assert!(AuthUser::from_claims(Some(DecodedClaims { sub: bob.clone(), exp: None })).is_err());
    assert!(AuthUser::from_claims(Some(DecodedClaims { sub: None, exp: Some(1) })).is_err());
    assert_eq!(
        AuthUser::from_claims(Some(DecodedClaims { sub: bob, exp: Some(1) })).unwrap().username,
        "bob"
    );
}

#[test]
fn statuses_have_their_numbers() {
    let all = [
        (Status::Success, 200),
        (Status::BadRequest, 400),
        (Status::Unauthorized, 401),
        (Status::NotFound, 404),
        (Status::Conflict, 409),
        (Status::PayloadTooLarge, 413),
        (Status::InternalServerError, 500),
    ];
    for (status, number) in all {
        assert_eq!(status.code(), number);
    }
}

fn post(content: &str) -> Result<chat_server::chat::AwaitingAuthor, Status> {
    send_message(
        AuthUser("bob".to_string(), "b".to_string()),
        MessageInput { content: content.to_string() },
    )
}

#[test]
fn posts_are_trimmed_and_measured() {
    assert_eq!(post("").unwrap_err(), Status::BadRequest);
    assert_eq!(post(" \n ").unwrap_err(), Status::BadRequest);
    assert_eq!(post("a".repeat(1001).as_str()).unwrap_err(), Status::BadRequest);
    assert_eq!(post("é".repeat(501).as_str()).unwrap_err(), Status::BadRequest);
    assert!(post("é".repeat(500).as_str()).is_ok());
    let waiting = post("  hi there\n").unwrap();
    assert_eq!(waiting.content, "hi there");
    assert_eq!(waiting.query().sql, "SELECT username FROM users WHERE username = ?");
}

#[test]
fn posts_are_published() {
    let before = chrono::Utc::now().timestamp();
    let sent = post(" hi ").unwrap().resume(Ok(true)).unwrap();
    let after = chrono::Utc::now().timestamp();
    assert_eq!((sent.topic, sent.user.as_str(), sent.content.as_str()), ("chat", "bob", "hi"));
    assert!(before <= sent.timestamp && sent.timestamp <= after);
    assert_eq!(post("hi").unwrap().post_at(9).timestamp, 9);
}

#[test]
fn posts_are_refused() {
    assert_eq!(
        post("hi").unwrap().resume(Err(())).unwrap_err(),
        Status::InternalServerError
    );
    assert_eq!(post("hi").unwrap().resume(Ok(false)).unwrap_err(), Status::Unauthorized);
    for text in ["badword", "a BadWord!", "SWEARing"] {
        assert_eq!(post(text).unwrap().resume(Ok(true)).unwrap_err(), Status::BadRequest);
    }
    assert_eq!(post("BADWORD").unwrap().resume(Ok(false)).unwrap_err(), Status::Unauthorized);
    assert!(is_profane("xswearx"));
    assert!(!is_profane("SWEAR"));
    assert!(!is_profane("bad word"));
}

fn admin() -> Option<String> {
    Some("admin".to_string())
}

fn ban() -> BanUserPayload {
    BanUserPayload {
        admin_id: "1".to_string(),
        target_id: "2".to_string(),
        reason: "spam".to_string(),
    }
}

#[test]
fn roles_decide() {
    assert!(is_admin(&admin()));
    assert!(!is_admin(&Some("Admin".to_string())));
    assert!(!is_admin(&None));
    let waiting = [
        ban_user(ban()),
        unban_user(UnbanUserPayload { admin_id: "1".to_string(), target_id: "2".to_string() }),
        promote_user(PromoteUserPayload { admin_id: "1".to_string(), target_id: "2".to_string() }),
    ];
    for w in waiting {
        assert_eq!(w.query().sql, "SELECT * FROM users WHERE id = ?");
        assert_eq!(format!("{:?}", w.query().values), "[Text(\"1\")]");
        assert!(matches!(
            w.resume(Some("user".to_string())),
            ActionTurn::Refused(ActionResponse::Error(text)) if text == "Admin only"
        ));
    }
}

#[test]
fn bans_are_recorded() {
    match ban_user(ban()).resume_with(admin(), 0, "now".to_string()) {
        ActionTurn::Run { change, response } => {
            let statement = change.statement();
            assert_eq!(
                statement.sql,
                "INSERT INTO banned_users (id, admin_id, target_id, reason, banned_at) VALUES (?, ?, ?, ?, ?)"
            );
            assert_eq!(
                format!("{:?}", statement.values),
                "[Text(\"00000000-0000-0000-0000-000000000000\"), Text(\"1\"), Text(\"2\"), Text(\"spam\"), Text(\"now\")]"
            );
            assert!(matches!(response, ActionResponse::Banned { banned_at } if banned_at == "now"));
        }
        other => panic!("{:?}", other),
    }
    let before = chrono::Utc::now().timestamp();
    match ban_user(ban()).resume(admin()) {
        ActionTurn::Run { response: ActionResponse::Banned { banned_at }, .. } => {
            let date = chrono::DateTime::parse_from_rfc3339(banned_at.as_str()).unwrap();
            assert!(before <= date.timestamp() && date.timestamp() <= before + 60);
        }
        other => panic!("{:?}", other),
    }
}

#[test]
fn bans_are_lifted_and_users_promoted() {
    let unban =
        unban_user(UnbanUserPayload { admin_id: "1".to_string(), target_id: "2".to_string() });
    match unban.resume(admin()) {
        ActionTurn::Run { change, response: ActionResponse::Unbanned } => {
            let statement = change.statement();
            assert_eq!(statement.sql, "DELETE FROM banned_users WHERE target_id = ?");
            assert_eq!(format!("{:?}", statement.values), "[Text(\"2\")]");
        }
        other => panic!("{:?}", other),
    }
    let promote =
        promote_user(PromoteUserPayload { admin_id: "1".to_string(), target_id: "2".to_string() });
    match promote.resume(admin()) {
        ActionTurn::Run { change, response: ActionResponse::Promoted } => {
            assert_eq!(change.statement().sql, "UPDATE users SET role = 'admin' WHERE id = ?")
        }
        other => panic!("{:?}", other),
    }
}

fn rename(name: &str) -> Result<chat_server::user::AccountChange, ActionResponse> {
    change_username(ChangeUsernamePayload {
        user_id: "1".to_string(),
        new_username: name.to_string(),
    })
}

#[test]
fn names_have_a_length() {
    for name in ["", "ab", "é", "a".repeat(33).as_str(), "é".repeat(17).as_str()] {
        assert!(matches!(
            rename(name),
            Err(ActionResponse::Error(text)) if text == "Username length must be 3-32 chars"
        ));
    }
    for name in ["abc", "éé", "a".repeat(32).as_str(), "é".repeat(16).as_str()] {
        let statement = rename(name).unwrap().statement();
        assert_eq!(statement.sql, "UPDATE users SET username = ? WHERE id = ?");
        assert_eq!(
            format!("{:?}", statement.values),
            format!("[Text({:?}), Text(\"1\")]", name)
        );
    }
}

#[test]
fn renaming_is_answered() {
    assert!(matches!(renamed(None), ActionResponse::UsernameChanged));
    assert!(matches!(
        renamed(Some("error: UNIQUE constraint failed: users.username".to_string())),
        ActionResponse::Error(text) if text == "Username already exists"
    ));
    assert!(matches!(
        renamed(Some("disk full".to_string())),
        ActionResponse::Error(text) if text == "DB Error: disk full"
    ));
}

#[test]
fn icons_are_short() {
    let payload = |icon: &str| ChangeIconPayload {
        user_id: "1".to_string(),
        new_icon: icon.to_string(),
    };
    assert!(matches!(
        change_icon(payload("1234567")),
        ActionTurn::Refused(ActionResponse::Error(text)) if text == "Icon too long"
    ));
    assert!(matches!(change_icon(payload("🐈🐈")), ActionTurn::Refused(_)));
    match change_icon(payload("🐈")) {
        ActionTurn::Run { change, response: ActionResponse::IconChanged } => {
            assert_eq!(change.statement().sql, "UPDATE users SET icon = ? WHERE id = ?")
        }
        other => panic!("{:?}", other),
    }
    assert!(matches!(change_icon(payload("")), ActionTurn::Run { .. }));
}

fn text(value: &SqlValue) -> String {
    match value {
        SqlValue::Text(s) => s.clone(),
        other => panic!("{:?}", other),
    }
}

#[test]
fn stored_users_can_be_read_back() {
    let service = DataService;
    let statement = service.add_user("bob".to_string(), "x".to_string(), "b".to_string());
    assert_eq!(
        statement.sql,
        "INSERT INTO users (name, password, date_of_creation, icon) VALUES (?, ?, ?, ?)"
    );
    let row = UserRow {
        id: 4,
        name: text(&statement.values[0]),
        password: text(&statement.values[1]),
        date_of_creation: text(&statement.values[2]),
        icon: text(&statement.values[3]),
    };
    assert!(row.password.starts_with("$argon2id$"));
    let user = service.read_user(row).unwrap();
    assert_eq!((user.id, user.name.as_str(), user.icon.as_str()), (4, "bob", "b"));
    assert!((chrono::Utc::now().timestamp() - user.date_of_creation.0).abs() <= 60);
}

fn row(date: &str) -> UserRow {
    UserRow {
        id: 1,
        name: "n".to_string(),
        password: "p".to_string(),
        date_of_creation: date.to_string(),
        icon: "i".to_string(),
    }
}

#[test]
fn dates_are_read() {
    let user = DataService.read_user(row("1970-01-01T00:01:00.000000005+00:00")).unwrap();
    assert_eq!(user.date_of_creation, (60, 5));
    assert_eq!(DataService.read_user(row("yesterday")).unwrap_err(), UnreadableDate);
    assert_eq!(user_with(row(""), Some((1, 2))).unwrap().date_of_creation, (1, 2));
    assert_eq!(user_with(row(""), None).unwrap_err(), UnreadableDate);
}

#[test]
fn the_service_names_its_statements() {
    let service = DataService;
    assert_eq!(service.user_exists(1).sql, "SELECT id FROM users WHERE id = ?");
    assert_eq!(service.server_exists(1).sql, "SELECT id FROM servers WHERE id = ?");
    assert_eq!(
        service.get_user(1).sql,
        "SELECT id, name, password, date_of_creation, icon FROM users WHERE id = ?"
    );
    assert_eq!(service.remove_user(5).sql, "DELETE FROM users WHERE id = ?");
    assert_eq!(format!("{:?}", service.remove_user(5).values), "[Integer(5)]");
    let rename = service.change_user_name(2, "eve".to_string());
    assert_eq!(rename.sql, "UPDATE users SET name = ? WHERE id = ?");
    assert_eq!(format!("{:?}", rename.values), "[Text(\"eve\"), Integer(2)]");
}
