//! Accounts: how they are opened, and how a client shows whose it is.

use vstd::prelude::*;
use crate::models::Claims;
use crate::outside::argon2_check;
use crate::outside::argon2_confirms;
use crate::outside::argon2_hash;
use crate::outside::argon2_text;
use crate::outside::clock_seconds;
use crate::outside::is_hash_of;
use crate::outside::is_hash_text;
use crate::outside::is_salt;
use crate::outside::random_identifier;
use crate::outside::random_salt;
use crate::outside::random_uuid;
use crate::outside::read_hash;
use crate::outside::sign_claims;
use crate::outside::signed_token;
use crate::outside::DecodedClaims;
use crate::outside::LATEST_SECOND;
use crate::password::check_lanes;
use crate::password::lanes_fit;
use crate::status::Status;
use crate::store::statement;
use crate::store::statement1;
use crate::store::text_value;
use crate::store::SqlValue;
use crate::store::SqlView;
use crate::store::Statement;
use crate::store::StatementView;
use crate::text::behind_prefix;
use crate::text::byte_length;
use crate::text::strip_prefix;
use crate::token::decode_token;
use crate::token::decoded_at;
use crate::token::speaks_for;
use crate::token::LEEWAY_SECONDS;

verus! {

/// The seconds for which a session token is good.
pub const TOKEN_SECONDS: i64 = 86_400;

/// What a client sends to open an account.
#[derive(Debug)]
pub struct RegisterInput {
    pub username: String,
    pub password: String,
    pub icon: String,
}

/// What a client sends to log in.
#[derive(Debug)]
pub struct LoginInput {
    pub username: String,
    pub password: String,
}

/// What a client gets that has registered or logged in.
#[derive(Debug)]
pub struct TokenResponse {
    pub token: String,
    pub icon: String,
}

/// What an answer with a token holds.
pub struct TokenView {
    pub token: Seq<char>,
    pub icon: Seq<char>,
}

impl DeepView for TokenResponse {
    type V = TokenView;

    open spec fn deep_view(&self) -> TokenView {
        TokenView { token: self.token@, icon: self.icon@ }
    }
}

/// An account, as far as logging in goes.
#[derive(Debug)]
pub struct User {
    pub id: u128,
    pub username: String,
    pub password_hash: String,
    pub icon: String,
}

/// What such an account holds.
pub struct AccountView {
    pub id: u128,
    pub username: Seq<char>,
    pub password_hash: Seq<char>,
    pub icon: Seq<char>,
}

impl DeepView for User {
    type V = AccountView;

    open spec fn deep_view(&self) -> AccountView {
        AccountView {
            id: self.id,
            username: self.username@,
            password_hash: self.password_hash@,
            icon: self.icon@,
        }
    }
}

/// The second at which a token expires that is made at second `now`.
pub open spec fn expiry(now: int) -> usize {
    (now + TOKEN_SECONDS) as usize
}

/// Whether a text is the token that is signed for a user at second `made`, and speaks for the user.
pub open spec fn is_token_made(
    token: Seq<char>,
    username: Seq<char>,
    secret: Seq<char>,
    made: int,
) -> bool {
    &&& token == signed_token(username, expiry(made), secret)
    &&& speaks_for(token, username, expiry(made), secret)
}

/// Signs a token for a user at second `now`, good for a day.
pub fn token_at(username: &str, secret: &str, now: i64) -> (r: Result<String, Status>)
    requires
        now <= i64::MAX - TOKEN_SECONDS,
    ensures
        r matches Ok(token) && is_token_made(token@, username@, secret@, now as int),
{
    let claims = Claims { sub: username.to_string(), exp: (now + TOKEN_SECONDS) as usize };
    match sign_claims(&claims, secret) {
        Ok(token) => Ok(token),
        Err(_) => Err(Status::InternalServerError),
    }
}

/// Whether a text is a token that was signed for a user, and speaks for the user.
pub open spec fn is_token_of(token: Seq<char>, username: Seq<char>, secret: Seq<char>) -> bool {
    exists|made: int|
        0 <= made <= LATEST_SECOND && #[trigger] is_token_made(token, username, secret, made)
}

/// Signs a token for a user that is good for a day from now.
pub fn generate_token(username: &str, secret: &str) -> (r: Result<String, Status>)
    ensures
        r matches Ok(token) && is_token_of(token@, username@, secret@),
{
    let now: i64 = clock_seconds();
    token_at(username, secret, now)
}

impl AccountView {
    /// What a check of a password against the account says: nothing if what is stored has not the
    /// form of a hash, and else whether the password was confirmed. A hash with too many lanes
    /// confirms none.
    pub open spec fn checked(self, password: Seq<char>) -> Option<bool> {
        if is_hash_text(self.password_hash) {
            Some(lanes_fit(self.password_hash) && argon2_confirms(password, self.password_hash))
        } else {
            None
        }
    }

    /// The statement that stores the account.
    pub open spec fn insertion(self) -> StatementView {
        StatementView {
            sql: "INSERT INTO users (id, username, password_hash, icon) VALUES (?, ?, ?, ?)"@,
            values: seq![
                SqlView::Identifier(self.id),
                SqlView::Text(self.username),
                SqlView::Text(self.password_hash),
                SqlView::Text(self.icon),
            ],
        }
    }
}

/// The account that is made for a request with an identifier and a salt.
pub open spec fn new_account(
    input: RegisterInput,
    id: u128,
    salt: Seq<char>,
) -> Result<AccountView, Status> {
    match argon2_text(input.password@, salt) {
        Some(hash) => Ok(
            AccountView {
                id,
                username: input.username@,
                password_hash: hash,
                icon: input.icon@,
            },
        ),
        None => Err(Status::InternalServerError),
    }
}

/// Makes the account for a request out of an identifier and what the hashing gave, if it gave
/// something.
pub fn account_with(input: RegisterInput, id: u128, hash: Option<String>) -> (r: Result<
    User,
    Status,
>)
    ensures
        match hash {
            Some(h) => r matches Ok(user) && user.deep_view() == (AccountView {
                id,
                username: input.username@,
                password_hash: h@,
                icon: input.icon@,
            }),
            None => r == Err::<User, Status>(Status::InternalServerError),
        },
{
    match hash {
        Some(h) => Ok(
            User { id, username: input.username, password_hash: h, icon: input.icon },
        ),
        None => Err(Status::InternalServerError),
    }
}

/// Whether an outcome is what comes of a request with an identifier and a salt; an account then holds
/// a hash of the password of the request under the salt.
pub open spec fn is_registration(
    input: RegisterInput,
    id: u128,
    salt: Seq<char>,
    outcome: Result<User, Status>,
) -> bool {
    match outcome {
        Ok(user) => new_account(input, id, salt) == Ok::<AccountView, Status>(user.deep_view())
            && is_hash_of(user.password_hash@, input.password@, salt),
        Err(status) => new_account(input, id, salt) == Err::<AccountView, Status>(status),
    }
}

/// Makes the account for a request, with a new identifier and a new salt. A password below four
/// gibibytes is never refused.
pub fn register(input: RegisterInput) -> (r: Result<User, Status>)
    ensures
        exists|id: u128, salt: Seq<char>|
            random_identifier(id) && is_salt(salt) && #[trigger] is_registration(
                input,
                id,
                salt,
                r,
            ),
        byte_length(input.password@) <= 0xFFFF_FFFF ==> r is Ok,
{
    let id: u128 = random_uuid();
    let salt = random_salt();
    let hash: Option<String> = match argon2_hash(input.password.as_str(), salt.as_str()) {
        Ok(hash) => Some(hash),
        Err(_) => None,
    };
    let r = account_with(input, id, hash);
    assert(is_registration(input, id, salt@, r));
    r
}

impl User {
    /// The statement that stores the account.
    pub fn insert(&self) -> (r: Statement)
        ensures
            r.deep_view() == self.deep_view().insertion(),
    {
        let values: Vec<SqlValue> = vec![
            SqlValue::Identifier(self.id),
            text_value(self.username.as_str()),
            text_value(self.password_hash.as_str()),
            text_value(self.icon.as_str()),
        ];
        assert(values.deep_view() =~= self.deep_view().insertion().values);
        statement(
            "INSERT INTO users (id, username, password_hash, icon) VALUES (?, ?, ?, ?)",
            values,
        )
    }

    /// Answers a registration: with a token if the account was stored, and else that the name is
    /// taken.
    pub fn registered(self, stored: bool, jwt_secret: &str) -> (r: Result<TokenResponse, Status>)
        ensures
            stored ==> (r matches Ok(response) && response.icon@ == self.icon@ && is_token_of(
                response.token@,
                self.username@,
                jwt_secret@,
            )),
            !stored ==> r == Err::<TokenResponse, Status>(Status::Conflict),
    {
        if !stored {
            return Err(Status::Conflict);
        }
        match generate_token(self.username.as_str(), jwt_secret) {
            Ok(token) => Ok(TokenResponse { token, icon: self.icon }),
            Err(status) => Err(status),
        }
    }
}

/// The look-up of an account.
pub open spec fn account_query(username: Seq<char>) -> StatementView {
    StatementView {
        sql: "SELECT * FROM users WHERE username = ?"@,
        values: seq![SqlView::Text(username)],
    }
}

/// The look-up of an account.
pub fn find_account(username: &str) -> (r: Statement)
    ensures
        r.deep_view() == account_query(username@),
{
    statement1("SELECT * FROM users WHERE username = ?", text_value(username))
}

/// What a check of a password comes to: a stored hash that cannot be read is the server's fault.
pub open spec fn verdict(confirmed: Option<bool>) -> Result<(), Status> {
    match confirmed {
        None => Err(Status::InternalServerError),
        Some(false) => Err(Status::Unauthorized),
        Some(true) => Ok(()),
    }
}

/// Judges a check of a password.
pub fn judge(confirmed: Option<bool>) -> (r: Result<(), Status>)
    ensures
        r == verdict(confirmed),
{
    match confirmed {
        None => Err(Status::InternalServerError),
        Some(false) => Err(Status::Unauthorized),
        Some(true) => Ok(()),
    }
}

/// Who logs in with a password, if the account could be looked up: the failure of the look-up is
/// the server's fault, and without an account there is no entry.
pub open spec fn login_outcome(
    found: Result<Option<AccountView>, ()>,
    password: Seq<char>,
) -> Result<AccountView, Status> {
    match found {
        Err(_) => Err(Status::InternalServerError),
        Ok(None) => Err(Status::Unauthorized),
        Ok(Some(user)) => match verdict(user.checked(password)) {
            Ok(_) => Ok(user),
            Err(status) => Err(status),
        },
    }
}

/// What was found, by what it holds.
pub open spec fn found_view(found: Result<Option<User>, ()>) -> Result<Option<AccountView>, ()> {
    match found {
        Ok(user) => Ok(user.deep_view()),
        Err(_) => Err(()),
    }
}

fn check_password(user: &User, password: &str) -> (r: Option<bool>)
    ensures
        r == user.deep_view().checked(password@),
{
    let stored = user.password_hash.as_str();
    if read_hash(stored).is_err() {
        None
    } else if check_lanes(stored) {
        Some(argon2_check(password, stored).is_ok())
    } else {
        Some(false)
    }
}

/// Logs a client in, given what the look-up of the account found.
pub fn login(input: &LoginInput, found: Result<Option<User>, ()>, jwt_secret: &str) -> (r: Result<
    TokenResponse,
    Status,
>)
    ensures
        match login_outcome(found_view(found), input.password@) {
            Ok(user) => r matches Ok(response) && response.icon@ == user.icon && is_token_of(
                response.token@,
                input.username@,
                jwt_secret@,
            ),
            Err(status) => r == Err::<TokenResponse, Status>(status),
        },
{
    let user: User = match found {
        Err(_) => return Err(Status::InternalServerError),
        Ok(None) => return Err(Status::Unauthorized),
        Ok(Some(user)) => user,
    };
    match judge(check_password(&user, input.password.as_str())) {
        Ok(_) => {},
        Err(status) => return Err(status),
    }
    match generate_token(input.username.as_str(), jwt_secret) {
        Ok(token) => Ok(TokenResponse { token, icon: user.icon }),
        Err(status) => Err(status),
    }
}

/// Who has registered can log in with the same password. With another password the client is
/// refused as unauthorized, unless that password has the same hash under the salt.
pub proof fn lemma_register_then_login(
    input: RegisterInput,
    id: u128,
    salt: Seq<char>,
    user: User,
    password: Seq<char>,
)
    requires
        is_registration(input, id, salt, Ok(user)),
    ensures
        login_outcome(Ok(Some(user.deep_view())), input.password@) == Ok::<AccountView, Status>(
            user.deep_view(),
        ),
        login_outcome(Ok(Some(user.deep_view())), password) == if argon2_text(password, salt)
            == argon2_text(input.password@, salt) {
            Ok::<AccountView, Status>(user.deep_view())
        } else {
            Err(Status::Unauthorized)
        },
        user.icon@ == input.icon@,
        user.username@ == input.username@,
{
    assert(argon2_confirms(input.password@, user.password_hash@));
    assert(argon2_confirms(password, user.password_hash@) <==> argon2_text(password, salt) == Some(
        user.password_hash@,
    ));
}

/// A client that has shown whose it is: the user's name and icon.
#[derive(Debug)]
pub struct AuthUser(pub String, pub String);

/// A client whose token is good and whose account is looked up.
#[derive(Debug)]
pub struct AwaitingAccount {
    pub username: String,
}

/// The user whom a token names that has a subject and an expiry.
pub open spec fn claimed_user(claims: (Option<Seq<char>>, Option<u64>)) -> Option<Seq<char>> {
    match claims {
        (Some(username), Some(exp)) => if exp <= usize::MAX {
            Some(username)
        } else {
            None
        },
        _ => None,
    }
}

/// The token that an `Authorization` header brings.
pub open spec fn bearer_token(authorization: Option<Seq<char>>) -> Option<Seq<char>> {
    match authorization {
        Some(header) => behind_prefix(header, "Bearer "@),
        None => None,
    }
}

/// Whose request it is that has such a header at second `now`: the user whom the token names that
/// it brings, if the token is accepted.
pub open spec fn requester(
    authorization: Option<Seq<char>>,
    jwt_secret: Seq<char>,
    now: u64,
) -> Option<Seq<char>> {
    match bearer_token(authorization) {
        Some(token) => match decoded_at(token, jwt_secret, now) {
            Some(claims) => claimed_user(claims),
            None => None,
        },
        None => None,
    }
}

impl AuthUser {
    /// Takes the claims of an accepted token, if it was accepted.
    pub fn from_claims(claims: Option<DecodedClaims>) -> (r: Result<AwaitingAccount, Status>)
        ensures
            match claims {
                None => r == Err::<AwaitingAccount, Status>(Status::Unauthorized),
                Some(c) => match claimed_user(c.deep_view()) {
                    Some(username) => r matches Ok(waiting) && waiting.username@ == username,
                    None => r == Err::<AwaitingAccount, Status>(Status::Unauthorized),
                },
            },
    {
        match claims {
            Some(DecodedClaims { sub: Some(username), exp: Some(exp) }) => {
                if exp <= usize::MAX as u64 {
                    Ok(AwaitingAccount { username })
                } else {
                    Err(Status::Unauthorized)
                }
            },
            _ => Err(Status::Unauthorized),
        }
    }

    /// Finds out whose request it is that has this `Authorization` header.
    pub fn from_request(authorization: Option<&str>, jwt_secret: &str) -> (r: Result<
        AwaitingAccount,
        Status,
    >)
        ensures
            exists|now: u64|
                match #[trigger] requester(authorization.deep_view(), jwt_secret@, now) {
                    Some(username) => r is Ok && r->Ok_0.username@ == username,
                    None => r == Err::<AwaitingAccount, Status>(Status::Unauthorized),
                },
    {
        let brought: Option<String> = match authorization {
            Some(header) => strip_prefix(header, "Bearer "),
            None => None,
        };
        match brought {
            Some(token) => {
                let r = AuthUser::from_claims(decode_token(token.as_str(), jwt_secret));
                proof {
                    assert(bearer_token(authorization.deep_view()) == Some(token@));
                    let now = choose|now: u64|
                        match #[trigger] decoded_at(token@, jwt_secret@, now) {
                            Some(claims) => match claimed_user(claims) {
                                Some(username) => r is Ok && r->Ok_0.username@ == username,
                                None => r == Err::<AwaitingAccount, Status>(Status::Unauthorized),
                            },
                            None => r == Err::<AwaitingAccount, Status>(Status::Unauthorized),
                        };
                    assert(match requester(authorization.deep_view(), jwt_secret@, now) {
                        Some(username) => r is Ok && r->Ok_0.username@ == username,
                        None => r == Err::<AwaitingAccount, Status>(Status::Unauthorized),
                    });
                }
                r
            },
            None => {
                assert(requester(authorization.deep_view(), jwt_secret@, 0) is None);
                Err(Status::Unauthorized)
            },
        }
    }
}

impl AwaitingAccount {
    /// The look-up of the account.
    pub fn query(&self) -> (r: Statement)
        ensures
            r.deep_view() == account_query(self.username@),
    {
        find_account(self.username.as_str())
    }

    /// Goes on once the account is found or not. A good token without an account is the server's
    /// fault.
    pub fn resume(self, found: Option<User>) -> (r: Result<AuthUser, Status>)
        ensures
            match found {
                Some(user) => r matches Ok(known) && known.0@ == self.username@ && known.1@
                    == user.icon@,
                None => r == Err::<AuthUser, Status>(Status::InternalServerError),
            },
    {
        match found {
            Some(user) => Ok(AuthUser(self.username, user.icon)),
            None => Err(Status::InternalServerError),
        }
    }
}

/// A token is accepted while it lives: a request that bears it comes from the user for whom it was
/// signed up to a day and the leeway after it was made, and from no one later.
pub proof fn lemma_token_lives(
    token: Seq<char>,
    username: Seq<char>,
    secret: Seq<char>,
    made: int,
    now: u64,
)
    requires
        is_token_made(token, username, secret, made),
        0 <= made,
        made + TOKEN_SECONDS <= usize::MAX,
        LEEWAY_SECONDS <= now,
    ensures
        decoded_at(token, secret, now) == if now <= made + TOKEN_SECONDS + LEEWAY_SECONDS {
            Some((Some(username), Some((made + TOKEN_SECONDS) as u64)))
        } else {
            None
        },
        requester(Some("Bearer "@ + token), secret, now) == if now <= made + TOKEN_SECONDS
            + LEEWAY_SECONDS {
            Some(username)
        } else {
            None
        },
{
    let header = "Bearer "@ + token;
    assert(header.skip("Bearer "@.len() as int) =~= token);
    assert(header.subrange(0, "Bearer "@.len() as int) =~= "Bearer "@);
    assert("Bearer "@.is_prefix_of(header));
    assert(bearer_token(Some(header)) == Some(token));
    assert(decoded_at(token, secret, now) is Some <==> now - LEEWAY_SECONDS <= expiry(made));
}

/// A token under another secret than its own is refused, unless that secret signs the same token.
pub proof fn lemma_token_keeps_its_secret(
    token: Seq<char>,
    username: Seq<char>,
    secret: Seq<char>,
    made: int,
    other: Seq<char>,
    now: u64,
)
    requires
        is_token_made(token, username, secret, made),
        signed_token(username, expiry(made), other) != token,
    ensures
        decoded_at(token, other, now) is None,
{
}

/// A request that bears a token which was signed for a user comes from no one else.
pub proof fn lemma_token_names_its_user(
    token: Seq<char>,
    header: Seq<char>,
    username: Seq<char>,
    secret: Seq<char>,
    now: u64,
)
    requires
        is_token_of(token, username, secret),
        bearer_token(Some(header)) == Some(token),
    ensures
        requester(Some(header), secret, now) is None || requester(Some(header), secret, now)
            == Some(username),
{
}

} // verus!
