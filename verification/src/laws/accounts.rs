//! What becomes of accounts, tokens and posts.

use vstd::prelude::*;
use vstd::utf8::encode_utf8;
use crate::auth::AuthUser;
use crate::auth::AwaitingAccount;
use crate::auth::LoginInput;
use crate::auth::RegisterInput;
use crate::auth::TokenResponse;
use crate::auth::User;
use crate::auth::account_with;
use crate::auth::find_account;
use crate::auth::generate_token;
use crate::auth::is_registration;
use crate::auth::is_token_made;
use crate::auth::judge;
use crate::auth::login;
use crate::auth::register;
use crate::auth::requester;
use crate::auth::token_at;
use crate::chat::AwaitingAuthor;
use crate::chat::ChatPost;
use crate::chat::MessageInput;
use crate::chat::is_profane;
use crate::chat::send_message;
use crate::data_service::DataService;
use crate::laws::texts::lemma_bounds;
use crate::laws::texts::lemma_byte_length;
use crate::laws::texts::lemma_cut;
use crate::laws::texts::lemma_occurs;
use crate::laws::texts::lemma_prefix;
use crate::laws::texts::lemma_trim;
use crate::number::decimal;
use crate::number::unsigned_value;
use crate::outside::DecodedClaims;
use crate::outside::LATEST_SECOND;
use crate::outside::accepted_at;
use crate::outside::argon2_confirms;
use crate::outside::argon2_text;
use crate::outside::hyphenated;
use crate::outside::is_clock_text;
use crate::outside::is_hash_text;
use crate::outside::is_salt;
use crate::outside::json_claims;
use crate::outside::lower_case;
use crate::outside::random_identifier;
use crate::outside::signed_token;
use crate::password::field_fits;
use crate::password::lanes_fit;
use crate::password::parameter_fits;
use crate::status::Status;
use crate::store::Statement;
use crate::text::behind_prefix;
use crate::text::pieces;
use crate::text::white_space;
use crate::token::base64_bytes;
use crate::token::byte_at;
use crate::token::claims_in;
use crate::token::decode_token;
use crate::token::decoded_at;
use crate::token::six_bits;
use crate::user::AccountChange;
use crate::user::ActionResponse;
use crate::user::ActionTurn;
use crate::user::AdminAction;
use crate::user::AwaitingRole;
use crate::user::ChangeIconPayload;
use crate::user::ChangeUsernamePayload;
use crate::user::change_icon;
use crate::user::change_username;
use crate::user::is_admin;
use crate::user::renamed;

verus! {

/// Whether a statement is this one and binds these texts, in order.
pub open spec fn binds(r: Statement, sql: Seq<char>, texts: Seq<Seq<char>>) -> bool {
    &&& r.sql@ == sql
    &&& r.values@.len() == texts.len()
    &&& forall|i: int|
        0 <= i < texts.len() ==> (#[trigger] r.values@[i]) is Text && r.values@[i]->Text_0@
            == texts[i]
}

/// A statement's values are those of its view, one for one.
pub proof fn lemma_values(r: Statement)
    ensures
        r.values@.len() == r.deep_view().values.len(),
        forall|i: int|
            0 <= i < r.values@.len() ==> (#[trigger] r.values@[i]).deep_view()
                == r.deep_view().values[i],
{
}

/// What is posted is what was sent, without white space at the ends, if anything is left and it takes
/// no more than a thousand bytes. It is posted in the name of the sender.
pub proof fn lemma_post_sent(
    user: AuthUser,
    input: MessageInput,
    before: Seq<char>,
    s: Seq<char>,
    behind: Seq<char>,
    r: Result<AwaitingAuthor, Status>,
)
    requires
        call_ensures(send_message, (user, input), r),
        input.content@ == before + s + behind,
        forall|i: int| 0 <= i < before.len() ==> white_space(#[trigger] before[i]),
        forall|i: int| 0 <= i < behind.len() ==> white_space(#[trigger] behind[i]),
        s.len() > 0 ==> !white_space(s[0]) && !white_space(s.last()),
    ensures
        r is Ok <==> s.len() > 0 && encode_utf8(s).len() <= 1000,
        r matches Ok(waiting) ==> waiting.content@ == s && waiting.username@ == user.0@,
        r matches Err(status) ==> status == Status::BadRequest,
{
    lemma_trim(before, s, behind);
}

/// A text is profane exactly if one of the two words occurs in it, wherever.
pub proof fn lemma_profanity(text: &str, a: Seq<char>, b: Seq<char>, r: bool)
    requires
        call_ensures(is_profane, (text,), r),
    ensures
        text@ == a + "badword"@ + b ==> r,
        text@ == a + "swear"@ + b ==> r,
        r ==> (exists|x: Seq<char>, y: Seq<char>| text@ == #[trigger] (x + "badword"@ + y)) || (
        exists|x: Seq<char>, y: Seq<char>| text@ == #[trigger] (x + "swear"@ + y)),
{
    lemma_occurs(a, "badword"@, b, text@);
    lemma_occurs(a, "swear"@, b, text@);
}

/// A post of a known author without profanity goes out as it was written, in the author's name; any
/// other is refused.
pub proof fn lemma_post_judged(
    waiting: AwaitingAuthor,
    found: Result<bool, ()>,
    profane: bool,
    lower: &str,
    r: Result<ChatPost, Status>,
)
    requires
        call_ensures(AwaitingAuthor::resume, (waiting, found), r),
        lower@ == lower_case(waiting.content@),
        call_ensures(is_profane, (lower,), profane),
    ensures
        r is Ok <==> found == Ok::<bool, ()>(true) && !profane,
        r matches Ok(post) ==> post.content@ == waiting.content@ && post.user@ == waiting.username@
            && post.topic@ == "chat"@ && 0 <= post.timestamp <= LATEST_SECOND,
        r matches Err(status) ==> status == match found {
            Err(_) => Status::InternalServerError,
            Ok(known) => if known {
                Status::BadRequest
            } else {
                Status::Unauthorized
            },
        },
{
}

/// A post made at a second holds the text, the author and that second.
pub proof fn lemma_post_made(waiting: AwaitingAuthor, now: i64, r: ChatPost, query: Statement)
    requires
        call_ensures(AwaitingAuthor::post_at, (waiting, now), r),
        call_ensures(AwaitingAuthor::query, (&waiting,), query),
    ensures
        r.content@ == waiting.content@,
        r.user@ == waiting.username@,
        r.timestamp == now,
        r.topic@ == "chat"@,
        binds(query, "SELECT username FROM users WHERE username = ?"@, seq![waiting.username@]),
{
    lemma_values(query);
}

/// A token names its user and is accepted for a day after it was made, and for the leeway of a minute
/// beyond.
pub proof fn lemma_token_day(
    username: &str,
    secret: &str,
    now: i64,
    r: Result<String, Status>,
    s: u64,
)
    requires
        call_ensures(token_at, (username, secret, now), r),
        0 <= now,
        now + 24 * 60 * 60 <= usize::MAX,
        60 <= s,
    ensures
        r is Ok,
        r->Ok_0@ == signed_token(username@, (now + 24 * 60 * 60) as usize, secret@),
        s <= now + 24 * 60 * 60 + 60 ==> decoded_at(r->Ok_0@, secret@, s) == Some(
            (Some(username@), Some((now + 24 * 60 * 60) as u64)),
        ),
        s > now + 24 * 60 * 60 + 60 ==> decoded_at(r->Ok_0@, secret@, s) is None,
{
    let token = r->Ok_0@;
    assert(is_token_made(token, username@, secret@, now as int));
    crate::auth::lemma_token_lives(token, username@, secret@, now as int, s);
}

/// Whether a token was made for a user under a secret at a second.
pub open spec fn made_for(
    token: Seq<char>,
    username: Seq<char>,
    secret: Seq<char>,
    made: int,
) -> bool {
    &&& token == signed_token(username, (made + 24 * 60 * 60) as usize, secret)
    &&& claims_in(token).0 == Some(username)
}

/// Who logs in with the right password gets the account's icon and a token in the name given; a wrong
/// password and an unknown name are refused alike.
pub proof fn lemma_login(
    input: LoginInput,
    found: Result<Option<User>, ()>,
    secret: &str,
    r: Result<TokenResponse, Status>,
)
    requires
        call_ensures(login, (&input, found, secret), r),
    ensures
        found is Err ==> r == Err::<TokenResponse, Status>(Status::InternalServerError),
        found == Ok::<Option<User>, ()>(None) ==> r == Err::<TokenResponse, Status>(
            Status::Unauthorized,
        ),
        found matches Ok(Some(user)) ==> {
            let stored = user.password_hash@;
            &&& !is_hash_text(stored) ==> r == Err::<TokenResponse, Status>(
                Status::InternalServerError,
            )
            &&& is_hash_text(stored) && lanes_fit(stored) && argon2_confirms(
                input.password@,
                stored,
            ) ==> r is Ok && r->Ok_0.icon@ == user.icon@ && exists|made: int|
                0 <= made <= LATEST_SECOND && #[trigger] made_for(
                    r->Ok_0.token@,
                    input.username@,
                    secret@,
                    made,
                )
            &&& is_hash_text(stored) && !(lanes_fit(stored) && argon2_confirms(
                input.password@,
                stored,
            )) ==> r == Err::<TokenResponse, Status>(Status::Unauthorized)
        },
{
    if r is Ok {
        let token = r->Ok_0.token@;
        let made = choose|made: int|
            0 <= made <= LATEST_SECOND && #[trigger] is_token_made(
                token,
                input.username@,
                secret@,
                made,
            );
        assert(made_for(token, input.username@, secret@, made));
    }
}

/// A new account holds the name, the icon and the hash that it was made of, is stored with these, and
/// gets its icon and a token in its name once it is stored; a name that is taken is refused.
pub proof fn lemma_account_made(
    input: RegisterInput,
    id: u128,
    hash: Option<String>,
    made: Result<User, Status>,
    insertion: Statement,
    stored: bool,
    secret: &str,
    r: Result<TokenResponse, Status>,
)
    requires
        call_ensures(account_with, (input, id, hash), made),
        made is Ok ==> call_ensures(User::insert, (&made->Ok_0,), insertion),
        made is Ok ==> call_ensures(User::registered, (made->Ok_0, stored, secret), r),
    ensures
        hash is None ==> made == Err::<User, Status>(Status::InternalServerError),
        hash matches Some(h) ==> made is Ok && {
            let user = made->Ok_0;
            &&& user.id == id
            &&& user.username@ == input.username@
            &&& user.password_hash@ == h@
            &&& user.icon@ == input.icon@
            &&& insertion.sql@
                == "INSERT INTO users (id, username, password_hash, icon) VALUES (?, ?, ?, ?)"@
            &&& insertion.values@.len() == 4
            &&& insertion.values@[0] is Identifier && insertion.values@[0]->Identifier_0 == id
            &&& insertion.values@[1] is Text && insertion.values@[1]->Text_0@ == input.username@
            &&& insertion.values@[2] is Text && insertion.values@[2]->Text_0@ == h@
            &&& insertion.values@[3] is Text && insertion.values@[3]->Text_0@ == input.icon@
            &&& !stored ==> r == Err::<TokenResponse, Status>(Status::Conflict)
            &&& stored ==> r is Ok && r->Ok_0.icon@ == input.icon@ && exists|second: int|
                0 <= second <= LATEST_SECOND && #[trigger] made_for(
                    r->Ok_0.token@,
                    input.username@,
                    secret@,
                    second,
                )
        },
{
    lemma_values(insertion);
    if hash is Some && stored {
        let token = r->Ok_0.token@;
        let second = choose|second: int|
            0 <= second <= LATEST_SECOND && #[trigger] is_token_made(
                token,
                input.username@,
                secret@,
                second,
            );
        assert(made_for(token, input.username@, secret@, second));
    }
}

/// A password is judged by whether it could be checked and was confirmed, and an account is looked up
/// by the name given.
pub proof fn lemma_judged(
    confirmed: Option<bool>,
    r: Result<(), Status>,
    username: &str,
    query: Statement,
)
    requires
        call_ensures(judge, (confirmed,), r),
        call_ensures(find_account, (username,), query),
    ensures
        r is Ok <==> confirmed == Some(true),
        confirmed is None ==> r == Err::<(), Status>(Status::InternalServerError),
        confirmed == Some(false) ==> r == Err::<(), Status>(Status::Unauthorized),
        binds(query, "SELECT * FROM users WHERE username = ?"@, seq![username@]),
{
    lemma_values(query);
}

/// A request speaks for the user whom the claims name, if they hold an expiry too, and for nobody
/// otherwise.
pub proof fn lemma_claims_name_user(
    claims: Option<DecodedClaims>,
    r: Result<AwaitingAccount, Status>,
)
    requires
        call_ensures(AuthUser::from_claims, (claims,), r),
    ensures
        r is Ok <==> claims is Some && claims->0.sub is Some && claims->0.exp is Some
            && claims->0.exp->0 <= usize::MAX,
        r matches Ok(waiting) ==> waiting.username@ == claims->0.sub->0@,
        r matches Err(status) ==> status == Status::Unauthorized,
{
}

/// A request is taken for the user whom the token behind `Bearer ` names, while the token is accepted
/// and if it names an expiry too.
pub proof fn lemma_bearer(header: Seq<char>, token: Seq<char>, secret: Seq<char>, now: u64)
    ensures
        requester(None, secret, now) is None,
        requester(Some(header), secret, now) is Some ==> exists|t: Seq<char>|
            header == #[trigger] ("Bearer "@ + t),
        requester(Some("Bearer "@ + token), secret, now) == match decoded_at(token, secret, now) {
            Some((Some(username), Some(exp))) => if exp <= usize::MAX {
                Some(username)
            } else {
                None
            },
            _ => None,
        },
{
    lemma_prefix("Bearer "@, token);
    lemma_prefix("Bearer "@, header);
    if behind_prefix(header, "Bearer "@) is Some {
        assert(header == "Bearer "@ + behind_prefix(header, "Bearer "@)->0);
    }
}

/// The account that a request is taken for is looked up by its name, and gives its icon.
pub proof fn lemma_requester_known(
    waiting: AwaitingAccount,
    found: Option<User>,
    query: Statement,
    r: Result<AuthUser, Status>,
)
    requires
        call_ensures(AwaitingAccount::query, (&waiting,), query),
        call_ensures(AwaitingAccount::resume, (waiting, found), r),
    ensures
        binds(query, "SELECT * FROM users WHERE username = ?"@, seq![waiting.username@]),
        found matches Some(user) ==> r is Ok && r->Ok_0.0@ == waiting.username@ && r->Ok_0.1@
            == user.icon@,
        found is None ==> r == Err::<AuthUser, Status>(Status::InternalServerError),
{
    lemma_values(query);
}

/// Only administrators act on other accounts: a ban is stored with its own identifier, who banned
/// whom, why and when, an unbanning removes the target's bans, and a promotion makes the target an
/// administrator.
pub proof fn lemma_admin_actions(
    waiting: AwaitingRole,
    role: Option<String>,
    id: u128,
    at: String,
    query: Statement,
    admin: bool,
    r: ActionTurn,
)
    requires
        call_ensures(AwaitingRole::query, (&waiting,), query),
        call_ensures(AwaitingRole::resume_with, (waiting, role, id, at), r),
        call_ensures(is_admin, (&role,), admin),
    ensures
        binds(query, "SELECT * FROM users WHERE id = ?"@, seq![waiting.admin_id@]),
        admin <==> role is Some && role->0@ == "admin"@,
        !admin ==> r is Refused && r->Refused_0 is Error && r->Refused_0->Error_0@ == "Admin only"@,
        admin ==> r is Run && match waiting.action {
            AdminAction::Ban { target_id, reason } => {
                &&& r->change is AddBan
                &&& r->change->AddBan_id@ == hyphenated(id)
                &&& r->change->AddBan_admin_id@ == waiting.admin_id@
                &&& r->change->AddBan_target_id@ == target_id@
                &&& r->change->AddBan_reason@ == reason@
                &&& r->change->AddBan_banned_at@ == at@
                &&& r->response is Banned
                &&& r->response->banned_at@ == at@
            },
            AdminAction::Unban { target_id } => {
                &&& r->change is RemoveBans
                &&& r->change->RemoveBans_target_id@ == target_id@
                &&& r->response is Unbanned
            },
            AdminAction::Promote { target_id } => {
                &&& r->change is Promote
                &&& r->change->Promote_user_id@ == target_id@
                &&& r->response is Promoted
            },
        },
{
    lemma_values(query);
}

/// Each change of an account is made by its own statement, with what it changes to before whom it is
/// about.
pub proof fn lemma_account_statements(change: AccountChange, r: Statement)
    requires
        call_ensures(AccountChange::statement, (&change,), r),
    ensures
        match change {
            AccountChange::AddBan { id, admin_id, target_id, reason, banned_at } => binds(
                r,
                "INSERT INTO banned_users (id, admin_id, target_id, reason, banned_at) VALUES (?, ?, ?, ?, ?)"@,
                seq![id@, admin_id@, target_id@, reason@, banned_at@],
            ),
            AccountChange::RemoveBans { target_id } => binds(
                r,
                "DELETE FROM banned_users WHERE target_id = ?"@,
                seq![target_id@],
            ),
            AccountChange::Promote { user_id } => binds(
                r,
                "UPDATE users SET role = 'admin' WHERE id = ?"@,
                seq![user_id@],
            ),
            AccountChange::Rename { user_id, username } => binds(
                r,
                "UPDATE users SET username = ? WHERE id = ?"@,
                seq![username@, user_id@],
            ),
            AccountChange::SetIcon { user_id, icon } => binds(
                r,
                "UPDATE users SET icon = ? WHERE id = ?"@,
                seq![icon@, user_id@],
            ),
        },
{
    lemma_values(r);
}

/// A name of 3 to 32 bytes is taken as it is, and any other is refused.
pub proof fn lemma_renaming(payload: ChangeUsernamePayload, r: Result<AccountChange, ActionResponse>)
    requires
        call_ensures(change_username, (payload,), r),
    ensures
        r is Ok <==> 3 <= encode_utf8(payload.new_username@).len() <= 32,
        r matches Ok(change) ==> change is Rename && change->Rename_user_id@ == payload.user_id@
            && change->Rename_username@ == payload.new_username@,
        r matches Err(response) ==> response is Error && response->Error_0@
            == "Username length must be 3-32 chars"@,
{
}

/// What went wrong with a new name is told: that it is taken where the database says so, wherever in
/// its words, and else in its own words.
pub proof fn lemma_renaming_told(
    failure: Option<String>,
    a: Seq<char>,
    b: Seq<char>,
    r: ActionResponse,
)
    requires
        call_ensures(renamed, (failure,), r),
    ensures
        r is UsernameChanged <==> failure is None,
        failure matches Some(text) ==> {
            let taken = exists|x: Seq<char>, y: Seq<char>|
                text@ == #[trigger] (x + "UNIQUE constraint failed"@ + y);
            &&& r is Error
            &&& taken ==> r->Error_0@ == "Username already exists"@
            &&& !taken ==> r->Error_0@ == "DB Error: "@ + text@
        },
{
    if let Some(text) = failure {
        let p = "UNIQUE constraint failed"@;
        lemma_occurs(a, p, b, text@);
        if exists|x: Seq<char>, y: Seq<char>| text@ == #[trigger] (x + p + y) {
            let (x, y) = choose|x: Seq<char>, y: Seq<char>| text@ == #[trigger] (x + p + y);
            lemma_occurs(x, p, y, text@);
        }
    }
}

/// An icon of at most six bytes is taken as it is, and any other is refused.
pub proof fn lemma_icon_change(payload: ChangeIconPayload, r: ActionTurn)
    requires
        call_ensures(change_icon, (payload,), r),
    ensures
        r is Run <==> encode_utf8(payload.new_icon@).len() <= 6,
        r is Run ==> r->change is SetIcon && r->change->SetIcon_user_id@ == payload.user_id@
            && r->change->SetIcon_icon@ == payload.new_icon@ && r->response is IconChanged,
        r is Refused ==> r->Refused_0 is Error && r->Refused_0->Error_0@ == "Icon too long"@,
{
    lemma_byte_length(payload.new_icon@);
}

/// The alphabet of base 64 for addresses: the symbol at place `i` stands for `i`, and no other
/// character for anything.
pub proof fn lemma_alphabet(i: int, c: char)
    requires
        0 <= i < 64,
    ensures
        ({
            let alphabet = "ABCDEFGHIJKLMNOPQRSTUVWXYZabcdefghijklmnopqrstuvwxyz0123456789-_"@;
            &&& alphabet.len() == 64
            &&& six_bits(alphabet[i]) == Some(i)
            &&& six_bits(c) matches Some(n) ==> 0 <= n < 64 && alphabet[n] == c
        }),
{
    reveal_strlit("ABCDEFGHIJKLMNOPQRSTUVWXYZabcdefghijklmnopqrstuvwxyz0123456789-_");
}

/// Four symbols of base 64 and the three bytes that they stand for are the same number of 24 bits; a
/// text that holds anything else stands for nothing.
pub proof fn lemma_base64(s: Seq<char>, g: int)
    requires
        0 <= g,
        4 * g + 3 < s.len(),
        forall|i: int| 0 <= i < s.len() ==> six_bits(#[trigger] s[i]) is Some,
    ensures
        base64_bytes(s) matches Some(bytes) && {
            &&& bytes.len() == s.len() * 3 / 4
            &&& ((bytes[3 * g] * 256) + bytes[3 * g + 1]) * 256 + bytes[3 * g + 2] == ((six_bits(
                s[4 * g],
            )->0 * 64 + six_bits(s[4 * g + 1])->0) * 64 + six_bits(s[4 * g + 2])->0) * 64
                + six_bits(s[4 * g + 3])->0
        },
{
    let bits = s.map_values(|c: char| six_bits(c)->0);
    let a = bits[4 * g];
    let b = bits[4 * g + 1];
    let c = bits[4 * g + 2];
    let d = bits[4 * g + 3];
    assert(a == six_bits(s[4 * g])->0 && 0 <= a < 64);
    assert(b == six_bits(s[4 * g + 1])->0 && 0 <= b < 64);
    assert(c == six_bits(s[4 * g + 2])->0 && 0 <= c < 64);
    assert(d == six_bits(s[4 * g + 3])->0 && 0 <= d < 64);
    let bytes = base64_bytes(s)->0;
    assert(3 * g / 3 == g && (3 * g + 1) / 3 == g && (3 * g + 2) / 3 == g);
    assert(bytes[3 * g] == byte_at(bits, 3 * g) as u8);
    assert(bytes[3 * g + 1] == byte_at(bits, 3 * g + 1) as u8);
    assert(bytes[3 * g + 2] == byte_at(bits, 3 * g + 2) as u8);
    assert(byte_at(bits, 3 * g) == a * 4 + b / 16);
    assert(byte_at(bits, 3 * g + 1) == b % 16 * 16 + c / 4);
    assert(byte_at(bits, 3 * g + 2) == c % 4 * 64 + d);
}

/// The symbols left over at the end of a text in base 64 give the whole bytes that they hold.
pub proof fn lemma_base64_end(s: Seq<char>, g: int)
    requires
        0 <= g,
        4 * g < s.len() < 4 * g + 4,
        forall|i: int| 0 <= i < s.len() ==> six_bits(#[trigger] s[i]) is Some,
    ensures
        base64_bytes(s) matches Some(bytes) && {
            &&& s.len() == 4 * g + 1 ==> bytes.len() == 3 * g
            &&& s.len() >= 4 * g + 2 ==> bytes.len() == 3 * g + (s.len() - 4 * g - 1)
                && bytes[3 * g] == (six_bits(s[4 * g])->0 * 64 + six_bits(s[4 * g + 1])->0) / 16
            &&& s.len() == 4 * g + 3 ==> bytes[3 * g] * 256 + bytes[3 * g + 1] == ((six_bits(
                s[4 * g],
            )->0 * 64 + six_bits(s[4 * g + 1])->0) * 64 + six_bits(s[4 * g + 2])->0) / 4
        },
{
    let bits = s.map_values(|c: char| six_bits(c)->0);
    let bytes = base64_bytes(s)->0;
    assert(3 * g / 3 == g && (3 * g + 1) / 3 == g);
    let a = bits[4 * g];
    assert(a == six_bits(s[4 * g])->0 && 0 <= a < 64);
    if s.len() >= 4 * g + 2 {
        let b = bits[4 * g + 1];
        assert(b == six_bits(s[4 * g + 1])->0 && 0 <= b < 64);
        assert(byte_at(bits, 3 * g) == a * 4 + b / 16);
        assert(bytes[3 * g] == byte_at(bits, 3 * g) as u8);
    }
    if s.len() == 4 * g + 3 {
        let b = bits[4 * g + 1];
        let c = bits[4 * g + 2];
        assert(c == six_bits(s[4 * g + 2])->0 && 0 <= c < 64);
        assert(byte_at(bits, 3 * g + 1) == b % 16 * 16 + c / 4);
        assert(bytes[3 * g + 1] == byte_at(bits, 3 * g + 1) as u8);
    }
}

/// A token's claims are those in its second part of three; one with more or fewer parts, or with a
/// second part that is not base 64, claims nothing.
pub proof fn lemma_claims(a: Seq<char>, b: Seq<char>, c: Seq<char>, d: Seq<char>)
    requires
        forall|i: int| 0 <= i < a.len() ==> #[trigger] a[i] != '.',
        forall|i: int| 0 <= i < b.len() ==> #[trigger] b[i] != '.',
        forall|i: int| 0 <= i < c.len() ==> #[trigger] c[i] != '.',
    ensures
        claims_in(a + seq!['.'] + (b + seq!['.'] + c)) == match base64_bytes(b) {
            Some(bytes) => json_claims(bytes),
            None => (None, None),
        },
        claims_in(a) == (None::<Seq<char>>, None::<u64>),
        claims_in(a + seq!['.'] + b) == (None::<Seq<char>>, None::<u64>),
        claims_in(a + seq!['.'] + (b + seq!['.'] + (c + seq!['.'] + d))) == (
            None::<Seq<char>>,
            None::<u64>,
        ),
{
    lemma_cut(a, '.', b + seq!['.'] + c);
    lemma_cut(b, '.', c);
    lemma_cut(c, '.', d);
    lemma_cut(a, '.', b);
    lemma_cut(a, '.', b + seq!['.'] + (c + seq!['.'] + d));
    lemma_cut(b, '.', c + seq!['.'] + d);
    assert(pieces(a + seq!['.'] + (b + seq!['.'] + c), '.') =~= seq![a, b, c]);
    assert(pieces(d, '.').len() > 0);
}

/// A stored hash is checked unless one of the parameters in one of its fields names so many lanes that
/// eight times as many do not fit in 32 bits.
pub proof fn lemma_lanes(
    n: nat,
    other: Seq<char>,
    parameter: Seq<char>,
    parameters: Seq<char>,
    field: Seq<char>,
    fields: Seq<char>,
)
    requires
        forall|i: int| 0 <= i < parameter.len() ==> #[trigger] parameter[i] != ',',
        forall|i: int| 0 <= i < field.len() ==> #[trigger] field[i] != '$',
    ensures
        n <= 0xFFFF_FFFF ==> (parameter_fits("p="@ + decimal(n)) <==> 8 * n <= 0xFFFF_FFFF),
        !parameter_fits(other) ==> exists|rest: Seq<char>| other == #[trigger] ("p="@ + rest),
        field_fits(parameter) <==> parameter_fits(parameter),
        field_fits(parameter + seq![','] + parameters) <==> parameter_fits(parameter) && field_fits(
            parameters,
        ),
        lanes_fit(field) <==> field_fits(field),
        lanes_fit(field + seq!['$'] + fields) <==> field_fits(field) && lanes_fit(fields),
{
    lemma_prefix("p="@, decimal(n));
    lemma_bounds(n, 0xFFFF_FFFF, 0, other);
    lemma_prefix("p="@, other);
    if behind_prefix(other, "p="@) is Some {
        assert(other == "p="@ + behind_prefix(other, "p="@)->0);
    }
    lemma_cut(parameter, ',', parameters);
    lemma_cut(field, '$', fields);
    assert(field_fits(parameter) <==> parameter_fits(parameter)) by {
        assert(pieces(parameter, ',')[0] == parameter);
    }
    assert(lanes_fit(field) <==> field_fits(field)) by {
        assert(pieces(field, '$')[0] == field);
    }
    let ps = pieces(parameter + seq![','] + parameters, ',');
    let rest = pieces(parameters, ',');
    assert(ps[0] == parameter);
    assert(forall|i: int| 0 <= i < rest.len() ==> #[trigger] rest[i] == ps[i + 1]);
    assert(forall|i: int| 0 < i < ps.len() ==> #[trigger] ps[i] == rest[i - 1]);
    let fs = pieces(field + seq!['$'] + fields, '$');
    let others = pieces(fields, '$');
    assert(fs[0] == field);
    assert(forall|i: int| 0 <= i < others.len() ==> #[trigger] others[i] == fs[i + 1]);
    assert(forall|i: int| 0 < i < fs.len() ==> #[trigger] fs[i] == others[i - 1]);
}

/// A new account has the name and the icon that were given, a new identifier, and the hash of the
/// password under some salt.
pub proof fn lemma_registered(input: RegisterInput, r: Result<User, Status>)
    requires
        call_ensures(register, (input,), r),
    ensures
        encode_utf8(input.password@).len() <= 0xFFFF_FFFF ==> r is Ok,
        r matches Ok(user) ==> {
            &&& user.username@ == input.username@
            &&& user.icon@ == input.icon@
            &&& random_identifier(user.id)
            &&& exists|salt: Seq<char>|
                is_salt(salt) && #[trigger] argon2_text(input.password@, salt) == Some(
                    user.password_hash@,
                )
        },
        r matches Err(status) ==> status == Status::InternalServerError,
{
    lemma_byte_length(input.password@);
    let (id, salt) = choose|id: u128, salt: Seq<char>|
        random_identifier(id) && is_salt(salt) && #[trigger] is_registration(input, id, salt, r);
    assert(argon2_text(input.password@, salt) is Some || r is Err);
}

/// A user of the service is stored with the name and the icon given, the hash of the password under
/// some salt, and the present moment.
pub proof fn lemma_service_user(
    service: DataService,
    name: String,
    password: String,
    icon: String,
    r: Statement,
)
    requires
        call_ensures(DataService::add_user, (&service, name, password, icon), r),
        encode_utf8(password@).len() <= 0xFFFF_FFFF,
    ensures
        r.sql@ == "INSERT INTO users (name, password, date_of_creation, icon) VALUES (?, ?, ?, ?)"@,
        r.values@.len() == 4,
        r.values@[0] is Text && r.values@[0]->Text_0@ == name@,
        r.values@[1] is Text && exists|salt: Seq<char>|
            is_salt(salt) && #[trigger] argon2_text(password@, salt) == Some(
                r.values@[1]->Text_0@,
            ),
        r.values@[2] is Text && is_clock_text(r.values@[2]->Text_0@),
        r.values@[3] is Text && r.values@[3]->Text_0@ == icon@,
{
    let (salt, hash, date) = choose|salt: Seq<char>, hash: Seq<char>, date: Seq<char>|
        is_salt(salt) && #[trigger] crate::outside::is_hash_of(hash, password@, salt)
            && is_clock_text(date) && r.deep_view()
            == #[trigger] crate::data_service::user_insertion(name@, hash, date, icon@);
    lemma_values(r);
    assert(argon2_text(password@, salt) == Some(hash));
}

/// A request without a header, or with one that does not begin with `Bearer `, is refused.
pub proof fn lemma_no_bearer(
    header: &str,
    secret: &str,
    none: Result<AwaitingAccount, Status>,
    r: Result<AwaitingAccount, Status>,
)
    requires
        call_ensures(AuthUser::from_request, (None, secret), none),
        call_ensures(AuthUser::from_request, (Some(header), secret), r),
        forall|t: Seq<char>| header@ != #[trigger] ("Bearer "@ + t),
    ensures
        none == Err::<AwaitingAccount, Status>(Status::Unauthorized),
        r == Err::<AwaitingAccount, Status>(Status::Unauthorized),
{
    lemma_prefix("Bearer "@, header@);
    let given: Option<&str> = None;
    assert(given.deep_view() == None::<Seq<char>>);
    assert(Some(header).deep_view() == Some(header@));
}

/// A token is decoded exactly while it is accepted, and then says what is claimed in it.
pub proof fn lemma_decoding(token: Seq<char>, secret: Seq<char>, now: u64)
    ensures
        decoded_at(token, secret, now) is Some <==> accepted_at(token, secret, now),
        decoded_at(token, secret, now) matches Some(claims) ==> claims == claims_in(token),
{
}

/// A number of lanes counts in whatever way it is written, and what is no number of 32 bits does not.
pub proof fn lemma_lanes_written(value: Seq<char>)
    ensures
        !parameter_fits("p="@ + value) <==> unsigned_value(value) is Some && 0xFFFF_FFFF < 8
            * unsigned_value(value)->0 && unsigned_value(value)->0 <= 0xFFFF_FFFF,
{
    lemma_prefix("p="@, value);
    lemma_bounds(0, 0xFFFF_FFFF, 0, value);
}

/// A token that is made now is for the user given, and lasts a day from some second of the clock on.
pub proof fn lemma_token_now(username: &str, secret: &str, r: Result<String, Status>)
    requires
        call_ensures(generate_token, (username, secret), r),
    ensures
        r is Ok,
        exists|made: int|
            0 <= made <= LATEST_SECOND && #[trigger] made_for(
                r->Ok_0@,
                username@,
                secret@,
                made,
            ),
{
    let token = r->Ok_0@;
    let made = choose|made: int|
        0 <= made <= LATEST_SECOND && #[trigger] is_token_made(token, username@, secret@, made);
    assert(made_for(token, username@, secret@, made));
}

/// What is decoded of a token is what it claims, and only of one that is accepted at some second.
pub proof fn lemma_decoded(token: &str, secret: &str, r: Option<DecodedClaims>)
    requires
        call_ensures(decode_token, (token, secret), r),
    ensures
        r matches Some(c) ==> (c.sub.deep_view(), c.exp) == claims_in(token@) && exists|now: u64|
            #[trigger] accepted_at(token@, secret@, now),
        r is None ==> exists|now: u64| !#[trigger] accepted_at(token@, secret@, now),
{
    let now = choose|now: u64| #[trigger] decoded_at(token@, secret@, now) == r.deep_view();
    assert(accepted_at(token@, secret@, now) <==> r is Some);
}

/// Whoever a request is taken for is named, with an expiry, in the token behind `Bearer ` in its
/// header, and that token is accepted at some second.
pub proof fn lemma_bearer_named(
    header: &str,
    token: Seq<char>,
    secret: &str,
    r: Result<AwaitingAccount, Status>,
)
    requires
        call_ensures(AuthUser::from_request, (Some(header), secret), r),
        header@ == "Bearer "@ + token,
    ensures
        r matches Ok(waiting) ==> {
            &&& claims_in(token).0 == Some(waiting.username@)
            &&& claims_in(token).1 is Some
            &&& exists|now: u64| #[trigger] accepted_at(token, secret@, now)
        },
        r matches Err(status) ==> status == Status::Unauthorized,
        r is Err ==> claims_in(token).0 is None || claims_in(token).1 is None
            || claims_in(token).1->0 > usize::MAX || exists|now: u64|
            !#[trigger] accepted_at(token, secret@, now),
{
    lemma_prefix("Bearer "@, token);
    assert(Some(header).deep_view() == Some(header@));
    let now = choose|now: u64|
        match #[trigger] requester(Some(header@), secret@, now) {
            Some(username) => r is Ok && r->Ok_0.username@ == username,
            None => r == Err::<AwaitingAccount, Status>(Status::Unauthorized),
        };
    assert(accepted_at(token, secret@, now) || !accepted_at(token, secret@, now));
}

} // verus!
