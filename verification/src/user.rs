//! Actions on accounts.

use vstd::prelude::*;
use crate::outside::clock_text;
use crate::outside::hyphenated;
use crate::outside::is_clock_text;
use crate::outside::random_identifier;
use crate::outside::random_uuid;
use crate::outside::uuid_text;
use crate::store::statement;
use crate::store::statement1;
use crate::store::statement2;
use crate::store::text_value;
use crate::store::SqlValue;
use crate::store::SqlView;
use crate::store::Statement;
use crate::store::StatementView;
use crate::text::byte_len;
use crate::text::byte_length;
use crate::text::contains;
use crate::text::holds_text;
use crate::text::plus;
use crate::text::same;

verus! {

/// The fewest bytes of a user name.
pub const MIN_USERNAME_BYTES: usize = 3;

/// The most bytes of a user name.
pub const MAX_USERNAME_BYTES: usize = 32;

/// The most bytes of an icon.
pub const MAX_ICON_BYTES: usize = 6;

#[derive(Debug)]
pub struct BanUserPayload {
    pub admin_id: String,
    pub target_id: String,
    pub reason: String,
}

#[derive(Debug)]
pub struct UnbanUserPayload {
    pub admin_id: String,
    pub target_id: String,
}

#[derive(Debug)]
pub struct PromoteUserPayload {
    pub admin_id: String,
    pub target_id: String,
}

#[derive(Debug)]
pub struct ChangeUsernamePayload {
    pub user_id: String,
    pub new_username: String,
}

#[derive(Debug)]
pub struct ChangeIconPayload {
    pub user_id: String,
    pub new_icon: String,
}

/// The answer to an action: what was done, or why not.
#[derive(Debug)]
pub enum ActionResponse {
    Banned { banned_at: String },
    Unbanned,
    Promoted,
    UsernameChanged,
    IconChanged,
    Error(String),
}

/// What an answer holds.
pub enum ActionView {
    Banned { banned_at: Seq<char> },
    Unbanned,
    Promoted,
    UsernameChanged,
    IconChanged,
    Error(Seq<char>),
}

impl DeepView for ActionResponse {
    type V = ActionView;

    open spec fn deep_view(&self) -> ActionView {
        match self {
            ActionResponse::Banned { banned_at } => ActionView::Banned { banned_at: banned_at@ },
            ActionResponse::Unbanned => ActionView::Unbanned,
            ActionResponse::Promoted => ActionView::Promoted,
            ActionResponse::UsernameChanged => ActionView::UsernameChanged,
            ActionResponse::IconChanged => ActionView::IconChanged,
            ActionResponse::Error(text) => ActionView::Error(text@),
        }
    }
}

/// The look-up of the account of whoever asks for an action.
pub open spec fn actor_query(user_id: Seq<char>) -> StatementView {
    StatementView {
        sql: "SELECT * FROM users WHERE id = ?"@,
        values: seq![SqlView::Text(user_id)],
    }
}

/// Whether an account with a role is an administrator's.
pub open spec fn admin_role(role: Option<Seq<char>>) -> bool {
    role == Some("admin"@)
}

/// Whether the account whose role was found, if there is one, is an administrator's.
pub fn is_admin(role: &Option<String>) -> (r: bool)
    ensures
        r == admin_role(role.deep_view()),
{
    match role {
        Some(name) => same(name.as_str(), "admin"),
        None => false,
    }
}

/// What an administrator asks for.
#[derive(Debug)]
pub enum AdminAction {
    Ban { target_id: String, reason: String },
    Unban { target_id: String },
    Promote { target_id: String },
}

/// What an action holds.
pub enum AdminActionView {
    Ban { target_id: Seq<char>, reason: Seq<char> },
    Unban { target_id: Seq<char> },
    Promote { target_id: Seq<char> },
}

impl DeepView for AdminAction {
    type V = AdminActionView;

    open spec fn deep_view(&self) -> AdminActionView {
        match self {
            AdminAction::Ban { target_id, reason } => AdminActionView::Ban {
                target_id: target_id@,
                reason: reason@,
            },
            AdminAction::Unban { target_id } => AdminActionView::Unban { target_id: target_id@ },
            AdminAction::Promote { target_id } => AdminActionView::Promote {
                target_id: target_id@,
            },
        }
    }
}

/// An action that waits for the role of whoever asks for it.
#[derive(Debug)]
pub struct AwaitingRole {
    pub admin_id: String,
    pub action: AdminAction,
}

/// What a waiting action holds.
pub struct AwaitingRoleView {
    pub admin_id: Seq<char>,
    pub action: AdminActionView,
}

impl DeepView for AwaitingRole {
    type V = AwaitingRoleView;

    open spec fn deep_view(&self) -> AwaitingRoleView {
        AwaitingRoleView { admin_id: self.admin_id@, action: self.action.deep_view() }
    }
}

/// Asks for a user to be banned.
pub fn ban_user(payload: BanUserPayload) -> (r: AwaitingRole)
    ensures
        r.deep_view() == (AwaitingRoleView {
            admin_id: payload.admin_id@,
            action: AdminActionView::Ban {
                target_id: payload.target_id@,
                reason: payload.reason@,
            },
        }),
{
    AwaitingRole {
        admin_id: payload.admin_id,
        action: AdminAction::Ban { target_id: payload.target_id, reason: payload.reason },
    }
}

/// Asks for a user's ban to be lifted.
pub fn unban_user(payload: UnbanUserPayload) -> (r: AwaitingRole)
    ensures
        r.deep_view() == (AwaitingRoleView {
            admin_id: payload.admin_id@,
            action: AdminActionView::Unban { target_id: payload.target_id@ },
        }),
{
    AwaitingRole {
        admin_id: payload.admin_id,
        action: AdminAction::Unban { target_id: payload.target_id },
    }
}

/// Asks for a user to be made an administrator.
pub fn promote_user(payload: PromoteUserPayload) -> (r: AwaitingRole)
    ensures
        r.deep_view() == (AwaitingRoleView {
            admin_id: payload.admin_id@,
            action: AdminActionView::Promote { target_id: payload.target_id@ },
        }),
{
    AwaitingRole {
        admin_id: payload.admin_id,
        action: AdminAction::Promote { target_id: payload.target_id },
    }
}

/// A change that an action makes to the database.
#[derive(Debug)]
pub enum AccountChange {
    AddBan {
        id: String,
        admin_id: String,
        target_id: String,
        reason: String,
        banned_at: String,
    },
    RemoveBans { target_id: String },
    Promote { user_id: String },
    Rename { user_id: String, username: String },
    SetIcon { user_id: String, icon: String },
}

/// What a change holds.
pub enum AccountChangeView {
    AddBan {
        id: Seq<char>,
        admin_id: Seq<char>,
        target_id: Seq<char>,
        reason: Seq<char>,
        banned_at: Seq<char>,
    },
    RemoveBans { target_id: Seq<char> },
    Promote { user_id: Seq<char> },
    Rename { user_id: Seq<char>, username: Seq<char> },
    SetIcon { user_id: Seq<char>, icon: Seq<char> },
}

impl DeepView for AccountChange {
    type V = AccountChangeView;

    open spec fn deep_view(&self) -> AccountChangeView {
        match self {
            AccountChange::AddBan { id, admin_id, target_id, reason, banned_at } =>
                AccountChangeView::AddBan {
                id: id@,
                admin_id: admin_id@,
                target_id: target_id@,
                reason: reason@,
                banned_at: banned_at@,
            },
            AccountChange::RemoveBans { target_id } => AccountChangeView::RemoveBans {
                target_id: target_id@,
            },
            AccountChange::Promote { user_id } => AccountChangeView::Promote { user_id: user_id@ },
            AccountChange::Rename { user_id, username } => AccountChangeView::Rename {
                user_id: user_id@,
                username: username@,
            },
            AccountChange::SetIcon { user_id, icon } => AccountChangeView::SetIcon {
                user_id: user_id@,
                icon: icon@,
            },
        }
    }
}

impl AccountChangeView {
    /// The statement that makes the change.
    pub open spec fn statement(self) -> StatementView {
        match self {
            AccountChangeView::AddBan { id, admin_id, target_id, reason, banned_at } =>
                StatementView {
                sql:
                    "INSERT INTO banned_users (id, admin_id, target_id, reason, banned_at) VALUES (?, ?, ?, ?, ?)"@,
                values: seq![
                    SqlView::Text(id),
                    SqlView::Text(admin_id),
                    SqlView::Text(target_id),
                    SqlView::Text(reason),
                    SqlView::Text(banned_at),
                ],
            },
            AccountChangeView::RemoveBans { target_id } => StatementView {
                sql: "DELETE FROM banned_users WHERE target_id = ?"@,
                values: seq![SqlView::Text(target_id)],
            },
            AccountChangeView::Promote { user_id } => StatementView {
                sql: "UPDATE users SET role = 'admin' WHERE id = ?"@,
                values: seq![SqlView::Text(user_id)],
            },
            AccountChangeView::Rename { user_id, username } => StatementView {
                sql: "UPDATE users SET username = ? WHERE id = ?"@,
                values: seq![SqlView::Text(username), SqlView::Text(user_id)],
            },
            AccountChangeView::SetIcon { user_id, icon } => StatementView {
                sql: "UPDATE users SET icon = ? WHERE id = ?"@,
                values: seq![SqlView::Text(icon), SqlView::Text(user_id)],
            },
        }
    }
}

impl AccountChange {
    /// The statement that makes the change.
    pub fn statement(&self) -> (r: Statement)
        ensures
            r.deep_view() == self.deep_view().statement(),
    {
        match self {
            AccountChange::AddBan { id, admin_id, target_id, reason, banned_at } => {
                let values: Vec<SqlValue> = vec![
                    text_value(id),
                    text_value(admin_id),
                    text_value(target_id),
                    text_value(reason),
                    text_value(banned_at),
                ];
                assert(values.deep_view() =~= self.deep_view().statement().values);
                statement(
                    "INSERT INTO banned_users (id, admin_id, target_id, reason, banned_at) VALUES (?, ?, ?, ?, ?)",
                    values,
                )
            },
            AccountChange::RemoveBans { target_id } => statement1(
                "DELETE FROM banned_users WHERE target_id = ?",
                text_value(target_id),
            ),
            AccountChange::Promote { user_id } => statement1(
                "UPDATE users SET role = 'admin' WHERE id = ?",
                text_value(user_id),
            ),
            AccountChange::Rename { user_id, username } => statement2(
                "UPDATE users SET username = ? WHERE id = ?",
                text_value(username),
                text_value(user_id),
            ),
            AccountChange::SetIcon { user_id, icon } => statement2(
                "UPDATE users SET icon = ? WHERE id = ?",
                text_value(icon),
                text_value(user_id),
            ),
        }
    }
}

/// What is to be done, and what is answered once it is.
#[derive(Debug)]
pub enum ActionTurn {
    /// Nothing is done, and this is answered.
    Refused(ActionResponse),
    /// The change is made, and this is answered if that succeeds.
    Run { change: AccountChange, response: ActionResponse },
}

/// What a turn holds.
pub enum ActionTurnView {
    Refused(ActionView),
    Run { change: AccountChangeView, response: ActionView },
}

impl DeepView for ActionTurn {
    type V = ActionTurnView;

    open spec fn deep_view(&self) -> ActionTurnView {
        match self {
            ActionTurn::Refused(response) => ActionTurnView::Refused(response.deep_view()),
            ActionTurn::Run { change, response } => ActionTurnView::Run {
                change: change.deep_view(),
                response: response.deep_view(),
            },
        }
    }
}

impl AwaitingRoleView {
    /// What becomes of the action, given the role, and an identifier and the time for a ban.
    pub open spec fn outcome(
        self,
        role: Option<Seq<char>>,
        id: u128,
        banned_at: Seq<char>,
    ) -> ActionTurnView {
        if !admin_role(role) {
            ActionTurnView::Refused(ActionView::Error("Admin only"@))
        } else {
            match self.action {
                AdminActionView::Ban { target_id, reason } => ActionTurnView::Run {
                    change: AccountChangeView::AddBan {
                        id: hyphenated(id),
                        admin_id: self.admin_id,
                        target_id,
                        reason,
                        banned_at,
                    },
                    response: ActionView::Banned { banned_at },
                },
                AdminActionView::Unban { target_id } => ActionTurnView::Run {
                    change: AccountChangeView::RemoveBans { target_id },
                    response: ActionView::Unbanned,
                },
                AdminActionView::Promote { target_id } => ActionTurnView::Run {
                    change: AccountChangeView::Promote { user_id: target_id },
                    response: ActionView::Promoted,
                },
            }
        }
    }
}

/// Who is no administrator can do none of the actions that are kept for administrators.
pub proof fn lemma_admin_only(
    waiting: AwaitingRoleView,
    role: Option<Seq<char>>,
    id: u128,
    banned_at: Seq<char>,
)
    ensures
        waiting.outcome(role, id, banned_at) is Refused <==> role != Some("admin"@),
{
}

impl AwaitingRole {
    /// The look-up of the account of whoever asks for the action.
    pub fn query(&self) -> (r: Statement)
        ensures
            r.deep_view() == actor_query(self.admin_id@),
    {
        statement1("SELECT * FROM users WHERE id = ?", text_value(self.admin_id.as_str()))
    }

    /// Goes on once the role is known, if there is such an account.
    pub fn resume(self, role: Option<String>) -> (r: ActionTurn)
        ensures
            exists|id: u128, banned_at: Seq<char>|
                random_identifier(id) && is_clock_text(banned_at) && r.deep_view()
                    == #[trigger] self.deep_view().outcome(role.deep_view(), id, banned_at),
    {
        let id: u128 = random_uuid();
        let banned_at = clock_text();
        self.resume_with(role, id, banned_at)
    }

    /// Goes on once the role is known, with an identifier and the time for a ban.
    pub fn resume_with(self, role: Option<String>, id: u128, banned_at: String) -> (r: ActionTurn)
        ensures
            r.deep_view() == self.deep_view().outcome(role.deep_view(), id, banned_at@),
    {
        if !is_admin(&role) {
            return ActionTurn::Refused(ActionResponse::Error("Admin only".to_string()));
        }
        match self.action {
            AdminAction::Ban { target_id, reason } => ActionTurn::Run {
                change: AccountChange::AddBan {
                    id: uuid_text(id),
                    admin_id: self.admin_id,
                    target_id,
                    reason,
                    banned_at: banned_at.clone(),
                },
                response: ActionResponse::Banned { banned_at },
            },
            AdminAction::Unban { target_id } => ActionTurn::Run {
                change: AccountChange::RemoveBans { target_id },
                response: ActionResponse::Unbanned,
            },
            AdminAction::Promote { target_id } => ActionTurn::Run {
                change: AccountChange::Promote { user_id: target_id },
                response: ActionResponse::Promoted,
            },
        }
    }
}

/// Whether a user name has a length that is allowed.
pub open spec fn username_fits(username: Seq<char>) -> bool {
    MIN_USERNAME_BYTES <= byte_length(username) <= MAX_USERNAME_BYTES
}

/// Asks for a user to be renamed. What is answered once the change was tried, `renamed` says.
pub fn change_username(payload: ChangeUsernamePayload) -> (r: Result<AccountChange, ActionResponse>)
    ensures
        match r {
            Ok(change) => username_fits(payload.new_username@) && change.deep_view()
                == (AccountChangeView::Rename {
                user_id: payload.user_id@,
                username: payload.new_username@,
            }),
            Err(response) => !username_fits(payload.new_username@) && response.deep_view()
                == ActionView::Error("Username length must be 3-32 chars"@),
        },
{
    let length: usize = byte_len(payload.new_username.as_str());
    if length < MIN_USERNAME_BYTES || length > MAX_USERNAME_BYTES {
        return Err(ActionResponse::Error("Username length must be 3-32 chars".to_string()));
    }
    Ok(AccountChange::Rename { user_id: payload.user_id, username: payload.new_username })
}

/// What is answered once a user was renamed or the change failed with an error that says this.
pub open spec fn rename_answer(failure: Option<Seq<char>>) -> ActionView {
    match failure {
        None => ActionView::UsernameChanged,
        Some(text) => if holds_text(text, "UNIQUE constraint failed"@) {
            ActionView::Error("Username already exists"@)
        } else {
            ActionView::Error("DB Error: "@ + text)
        },
    }
}

/// What is answered once a user was renamed or the change failed with an error that says this.
pub fn renamed(failure: Option<String>) -> (r: ActionResponse)
    ensures
        r.deep_view() == rename_answer(failure.deep_view()),
{
    match failure {
        None => ActionResponse::UsernameChanged,
        Some(text) => {
            if contains(text.as_str(), "UNIQUE constraint failed") {
                ActionResponse::Error("Username already exists".to_string())
            } else {
                ActionResponse::Error(plus("DB Error: ", text.as_str()))
            }
        },
    }
}

/// Asks for a user's icon to be changed.
pub fn change_icon(payload: ChangeIconPayload) -> (r: ActionTurn)
    ensures
        r.deep_view() == if byte_length(payload.new_icon@) > MAX_ICON_BYTES {
            ActionTurnView::Refused(ActionView::Error("Icon too long"@))
        } else {
            ActionTurnView::Run {
                change: AccountChangeView::SetIcon {
                    user_id: payload.user_id@,
                    icon: payload.new_icon@,
                },
                response: ActionView::IconChanged,
            }
        },
{
    if byte_len(payload.new_icon.as_str()) > MAX_ICON_BYTES {
        return ActionTurn::Refused(ActionResponse::Error("Icon too long".to_string()));
    }
    ActionTurn::Run {
        change: AccountChange::SetIcon { user_id: payload.user_id, icon: payload.new_icon },
        response: ActionResponse::IconChanged,
    }
}

/// The tables that the actions change: the role, name and icon of each account, and whom each ban
/// is on.
pub struct AccountTables {
    pub roles: Map<Seq<char>, Seq<char>>,
    pub names: Map<Seq<char>, Seq<char>>,
    pub icons: Map<Seq<char>, Seq<char>>,
    pub bans: Map<Seq<char>, Seq<char>>,
}

/// A column with a value put in the place of another, if there is one.
pub open spec fn updated(
    column: Map<Seq<char>, Seq<char>>,
    id: Seq<char>,
    value: Seq<char>,
) -> Map<Seq<char>, Seq<char>> {
    if column.dom().contains(id) {
        column.insert(id, value)
    } else {
        column
    }
}

impl AccountTables {
    /// The role of an account.
    pub open spec fn role(self, id: Seq<char>) -> Option<Seq<char>> {
        if self.roles.dom().contains(id) {
            Some(self.roles[id])
        } else {
            None
        }
    }

    /// Whether there is a ban on a user.
    pub open spec fn is_banned(self, target_id: Seq<char>) -> bool {
        exists|id: Seq<char>| #[trigger]
            self.bans.dom().contains(id) && self.bans[id] == target_id
    }

    /// The tables after a change.
    pub open spec fn changed(self, change: AccountChangeView) -> AccountTables {
        match change {
            AccountChangeView::AddBan { id, target_id, .. } => AccountTables {
                bans: self.bans.insert(id, target_id),
                ..self
            },
            AccountChangeView::RemoveBans { target_id } => AccountTables {
                bans: self.bans.restrict(
                    Set::new(|id: Seq<char>| self.bans[id] != target_id),
                ),
                ..self
            },
            AccountChangeView::Promote { user_id } => AccountTables {
                roles: updated(self.roles, user_id, "admin"@),
                ..self
            },
            AccountChangeView::Rename { user_id, username } => AccountTables {
                names: updated(self.names, user_id, username),
                ..self
            },
            AccountChangeView::SetIcon { user_id, icon } => AccountTables {
                icons: updated(self.icons, user_id, icon),
                ..self
            },
        }
    }
}

/// A ban under a new identifier puts its target under a ban, and lifting the target's bans undoes it:
/// both together come to lifting the bans alone, and to nothing if there was none before.
pub proof fn lemma_unban_undoes_ban(
    t: AccountTables,
    ban: AwaitingRoleView,
    unban: AwaitingRoleView,
    role: Option<Seq<char>>,
    id: u128,
    banned_at: Seq<char>,
)
    requires
        admin_role(role),
        ban.action is Ban,
        unban.action == (AdminActionView::Unban { target_id: ban.action->Ban_target_id }),
        !t.bans.dom().contains(hyphenated(id)),
    ensures
        ({
            let target = ban.action->Ban_target_id;
            let first = ban.outcome(role, id, banned_at)->change;
            let second = unban.outcome(role, id, banned_at)->change;
            &&& t.changed(first).is_banned(target)
            &&& t.changed(first).changed(second) == t.changed(second)
            &&& !t.changed(second).is_banned(target)
            &&& !t.is_banned(target) ==> t.changed(second) == t
        }),
{
    let target = ban.action->Ban_target_id;
    let first = ban.outcome(role, id, banned_at)->change;
    let second = unban.outcome(role, id, banned_at)->change;
    assert(t.changed(first).bans.dom().contains(hyphenated(id)));
    assert(t.changed(first).changed(second).bans =~= t.changed(second).bans);
    if !t.is_banned(target) {
        assert(t.changed(second).bans =~= t.bans);
    }
}

/// A user who has been promoted can do what is kept for administrators.
pub proof fn lemma_promotion(
    t: AccountTables,
    promotion: AwaitingRoleView,
    role: Option<Seq<char>>,
    next: AwaitingRoleView,
    id: u128,
    banned_at: Seq<char>,
)
    requires
        admin_role(role),
        promotion.action == (AdminActionView::Promote { target_id: next.admin_id }),
        t.role(next.admin_id) is Some,
    ensures
        ({
            let after = t.changed(promotion.outcome(role, id, banned_at)->change);
            next.outcome(after.role(next.admin_id), id, banned_at) is Run
        }),
{
}

} // verus!
