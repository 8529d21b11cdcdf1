//! A service for users and servers that are numbered.

use vstd::prelude::*;
use crate::outside::argon2_hash;
use crate::outside::clock_text;
use crate::outside::is_clock_text;
use crate::outside::is_hash_of;
use crate::outside::is_salt;
use crate::outside::moment_of;
use crate::outside::random_salt;
use crate::outside::read_moment;
use crate::store::statement;
use crate::store::statement1;
use crate::store::statement2;
use crate::store::SqlValue;
use crate::store::SqlView;
use crate::store::Statement;
use crate::store::StatementView;
use crate::text::byte_length;

verus! {

/// The service.
#[derive(Debug, Clone, Copy)]
pub struct DataService;

/// A user, with the moment of creation as seconds since 1970 and nanoseconds.
#[derive(Debug)]
pub struct ServiceUser {
    pub id: i64,
    pub name: String,
    pub password: String,
    pub date_of_creation: (i64, u32),
    pub icon: String,
}

/// A user as the table holds it.
#[derive(Debug)]
pub struct UserRow {
    pub id: i64,
    pub name: String,
    pub password: String,
    pub date_of_creation: String,
    pub icon: String,
}

/// The error of a user whose date of creation is none.
#[derive(Debug, Clone, Copy, PartialEq, Eq, Structural)]
pub struct UnreadableDate;

/// The statement that stores a user.
pub open spec fn user_insertion(
    name: Seq<char>,
    hash: Seq<char>,
    date: Seq<char>,
    icon: Seq<char>,
) -> StatementView {
    StatementView {
        sql: "INSERT INTO users (name, password, date_of_creation, icon) VALUES (?, ?, ?, ?)"@,
        values: seq![
            SqlView::Text(name),
            SqlView::Text(hash),
            SqlView::Text(date),
            SqlView::Text(icon),
        ],
    }
}

/// A statement that names one number.
pub open spec fn numbered(sql: Seq<char>, id: i64) -> StatementView {
    StatementView { sql, values: seq![SqlView::Integer(id)] }
}

/// A user whose row is read, with the moment that was read in its date, if one was.
pub fn user_with(row: UserRow, moment: Option<(i64, u32)>) -> (r: Result<
    ServiceUser,
    UnreadableDate,
>)
    ensures
        match moment {
            Some(m) => r matches Ok(user) && user.id == row.id && user.name@ == row.name@
                && user.password@ == row.password@ && user.icon@ == row.icon@
                && user.date_of_creation == m,
            None => r == Err::<ServiceUser, UnreadableDate>(UnreadableDate),
        },
{
    match moment {
        Some(m) => Ok(
            ServiceUser {
                id: row.id,
                name: row.name,
                password: row.password,
                date_of_creation: m,
                icon: row.icon,
            },
        ),
        None => Err(UnreadableDate),
    }
}

impl DataService {
    /// The statement that stores a user with a hash and a date.
    pub fn insert_user(&self, name: String, hash: String, date: String, icon: String) -> (r:
        Statement)
        ensures
            r.deep_view() == user_insertion(name@, hash@, date@, icon@),
    {
        let values: Vec<SqlValue> = vec![
            SqlValue::Text(name),
            SqlValue::Text(hash),
            SqlValue::Text(date),
            SqlValue::Text(icon),
        ];
        assert(values.deep_view() =~= user_insertion(name@, hash@, date@, icon@).values);
        statement(
            "INSERT INTO users (name, password, date_of_creation, icon) VALUES (?, ?, ?, ?)",
            values,
        )
    }

    /// The statement that stores a new user, with a hash of the password under a new salt and the
    /// present date.
    pub fn add_user(&self, name: String, password: String, icon: String) -> (r: Statement)
        requires
            byte_length(password@) <= 0xFFFF_FFFF,
        ensures
            exists|salt: Seq<char>, hash: Seq<char>, date: Seq<char>|
                is_salt(salt) && #[trigger] is_hash_of(hash, password@, salt) && is_clock_text(date)
                    && r.deep_view() == #[trigger] user_insertion(name@, hash, date, icon@),
    {
        let salt = random_salt();
        let hash = argon2_hash(password.as_str(), salt.as_str()).unwrap();
        self.insert_user(name, hash, clock_text(), icon)
    }

    /// The statement that renames a user.
    pub fn change_user_name(&self, user_id: i64, new_name: String) -> (r: Statement)
        ensures
            r.deep_view() == (StatementView {
                sql: "UPDATE users SET name = ? WHERE id = ?"@,
                values: seq![SqlView::Text(new_name@), SqlView::Integer(user_id)],
            }),
    {
        statement2(
            "UPDATE users SET name = ? WHERE id = ?",
            SqlValue::Text(new_name),
            SqlValue::Integer(user_id),
        )
    }

    /// The query that gives a row exactly if there is such a user.
    pub fn user_exists(&self, user_id: i64) -> (r: Statement)
        ensures
            r.deep_view() == numbered("SELECT id FROM users WHERE id = ?"@, user_id),
    {
        statement1("SELECT id FROM users WHERE id = ?", SqlValue::Integer(user_id))
    }

    /// The query that gives a row exactly if there is such a server.
    pub fn server_exists(&self, server_id: i64) -> (r: Statement)
        ensures
            r.deep_view() == numbered("SELECT id FROM servers WHERE id = ?"@, server_id),
    {
        statement1("SELECT id FROM servers WHERE id = ?", SqlValue::Integer(server_id))
    }

    /// The look-up of a user.
    pub fn get_user(&self, user_id: i64) -> (r: Statement)
        ensures
            r.deep_view() == numbered(
                "SELECT id, name, password, date_of_creation, icon FROM users WHERE id = ?"@,
                user_id,
            ),
    {
        statement1(
            "SELECT id, name, password, date_of_creation, icon FROM users WHERE id = ?",
            SqlValue::Integer(user_id),
        )
    }

    /// Reads the row that the look-up of a user gave.
    pub fn read_user(&self, row: UserRow) -> (r: Result<ServiceUser, UnreadableDate>)
        ensures
            match moment_of(row.date_of_creation@) {
                Some(m) => r matches Ok(user) && user.id == row.id && user.name@ == row.name@
                    && user.password@ == row.password@ && user.icon@ == row.icon@
                    && user.date_of_creation == m,
                None => r == Err::<ServiceUser, UnreadableDate>(UnreadableDate),
            },
    {
        let moment: Option<(i64, u32)> = match read_moment(row.date_of_creation.as_str()) {
            Ok(m) => Some(m),
            Err(_) => None,
        };
        user_with(row, moment)
    }

    /// The statement that removes a user.
    pub fn remove_user(&self, user_id: i64) -> (r: Statement)
        ensures
            r.deep_view() == numbered("DELETE FROM users WHERE id = ?"@, user_id),
    {
        statement1("DELETE FROM users WHERE id = ?", SqlValue::Integer(user_id))
    }
}

} // verus!
