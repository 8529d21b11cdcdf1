//! Messages that are posted over HTTP.

use vstd::prelude::*;
use crate::auth::AuthUser;
use crate::outside::clock_seconds;
use crate::outside::lower_case;
use crate::outside::to_lower;
use crate::outside::LATEST_SECOND;
use crate::status::Status;
use crate::store::statement1;
use crate::store::text_value;
use crate::store::SqlView;
use crate::store::Statement;
use crate::store::StatementView;
use crate::text::byte_len;
use crate::text::byte_length;
use crate::text::contains;
use crate::text::holds_text;
use crate::text::trim;
use crate::text::trimmed;

verus! {

/// The most bytes that a message has.
pub const MAX_MESSAGE_BYTES: usize = 1000;

/// What a client posts.
#[derive(Debug)]
pub struct MessageInput {
    pub content: String,
}

/// A message that waits for its author's account.
#[derive(Debug)]
pub struct AwaitingAuthor {
    pub username: String,
    pub content: String,
}

/// A message that is published under a topic and sent to every client.
#[derive(Debug)]
pub struct ChatPost {
    pub topic: &'static str,
    pub user: String,
    pub content: String,
    pub timestamp: i64,
}

/// What a published message holds.
pub struct ChatPostView {
    pub topic: Seq<char>,
    pub user: Seq<char>,
    pub content: Seq<char>,
    pub timestamp: i64,
}

impl DeepView for ChatPost {
    type V = ChatPostView;

    open spec fn deep_view(&self) -> ChatPostView {
        ChatPostView {
            topic: self.topic@,
            user: self.user@,
            content: self.content@,
            timestamp: self.timestamp,
        }
    }
}

/// Whether a message without the white space around it can be posted.
pub open spec fn fits(content: Seq<char>) -> bool {
    0 < content.len() && byte_length(content) <= MAX_MESSAGE_BYTES
}

/// Takes a message from a user. White space around it is dropped; what is then empty or too long is
/// refused.
pub fn send_message(user: AuthUser, input: MessageInput) -> (r: Result<AwaitingAuthor, Status>)
    ensures
        if fits(trimmed(input.content@)) {
            r matches Ok(waiting) && waiting.username@ == user.0@ && waiting.content@ == trimmed(
                input.content@,
            )
        } else {
            r == Err::<AwaitingAuthor, Status>(Status::BadRequest)
        },
{
    let content = trim(input.content.as_str());
    if content.as_str().is_empty() || byte_len(content.as_str()) > MAX_MESSAGE_BYTES {
        return Err(Status::BadRequest);
    }
    Ok(AwaitingAuthor { username: user.0, content })
}

/// The look-up of an author.
pub open spec fn author_query(username: Seq<char>) -> StatementView {
    StatementView {
        sql: "SELECT username FROM users WHERE username = ?"@,
        values: seq![SqlView::Text(username)],
    }
}

/// Whether a text in lower case holds a word that is not wanted.
pub open spec fn profane(text: Seq<char>) -> bool {
    holds_text(text, "badword"@) || holds_text(text, "swear"@)
}

/// Whether a text in lower case holds a word that is not wanted.
pub fn is_profane(text: &str) -> (r: bool)
    ensures
        r == profane(text@),
{
    contains(text, "badword") || contains(text, "swear")
}

/// Why a message is refused once it is known whether its author has an account, if it is. The
/// failure of the look-up is the server's fault.
pub open spec fn refusal(found: Result<bool, ()>, text: Seq<char>) -> Option<Status> {
    match found {
        Err(_) => Some(Status::InternalServerError),
        Ok(false) => Some(Status::Unauthorized),
        Ok(true) => if profane(text) {
            Some(Status::BadRequest)
        } else {
            None
        },
    }
}

impl AwaitingAuthor {
    /// The look-up of the author.
    pub fn query(&self) -> (r: Statement)
        ensures
            r.deep_view() == author_query(self.username@),
    {
        statement1(
            "SELECT username FROM users WHERE username = ?",
            text_value(self.username.as_str()),
        )
    }

    /// The message as it is published at second `now`.
    pub fn post_at(self, now: i64) -> (r: ChatPost)
        ensures
            r.deep_view() == published(self, now),
    {
        ChatPost { topic: "chat", user: self.username, content: self.content, timestamp: now }
    }

    /// Goes on once it is known whether the author has an account.
    pub fn resume(self, found: Result<bool, ()>) -> (r: Result<ChatPost, Status>)
        ensures
            match refusal(found, lower_case(self.content@)) {
                Some(status) => r == Err::<ChatPost, Status>(status),
                None => exists|now: i64|
                    0 <= now <= LATEST_SECOND && r is Ok && r->Ok_0.deep_view()
                        == #[trigger] published(self, now),
            },
    {
        match found {
            Err(_) => return Err(Status::InternalServerError),
            Ok(false) => return Err(Status::Unauthorized),
            Ok(true) => {},
        }
        if is_profane(to_lower(self.content.as_str()).as_str()) {
            return Err(Status::BadRequest);
        }
        let now: i64 = clock_seconds();
        Ok(self.post_at(now))
    }
}

/// The message as it is published at second `now`.
pub open spec fn published(waiting: AwaitingAuthor, now: i64) -> ChatPostView {
    ChatPostView {
        topic: "chat"@,
        user: waiting.username@,
        content: waiting.content@,
        timestamp: now,
    }
}

} // verus!
