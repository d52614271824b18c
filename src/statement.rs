//! The statements that the repository sends to the store, and the store's replies.
use vstd::prelude::*;
use crate::post::{NewPost, Post, PostView};

verus! {

/// One statement against the `posts` table.
#[derive(Debug)]
pub enum Statement {
    /// Adds a row with the given title and body.
    InsertPost(NewPost),
    /// Reads the row with the given id.
    SelectPostById(i32),
    /// Reads the row with the highest id.
    SelectLatestPost,
    /// Sets `published` on the row with the given id.
    PublishPost(i32),
    /// Removes the row with the given id.
    DeletePost(i32),
}

/// Why the store refused a statement.
#[derive(Debug, PartialEq, Eq, Structural, Clone, Copy)]
pub enum StoreError {
    /// Every id that an `i32` can hold has been handed out.
    IdsExhausted,
    /// The store could not run the statement.
    Rejected,
}

/// What the store answers to one statement.
#[derive(Debug)]
pub enum Reply {
    /// A write ran and changed this many rows.
    Affected(usize),
    /// A read ran: the row it found, if any.
    Row(Option<Post>),
    /// The statement was refused.
    Failed(StoreError),
}

/// The view of a row that a read may find.
pub open spec fn row_view(row: Option<Post>) -> Option<PostView> {
    match row {
        Some(p) => Some(p@),
        None => None,
    }
}

/// The SQL text of each statement, with `?` where its parameters go.
pub open spec fn sql_text(s: Statement) -> Seq<char> {
    match s {
        Statement::InsertPost(_) => "INSERT INTO posts (title, body) VALUES (?, ?)"@,
        Statement::SelectPostById(_) => "SELECT id, title, body, published FROM posts WHERE id = ? LIMIT 1"@,
        Statement::SelectLatestPost => "SELECT id, title, body, published FROM posts ORDER BY id DESC LIMIT 1"@,
        Statement::PublishPost(_) => "UPDATE posts SET published = true WHERE id = ?"@,
        Statement::DeletePost(_) => "DELETE FROM posts WHERE id = ?"@,
    }
}

impl Statement {
    /// The SQL text of this statement.
    pub fn sql(&self) -> (r: &'static str)
        ensures
            r@ == sql_text(*self),
    {
        match self {
            Statement::InsertPost(_) => "INSERT INTO posts (title, body) VALUES (?, ?)",
            Statement::SelectPostById(_) => "SELECT id, title, body, published FROM posts WHERE id = ? LIMIT 1",
            Statement::SelectLatestPost => "SELECT id, title, body, published FROM posts ORDER BY id DESC LIMIT 1",
            Statement::PublishPost(_) => "UPDATE posts SET published = true WHERE id = ?",
            Statement::DeletePost(_) => "DELETE FROM posts WHERE id = ?",
        }
    }
}

} // verus!
