//! The four operations on posts. Each sends the store one statement and reads
//! its reply; `create_post` sends a second one to read back the new row.
use vstd::prelude::*;
use crate::post::{NewPost, Post};
use crate::statement::{Reply, Statement, StoreError};
use crate::table::{
    can_insert, delete_spec, find_spec, insert_spec, inserted_row, publish_spec, PostTable,
};

verus! {

/// Why an operation on posts gave no post.
#[derive(Debug, PartialEq, Eq, Structural, Clone, Copy)]
pub enum RepoError {
    /// No row has the id that was asked for.
    NotFound,
    /// The store refused the statement.
    Store(StoreError),
    /// The store answered a read with a count, or a write with rows.
    UnexpectedReply,
}

/// The post that answers a read: the row that came back, `NotFound` when
/// none did, and the store's error when it refused.
pub fn post_from_reply(reply: Reply) -> (r: Result<Post, RepoError>)
    ensures
        match reply {
            Reply::Row(Some(p)) => r matches Ok(q) && q == p,
            Reply::Row(None) => r == Err::<Post, RepoError>(RepoError::NotFound),
            Reply::Failed(e) => r == Err::<Post, RepoError>(RepoError::Store(e)),
            Reply::Affected(_) => r == Err::<Post, RepoError>(RepoError::UnexpectedReply),
        },
{
    match reply {
        Reply::Row(Some(p)) => Ok(p),
        Reply::Row(None) => Err(RepoError::NotFound),
        Reply::Failed(e) => Err(RepoError::Store(e)),
        Reply::Affected(_) => Err(RepoError::UnexpectedReply),
    }
}

/// Whether a write changed a row. A refusal, or a reply that is not a count,
/// counts as no change: a write reports nothing else to its caller.
pub fn write_changed(reply: &Reply) -> (r: bool)
    ensures
        r == (reply matches Reply::Affected(n) && n > 0),
{
    match reply {
        Reply::Affected(n) => *n > 0,
        _ => false,
    }
}

/// Inserts a post with the given title and body, text taken verbatim and
/// `published` false, then reads back the row with the highest id and
/// returns it. With no other writer that row is the one just inserted.
pub fn create_post(conn: &mut PostTable, title: &str, body: &str) -> (r: Result<Post, RepoError>)
    requires
        old(conn).well_formed(),
    ensures
        final(conn).well_formed(),
        r.is_ok() <==> can_insert(old(conn)@),
        r matches Ok(p) ==> p@ == inserted_row(old(conn)@, title@, body@)
            && final(conn)@ == insert_spec(old(conn)@, title@, body@),
        r matches Err(e) ==> e == RepoError::Store(StoreError::IdsExhausted)
            && final(conn)@ == old(conn)@,
{
    match conn.execute(Statement::InsertPost(NewPost::new(title, body))) {
        Reply::Failed(e) => {
            return Err(RepoError::Store(e));
        },
        _ => {},
    }
    post_from_reply(conn.execute(Statement::SelectLatestPost))
}

/// The post with the given id, or `NotFound` when no row has it.
pub fn find_post(conn: &mut PostTable, id: i32) -> (r: Result<Post, RepoError>)
    requires
        old(conn).well_formed(),
    ensures
        final(conn).well_formed(),
        final(conn)@ == old(conn)@,
        r.is_ok() <==> find_spec(old(conn)@, id as int) is Some,
        r matches Ok(p) ==> find_spec(old(conn)@, id as int) == Some(p@),
        r matches Err(e) ==> e == RepoError::NotFound,
{
    post_from_reply(conn.execute(Statement::SelectPostById(id)))
}

/// Marks the post with the given id published. Tells whether a row changed;
/// an id that no row has changes nothing and is no error.
pub fn publish_post(conn: &mut PostTable, id: i32) -> (r: bool)
    requires
        old(conn).well_formed(),
    ensures
        final(conn).well_formed(),
        final(conn)@ == publish_spec(old(conn)@, id as int),
        r == find_spec(old(conn)@, id as int) is Some,
{
    let reply = conn.execute(Statement::PublishPost(id));
    write_changed(&reply)
}

/// Removes the post with the given id. Tells whether a row went; an id that
/// no row has changes nothing and is no error.
pub fn delete_post(conn: &mut PostTable, id: i32) -> (r: bool)
    requires
        old(conn).well_formed(),
    ensures
        final(conn).well_formed(),
        final(conn)@ == delete_spec(old(conn)@, id as int),
        r == find_spec(old(conn)@, id as int) is Some,
{
    let reply = conn.execute(Statement::DeletePost(id));
    write_changed(&reply)
}

} // verus!
