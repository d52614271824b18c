//! The `Post` row entity and its creation payload.
use vstd::prelude::*;
use vstd::string::StringExecFns;

verus! {

/// What a `Post` is, mathematically: its id and the characters of its text.
pub ghost struct PostView {
    pub id: int,
    pub title: Seq<char>,
    pub body: Seq<char>,
    pub published: bool,
}

/// One row of the `posts` table.
#[derive(Debug)]
pub struct Post {
    pub id: i32,
    pub title: String,
    pub body: String,
    pub published: bool,
}

impl View for Post {
    type V = PostView;

    open spec fn view(&self) -> PostView {
        PostView { id: self.id as int, title: self.title@, body: self.body@, published: self.published }
    }
}

impl Post {
    /// A copy of this row, field for field.
    pub fn duplicate(&self) -> (r: Post)
        ensures
            r@ == self@,
    {
        Post {
            id: self.id,
            title: self.title.clone(),
            body: self.body.clone(),
            published: self.published,
        }
    }
}

/// The payload of an insert: the text of a post that has no id yet.
#[derive(Debug)]
pub struct NewPost {
    pub title: String,
    pub body: String,
}

impl NewPost {
    /// The payload for a post with the given title and body, taken verbatim.
    pub fn new(title: &str, body: &str) -> (r: NewPost)
        ensures
            r.title@ == title@,
            r.body@ == body@,
    {
        NewPost { title: String::from_str(title), body: String::from_str(body) }
    }
}

} // verus!
