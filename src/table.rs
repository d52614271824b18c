//! The `posts` table held in memory, with the model that the operations of
//! the repository are stated over.
use vstd::prelude::*;
use crate::post::{NewPost, Post, PostView};
use crate::statement::{row_view, Reply, Statement, StoreError};

verus! {

/// The table as a sequence of rows in ascending id order, and the id that the
/// next insert is given.
pub ghost struct TableView {
    pub rows: Seq<PostView>,
    pub next_id: int,
}

/// Ids ascend strictly, are positive and lie below the next id to hand out.
pub open spec fn rows_well_formed(rows: Seq<PostView>, next_id: int) -> bool {
    &&& 1 <= next_id <= i32::MAX
    &&& forall|i: int| 0 <= i < rows.len() ==> 1 <= #[trigger] rows[i].id < next_id
    &&& forall|i: int, j: int| 0 <= i < j < rows.len() ==> rows[i].id < rows[j].id
}

/// The row with the given id, searched from the highest id down.
pub open spec fn find_in(rows: Seq<PostView>, id: int) -> Option<PostView>
    decreases rows.len(),
{
    if rows.len() == 0 {
        None
    } else if rows.last().id == id {
        Some(rows.last())
    } else {
        find_in(rows.drop_last(), id)
    }
}

/// The rows with the one whose id is given marked published.
pub open spec fn publish_in(rows: Seq<PostView>, id: int) -> Seq<PostView>
    decreases rows.len(),
{
    if rows.len() == 0 {
        rows
    } else {
        let r = rows.last();
        publish_in(rows.drop_last(), id).push(
            if r.id == id { PostView { published: true, ..r } } else { r },
        )
    }
}

/// The rows without the one whose id is given.
pub open spec fn delete_in(rows: Seq<PostView>, id: int) -> Seq<PostView>
    decreases rows.len(),
{
    if rows.len() == 0 {
        rows
    } else if rows.last().id == id {
        delete_in(rows.drop_last(), id)
    } else {
        delete_in(rows.drop_last(), id).push(rows.last())
    }
}

/// The row that an insert of `title` and `body` adds to `t`.
pub open spec fn inserted_row(t: TableView, title: Seq<char>, body: Seq<char>) -> PostView {
    PostView { id: t.next_id, title, body, published: false }
}

/// The table after an insert of `title` and `body`.
pub open spec fn insert_spec(t: TableView, title: Seq<char>, body: Seq<char>) -> TableView {
    TableView { rows: t.rows.push(inserted_row(t, title, body)), next_id: t.next_id + 1 }
}

/// Whether an insert succeeds: an id is left to hand out.
pub open spec fn can_insert(t: TableView) -> bool {
    t.next_id < i32::MAX
}

/// The row with the given id, if any.
pub open spec fn find_spec(t: TableView, id: int) -> Option<PostView> {
    find_in(t.rows, id)
}

/// The row with the highest id, if any.
pub open spec fn latest_spec(t: TableView) -> Option<PostView> {
    if t.rows.len() == 0 { None } else { Some(t.rows.last()) }
}

/// The table after the row with the given id is marked published.
pub open spec fn publish_spec(t: TableView, id: int) -> TableView {
    TableView { rows: publish_in(t.rows, id), next_id: t.next_id }
}

/// The table after the row with the given id is removed.
pub open spec fn delete_spec(t: TableView, id: int) -> TableView {
    TableView { rows: delete_in(t.rows, id), next_id: t.next_id }
}

/// The views of a sequence of rows.
pub open spec fn views(s: Seq<Post>) -> Seq<PostView> {
    s.map_values(|p: Post| p@)
}

/// Marking a row published keeps the length and every id.
pub proof fn lemma_publish_in_keeps_ids(rows: Seq<PostView>, id: int)
    ensures
        publish_in(rows, id).len() == rows.len(),
        forall|i: int| 0 <= i < rows.len() ==> #[trigger] publish_in(rows, id)[i].id == rows[i].id,
    decreases rows.len(),
{
    if rows.len() > 0 {
        lemma_publish_in_keeps_ids(rows.drop_last(), id);
    }
}

/// Removing a row keeps the remaining ones in order, each one of the original rows.
pub proof fn lemma_delete_in_keeps_order(rows: Seq<PostView>, id: int, next_id: int)
    requires
        rows_well_formed(rows, next_id),
    ensures
        rows_well_formed(delete_in(rows, id), next_id),
        forall|i: int| 0 <= i < delete_in(rows, id).len() ==> #[trigger] rows.contains(delete_in(rows, id)[i]),
    decreases rows.len(),
{
    if rows.len() > 0 {
        let d = rows.drop_last();
        assert(rows_well_formed(d, next_id)) by {
            assert forall|i: int| 0 <= i < d.len() implies 1 <= #[trigger] d[i].id < next_id by {
                assert(d[i] == rows[i]);
            }
        }
        lemma_delete_in_keeps_order(d, id, next_id);
        let rest = delete_in(d, id);
        assert forall|i: int| 0 <= i < rest.len() implies #[trigger] rows.contains(rest[i]) by {
            assert(d.contains(rest[i]));
            let k = choose|k: int| 0 <= k < d.len() && d[k] == rest[i];
            assert(rows[k] == rest[i]);
        }
        assert forall|i: int| 0 <= i < rest.len() implies #[trigger] rest[i].id < rows.last().id by {
            assert(d.contains(rest[i]));
            let k = choose|k: int| 0 <= k < d.len() && d[k] == rest[i];
            assert(rows[k] == rest[i]);
        }
    }
}

/// The `posts` table in memory.
pub struct PostTable {
    rows: Vec<Post>,
    next_id: i32,
}

impl View for PostTable {
    type V = TableView;

    closed spec fn view(&self) -> TableView {
        TableView { rows: views(self.rows@), next_id: self.next_id as int }
    }
}

impl PostTable {
    /// The table's invariant: ids ascend, are positive, and lie below the next id.
    pub open spec fn well_formed(&self) -> bool {
        rows_well_formed(self@.rows, self@.next_id)
    }

    /// An empty table, whose first insert is given id 1.
    pub fn new() -> (r: PostTable)
        ensures
            r.well_formed(),
            r@.rows.len() == 0,
            r@.next_id == 1,
    {
        let r = PostTable { rows: Vec::new(), next_id: 1 };
        assert(views(r.rows@) =~= Seq::<PostView>::empty());
        r
    }

    /// An empty table whose first insert is given `first_id`, as a table whose
    /// auto-increment counter was set there.
    pub fn starting_at(first_id: i32) -> (r: PostTable)
        requires
            1 <= first_id,
        ensures
            r.well_formed(),
            r@.rows.len() == 0,
            r@.next_id == first_id,
    {
        let r = PostTable { rows: Vec::new(), next_id: first_id };
        assert(views(r.rows@) =~= Seq::<PostView>::empty());
        r
    }

    /// Adds a row with the next id, `published` false, and returns that id;
    /// fails, changing nothing, once every id has been handed out.
    pub fn insert(&mut self, new_post: NewPost) -> (r: Result<i32, StoreError>)
        requires
            old(self).well_formed(),
        ensures
            final(self).well_formed(),
            r.is_ok() <==> can_insert(old(self)@),
            r matches Ok(id) ==> id == old(self)@.next_id
                && final(self)@ == insert_spec(old(self)@, new_post.title@, new_post.body@),
            r matches Err(e) ==> e == StoreError::IdsExhausted && final(self)@ == old(self)@,
    {
        if self.next_id == i32::MAX {
            return Err(StoreError::IdsExhausted);
        }
        let id = self.next_id;
        let ghost before = self@;
        self.rows.push(Post { id, title: new_post.title, body: new_post.body, published: false });
        self.next_id = id + 1;
        assert(self@.rows =~= insert_spec(before, new_post.title@, new_post.body@).rows);
        Ok(id)
    }

    /// The row with the given id, if there is one.
    pub fn find(&self, id: i32) -> (r: Option<Post>)
        ensures
            row_view(r) == find_spec(self@, id as int),
    {
        let n = self.rows.len();
        let mut i: usize = n;
        assert(self@.rows.subrange(0, n as int) =~= self@.rows);
        while i > 0
            invariant
                i <= n == self.rows.len(),
                find_in(self@.rows, id as int) == find_in(self@.rows.subrange(0, i as int), id as int),
            decreases i,
        {
            let ghost pre = self@.rows.subrange(0, i as int);
            assert(pre.drop_last() =~= self@.rows.subrange(0, i - 1));
            if self.rows[i - 1].id == id {
                return Some(self.rows[i - 1].duplicate());
            }
            i = i - 1;
        }
        None
    }

    /// The row with the highest id, if the table holds any.
    pub fn latest(&self) -> (r: Option<Post>)
        requires
            self.well_formed(),
        ensures
            row_view(r) == latest_spec(self@),
    {
        let n = self.rows.len();
        if n == 0 {
            None
        } else {
            Some(self.rows[n - 1].duplicate())
        }
    }

    /// Marks the row with the given id published, and tells whether there was
    /// one; without such a row the table stays as it is.
    pub fn publish(&mut self, id: i32) -> (r: bool)
        requires
            old(self).well_formed(),
        ensures
            final(self).well_formed(),
            final(self)@ == publish_spec(old(self)@, id as int),
            r == find_spec(old(self)@, id as int) is Some,
    {
        let ghost start = self@.rows;
        let n = self.rows.len();
        let mut out: Vec<Post> = Vec::new();
        let mut found = false;
        let mut i: usize = 0;
        while i < n
            invariant
                n == self.rows.len(),
                i <= n,
                self@.rows == start,
                self.next_id == old(self).next_id,
                views(out@) == publish_in(start.subrange(0, i as int), id as int),
                found == find_in(start.subrange(0, i as int), id as int) is Some,
            decreases n - i,
        {
            let ghost pre = start.subrange(0, i as int + 1);
            assert(pre.drop_last() =~= start.subrange(0, i as int));
            let mut p = self.rows[i].duplicate();
            if p.id == id {
                p.published = true;
                found = true;
            }
            let ghost before = out@;
            out.push(p);
            assert(views(out@) =~= views(before).push(p@));
            i = i + 1;
        }
        assert(start.subrange(0, n as int) =~= start);
        self.rows = out;
        proof {
            lemma_publish_in_keeps_ids(start, id as int);
        }
        found
    }

    /// Removes the row with the given id, and tells whether there was one;
    /// without such a row the table stays as it is.
    pub fn delete(&mut self, id: i32) -> (r: bool)
        requires
            old(self).well_formed(),
        ensures
            final(self).well_formed(),
            final(self)@ == delete_spec(old(self)@, id as int),
            r == find_spec(old(self)@, id as int) is Some,
    {
        let ghost start = self@.rows;
        let n = self.rows.len();
        let mut out: Vec<Post> = Vec::new();
        let mut found = false;
        let mut i: usize = 0;
        while i < n
            invariant
                n == self.rows.len(),
                i <= n,
                self@.rows == start,
                self.next_id == old(self).next_id,
                views(out@) == delete_in(start.subrange(0, i as int), id as int),
                found == find_in(start.subrange(0, i as int), id as int) is Some,
            decreases n - i,
        {
            let ghost pre = start.subrange(0, i as int + 1);
            assert(pre.drop_last() =~= start.subrange(0, i as int));
            if self.rows[i].id == id {
                found = true;
            } else {
                let p = self.rows[i].duplicate();
                let ghost before = out@;
                out.push(p);
                assert(views(out@) =~= views(before).push(p@));
            }
            i = i + 1;
        }
        assert(start.subrange(0, n as int) =~= start);
        self.rows = out;
        proof {
            lemma_delete_in_keeps_order(start, id as int, self.next_id as int);
        }
        found
    }

    /// Runs one statement and answers as a relational store does: an insert
    /// or a write reports the rows it changed, a read the row it found.
    pub fn execute(&mut self, stmt: Statement) -> (r: Reply)
        requires
            old(self).well_formed(),
        ensures
            final(self).well_formed(),
            stmt matches Statement::InsertPost(np) ==> if can_insert(old(self)@) {
                &&& r matches Reply::Affected(n) && n == 1
                &&& final(self)@ == insert_spec(old(self)@, np.title@, np.body@)
            } else {
                &&& r matches Reply::Failed(e) && e == StoreError::IdsExhausted
                &&& final(self)@ == old(self)@
            },
            stmt matches Statement::SelectPostById(id) ==> {
                &&& r matches Reply::Row(row) && row_view(row) == find_spec(old(self)@, id as int)
                &&& final(self)@ == old(self)@
            },
            stmt matches Statement::SelectLatestPost ==> {
                &&& r matches Reply::Row(row) && row_view(row) == latest_spec(old(self)@)
                &&& final(self)@ == old(self)@
            },
            stmt matches Statement::PublishPost(id) ==> {
                &&& r matches Reply::Affected(n)
                    && n == (if find_spec(old(self)@, id as int) is Some { 1usize } else { 0usize })
                &&& final(self)@ == publish_spec(old(self)@, id as int)
            },
            stmt matches Statement::DeletePost(id) ==> {
                &&& r matches Reply::Affected(n)
                    && n == (if find_spec(old(self)@, id as int) is Some { 1usize } else { 0usize })
                &&& final(self)@ == delete_spec(old(self)@, id as int)
            },
    {
        match stmt {
            Statement::InsertPost(np) => match self.insert(np) {
                Ok(_) => Reply::Affected(1),
                Err(e) => Reply::Failed(e),
            },
            Statement::SelectPostById(id) => Reply::Row(self.find(id)),
            Statement::SelectLatestPost => Reply::Row(self.latest()),
            Statement::PublishPost(id) => Reply::Affected(if self.publish(id) { 1 } else { 0 }),
            Statement::DeletePost(id) => Reply::Affected(if self.delete(id) { 1 } else { 0 }),
        }
    }
}

} // verus!
