//! What holds across operations on the `posts` table, stated over the model
//! that the operations' contracts use.
use vstd::prelude::*;
use crate::post::PostView;
use crate::table::{
    can_insert, delete_in, delete_spec, find_in, find_spec, insert_spec, inserted_row,
    latest_spec, publish_in, publish_spec, rows_well_formed, TableView,
};

verus! {

/// A row marked published.
pub open spec fn marked(r: PostView) -> PostView {
    PostView { published: true, ..r }
}

/// A post that was created can be found by the id it was given, with the
/// title and body it was created with, and not published.
pub proof fn lemma_create_then_find(t: TableView, title: Seq<char>, body: Seq<char>)
    requires
        rows_well_formed(t.rows, t.next_id),
        can_insert(t),
    ensures
        find_spec(insert_spec(t, title, body), inserted_row(t, title, body).id) == Some(
            PostView { id: t.next_id, title, body, published: false },
        ),
{
}

/// With no other writer, the row with the highest id after an insert is the
/// row that the insert added, and its id exceeds every id before it.
pub proof fn lemma_latest_is_inserted(t: TableView, title: Seq<char>, body: Seq<char>)
    requires
        rows_well_formed(t.rows, t.next_id),
        can_insert(t),
    ensures
        latest_spec(insert_spec(t, title, body)) == Some(inserted_row(t, title, body)),
        forall|i: int|
            0 <= i < t.rows.len() ==> #[trigger] t.rows[i].id < inserted_row(t, title, body).id,
        rows_well_formed(insert_spec(t, title, body).rows, insert_spec(t, title, body).next_id),
{
    let u = insert_spec(t, title, body);
    assert forall|i: int| 0 <= i < u.rows.len() implies 1 <= #[trigger] u.rows[i].id < u.next_id by {
        if i < t.rows.len() {
            assert(u.rows[i] == t.rows[i]);
        }
    }
    assert forall|i: int, j: int| 0 <= i < j < u.rows.len() implies u.rows[i].id < u.rows[j].id by {
        assert(u.rows[i] == t.rows[i]);
        if j < t.rows.len() {
            assert(u.rows[j] == t.rows[j]);
        }
    }
}

proof fn lemma_find_after_publish(rows: Seq<PostView>, id: int)
    ensures
        find_in(publish_in(rows, id), id) == match find_in(rows, id) {
            Some(r) => Some(marked(r)),
            None => None,
        },
    decreases rows.len(),
{
    if rows.len() > 0 {
        let p = publish_in(rows, id);
        assert(p.drop_last() =~= publish_in(rows.drop_last(), id));
        lemma_find_after_publish(rows.drop_last(), id);
    }
}

proof fn lemma_publish_in_idempotent(rows: Seq<PostView>, id: int)
    ensures
        publish_in(publish_in(rows, id), id) == publish_in(rows, id),
    decreases rows.len(),
{
    if rows.len() > 0 {
        let p = publish_in(rows, id);
        assert(p.drop_last() =~= publish_in(rows.drop_last(), id));
        lemma_publish_in_idempotent(rows.drop_last(), id);
        assert(publish_in(p, id) =~= p);
    }
}

/// Publishing a post that exists marks it published; publishing it again
/// changes nothing.
pub proof fn lemma_publish_sets_and_repeats(t: TableView, id: int)
    requires
        find_spec(t, id) is Some,
    ensures
        find_spec(publish_spec(t, id), id) == Some(marked(find_spec(t, id)->Some_0)),
        find_spec(publish_spec(t, id), id)->Some_0.published,
        publish_spec(publish_spec(t, id), id) == publish_spec(t, id),
{
    lemma_find_after_publish(t.rows, id);
    lemma_publish_in_idempotent(t.rows, id);
}

proof fn lemma_find_after_delete(rows: Seq<PostView>, id: int)
    ensures
        find_in(delete_in(rows, id), id) is None,
    decreases rows.len(),
{
    if rows.len() > 0 {
        lemma_find_after_delete(rows.drop_last(), id);
        let d = delete_in(rows.drop_last(), id);
        assert(d.push(rows.last()).drop_last() =~= d);
    }
}

/// After a post is deleted, no row has its id.
pub proof fn lemma_delete_removes(t: TableView, id: int)
    ensures
        find_spec(delete_spec(t, id), id) is None,
{
    lemma_find_after_delete(t.rows, id);
}

proof fn lemma_missing_id_rows(rows: Seq<PostView>, id: int)
    requires
        find_in(rows, id) is None,
    ensures
        publish_in(rows, id) == rows,
        delete_in(rows, id) == rows,
    decreases rows.len(),
{
    if rows.len() > 0 {
        lemma_missing_id_rows(rows.drop_last(), id);
        assert(rows.drop_last().push(rows.last()) =~= rows);
    }
}

/// Publishing or deleting an id that no row has leaves the table as it was.
pub proof fn lemma_missing_id_changes_nothing(t: TableView, id: int)
    requires
        find_spec(t, id) is None,
    ensures
        publish_spec(t, id) == t,
        delete_spec(t, id) == t,
{
    lemma_missing_id_rows(t.rows, id);
}

} // verus!
