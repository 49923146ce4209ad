//! What holds of the gateway's operations taken together, stated over the
//! table that their contracts speak of.

use crate::book::{line_of, Book, BookView, Entry};
use crate::store::{
    after_add, after_remove, after_update, is_assigned_id, is_listing, shows_books, views,
};
use vstd::prelude::*;

verus! {

/// A listing has exactly as many books as the table has rows, and a table
/// that can be listed is finite.
pub proof fn law_listing_counts_rows(rows: Map<int, Entry>, books: Seq<BookView>)
    requires
        is_listing(rows, books),
    ensures
        rows.dom().finite(),
        rows.dom().len() == books.len(),
{
    let ids = Seq::new(books.len(), |i: int| books[i].id);
    assert(ids.no_duplicates()) by {
        assert forall|i: int, j: int| 0 <= i < ids.len() && 0 <= j < ids.len() && i != j implies ids[i]
            != ids[j] by {
            if i < j {
                assert(books[i].id != books[j].id);
            } else {
                assert(books[j].id != books[i].id);
            }
        }
    }
    assert(ids.to_set() =~= rows.dom()) by {
        assert forall|id: int| ids.to_set().contains(id) <==> rows.dom().contains(id) by {
            if ids.to_set().contains(id) {
                let i = choose|i: int| 0 <= i < ids.len() && ids[i] == id;
                assert(rows.contains_key(books[i].id));
            }
            if rows.contains_key(id) {
                let i = choose|i: int| 0 <= i < books.len() && #[trigger] books[i].id == id;
                assert(ids[i] == id);
            }
        }
    }
    ids.unique_seq_to_set();
    vstd::seq_lib::seq_to_set_is_finite(ids);
}

/// A record added to a table without rows is then its only row, with the
/// fields given.
pub proof fn law_add_leaves_one_row(id: int, entry: Entry)
    ensures
        after_add(Map::<int, Entry>::empty(), id, entry).dom() == set![id],
        after_add(Map::<int, Entry>::empty(), id, entry).dom().len() == 1,
        after_add(Map::<int, Entry>::empty(), id, entry)[id] == entry,
{
    assert(after_add(Map::<int, Entry>::empty(), id, entry).dom() =~= set![id]);
}

/// A record added under the id that the store assigns joins the rows that
/// were there: each of them stays as it was under its own id, and the new id
/// is none of theirs, so no two rows come to share one.
pub proof fn law_add_keeps_other_rows(rows: Map<int, Entry>, id: int, entry: Entry)
    requires
        is_assigned_id(rows, id),
    ensures
        !rows.contains_key(id),
        after_add(rows, id, entry)[id] == entry,
        forall|other: int|
            after_add(rows, id, entry).contains_key(other) <==> other == id || rows.contains_key(
                other,
            ),
        forall|other: int|
            rows.contains_key(other) ==> after_add(rows, id, entry)[other] == rows[other],
{
}

/// An edit of an existing id leaves exactly the four new fields under it:
/// nothing of the old entry stays, no row is added or lost, and every other
/// row is as it was.
pub proof fn law_edit_replaces_row(rows: Map<int, Entry>, id: int, entry: Entry)
    requires
        rows.contains_key(id),
    ensures
        after_update(rows, id, entry).dom() == rows.dom(),
        after_update(rows, id, entry)[id] == entry,
        forall|other: int|
            other != id && rows.contains_key(other) ==> after_update(rows, id, entry)[other]
                == rows[other],
{
    assert(after_update(rows, id, entry).dom() =~= rows.dom());
}

/// A removal leaves no row under the id, and every other row as it was.
pub proof fn law_remove_drops_row(rows: Map<int, Entry>, id: int)
    ensures
        !after_remove(rows, id).contains_key(id),
        forall|other: int|
            other != id ==> (after_remove(rows, id).contains_key(other) <==> rows.contains_key(
                other,
            )),
        forall|other: int|
            other != id && rows.contains_key(other) ==> after_remove(rows, id)[other]
                == rows[other],
{
}

/// Listing a table without rows gives no book.
pub proof fn law_empty_table_lists_nothing(books: Seq<BookView>)
    requires
        is_listing(Map::<int, Entry>::empty(), books),
    ensures
        books == Seq::<BookView>::empty(),
{
    if books.len() > 0 {
        assert(Map::<int, Entry>::empty().contains_key(books[0].id));
    }
    assert(books =~= Seq::<BookView>::empty());
}

/// After a record is added under a free id, a listing has one book more than
/// a listing had before, and the new record is in it with the fields given.
pub proof fn law_add_extends_listing(
    rows: Map<int, Entry>,
    id: int,
    entry: Entry,
    before: Seq<BookView>,
    after: Seq<BookView>,
)
    requires
        !rows.contains_key(id),
        is_listing(rows, before),
        is_listing(after_add(rows, id, entry), after),
    ensures
        after.len() == before.len() + 1,
        exists|i: int| 0 <= i < after.len() && after[i] == (BookView { id, entry }),
{
    law_listing_counts_rows(rows, before);
    law_listing_counts_rows(after_add(rows, id, entry), after);
    assert(after_add(rows, id, entry).dom() =~= rows.dom().insert(id));
    assert(after_add(rows, id, entry).contains_key(id));
    let i = choose|i: int| 0 <= i < after.len() && #[trigger] after[i].id == id;
    assert(after[i] == (BookView { id, entry }));
}

/// Showing a table without rows gives no book and no line.
pub proof fn law_empty_table_shows_nothing(books: Seq<Book>, lines: Seq<String>)
    requires
        is_listing(Map::<int, Entry>::empty(), views(books)),
        shows_books(lines, books),
    ensures
        books.len() == 0,
        lines.len() == 0,
{
    law_empty_table_lists_nothing(views(books));
    assert(views(books).len() == books.len());
}

/// Showing the table after one record was added to a table without rows
/// gives that record alone, and the one line that shows it.
pub proof fn law_add_then_show(id: int, entry: Entry, books: Seq<Book>, lines: Seq<String>)
    requires
        is_listing(after_add(Map::<int, Entry>::empty(), id, entry), views(books)),
        shows_books(lines, books),
    ensures
        books.len() == 1,
        books[0]@ == (BookView { id, entry }),
        lines.len() == 1,
        lines[0]@ == line_of(BookView { id, entry }),
{
    law_add_then_list(id, entry, views(books));
    assert(views(books).len() == books.len());
    assert(views(books)[0] == books[0]@);
}

/// Adding one record to a table without rows and then listing gives exactly
/// that record, under the id that the store assigned.
pub proof fn law_add_then_list(id: int, entry: Entry, books: Seq<BookView>)
    requires
        is_listing(after_add(Map::<int, Entry>::empty(), id, entry), books),
    ensures
        books == seq![BookView { id, entry }],
{
    let none = Seq::<BookView>::empty();
    assert(is_listing(Map::<int, Entry>::empty(), none));
    law_add_extends_listing(Map::<int, Entry>::empty(), id, entry, none, books);
    assert(books =~= seq![BookView { id, entry }]);
}

/// The store numbers its records from 1: the record added to a table without
/// rows gets the id 1, and the one added after it gets 2.
pub proof fn law_ids_count_from_one(first_id: int, first: Entry, second_id: int)
    requires
        is_assigned_id(Map::<int, Entry>::empty(), first_id),
        is_assigned_id(after_add(Map::<int, Entry>::empty(), first_id, first), second_id),
    ensures
        first_id == 1,
        second_id == 2,
{
    let one = after_add(Map::<int, Entry>::empty(), first_id, first);
    assert(one.contains_key(first_id));
    assert(!one.contains_key(i64::MAX as int));
}

/// Adding two records to a table without rows and then listing gives
/// exactly those two, in one order or the other.
pub proof fn law_add_two_then_list(
    first_id: int,
    first: Entry,
    second_id: int,
    second: Entry,
    books: Seq<BookView>,
)
    requires
        first_id != second_id,
        is_listing(
            after_add(after_add(Map::<int, Entry>::empty(), first_id, first), second_id, second),
            books,
        ),
    ensures
        books == seq![
            BookView { id: first_id, entry: first },
            BookView { id: second_id, entry: second },
        ] || books == seq![
            BookView { id: second_id, entry: second },
            BookView { id: first_id, entry: first },
        ],
{
    let one = after_add(Map::<int, Entry>::empty(), first_id, first);
    let two = after_add(one, second_id, second);
    let shown = seq![BookView { id: first_id, entry: first }];
    assert(is_listing(one, shown)) by {
        assert(shown[0].id == first_id);
        assert(one.contains_key(first_id) && one[first_id] == first);
    }
    law_add_extends_listing(one, second_id, second, shown, books);
    assert(books.len() == 2);
    assert(two.contains_key(first_id));
    let i = choose|i: int| 0 <= i < books.len() && #[trigger] books[i].id == first_id;
    assert(two.contains_key(second_id));
    let j = choose|j: int| 0 <= j < books.len() && #[trigger] books[j].id == second_id;
    assert(books[i] == (BookView { id: first_id, entry: first }));
    assert(books[j] == (BookView { id: second_id, entry: second }));
    if i == 0 {
        assert(books =~= seq![books[i], books[j]]);
    } else {
        assert(books =~= seq![books[j], books[i]]);
    }
}

/// After the record with an existing id is edited, a listing shows the id
/// once, with the new fields and none of the old.
pub proof fn law_edit_replaces_fields(
    rows: Map<int, Entry>,
    id: int,
    entry: Entry,
    books: Seq<BookView>,
)
    requires
        rows.contains_key(id),
        is_listing(after_update(rows, id, entry), books),
    ensures
        exists|i: int| 0 <= i < books.len() && books[i] == (BookView { id, entry }),
        forall|i: int| 0 <= i < books.len() && (#[trigger] books[i]).id == id ==> books[i].entry == entry,
{
    let updated = after_update(rows, id, entry);
    assert(updated.contains_key(id));
    let i = choose|i: int| 0 <= i < books.len() && #[trigger] books[i].id == id;
    assert(books[i] == (BookView { id, entry }));
    assert forall|k: int| 0 <= k < books.len() && (#[trigger] books[k]).id == id implies books[k].entry
        == entry by {
        assert(updated[books[k].id] == books[k].entry);
    }
}

/// After the record with a given id is removed, a listing shows no book with
/// that id.
pub proof fn law_remove_forgets_id(rows: Map<int, Entry>, id: int, books: Seq<BookView>)
    requires
        is_listing(after_remove(rows, id), books),
    ensures
        forall|i: int| 0 <= i < books.len() ==> (#[trigger] books[i]).id != id,
{
    assert forall|i: int| 0 <= i < books.len() implies (#[trigger] books[i]).id != id by {
        assert(after_remove(rows, id).contains_key(books[i].id));
    }
}

/// Editing or removing under an id that no row has leaves the table as it
/// was.
pub proof fn law_missing_id_changes_nothing(rows: Map<int, Entry>, id: int, entry: Entry)
    requires
        !rows.contains_key(id),
    ensures
        after_update(rows, id, entry) == rows,
        after_remove(rows, id) == rows,
{
    assert(after_remove(rows, id) =~= rows);
}

} // verus!
