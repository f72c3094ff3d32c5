use vstd::prelude::*;
use crate::item::{optional_text, CreateItem, ItemView, UpdateItem};
use crate::reply::{
    create_reply_view, delete_reply_view, error_reply, get_reply_view, list_reply_view,
    update_reply_view, BodyView, ReplyView, ITEM_NOT_FOUND, NO_ITEMS_FOUND, RECORD_NOT_FOUND,
    STATUS_CREATED, STATUS_NOT_FOUND, STATUS_OK,
};
use crate::table::TableView;

verus! {

/// A create while ids remain answers 201 with the payload's own fields under
/// an id that is positive, above every id assigned before, and so held by no
/// row; that id becomes the last one assigned.
pub proof fn law_create_returns_payload_with_fresh_id(t: TableView, x: CreateItem)
    requires
        t.wf(),
        t.last_id < i32::MAX,
    ensures
        t.insert_result(x) matches Ok(it) && {
            &&& it.name == x.name@
            &&& it.description == optional_text(x.description)
            &&& it.id >= 1
            &&& it.id > t.last_id
            &&& !t.rows.contains_key(it.id)
            &&& t.after_insert(x).last_id == it.id
            &&& create_reply_view(t.insert_result(x)) == (ReplyView {
                status: STATUS_CREATED,
                body: BodyView::One(it),
            })
        },
        t.after_insert(x).wf(),
{
}

/// No statement lowers the last id assigned, so an id handed out by a create
/// is never handed out again.
pub proof fn law_assigned_ids_never_decrease(
    t: TableView,
    x: CreateItem,
    id: i32,
    y: UpdateItem,
)
    ensures
        t.after_insert(x).last_id >= t.last_id,
        t.after_update(id, y).last_id == t.last_id,
        t.after_delete(id).last_id == t.last_id,
{
}

/// A get of an id that no row holds answers 404 with "Item not found".
pub proof fn law_get_missing_is_not_found(t: TableView, id: i32)
    requires
        !t.rows.contains_key(id),
    ensures
        get_reply_view(Ok(t.lookup(id))) == error_reply(STATUS_NOT_FOUND, ITEM_NOT_FOUND),
{
}

/// An update of an id that no row holds answers 404 and leaves the table as it was.
pub proof fn law_update_missing_is_not_found(t: TableView, id: i32, y: UpdateItem)
    requires
        !t.rows.contains_key(id),
    ensures
        update_reply_view(Ok(t.update_result(id, y))) == error_reply(
            STATUS_NOT_FOUND,
            RECORD_NOT_FOUND,
        ),
        t.after_update(id, y) == t,
{
}

/// A delete of an id that no row holds answers 404 and leaves the table as it was.
pub proof fn law_delete_missing_is_not_found(t: TableView, id: i32)
    requires
        !t.rows.contains_key(id),
    ensures
        delete_reply_view(Ok(t.lookup(id))) == error_reply(STATUS_NOT_FOUND, RECORD_NOT_FOUND),
        t.after_delete(id) == t,
{
}

/// A get of the id that a create returned answers 200 with exactly the created item.
pub proof fn law_create_then_get(t: TableView, x: CreateItem)
    requires
        t.wf(),
        t.last_id < i32::MAX,
    ensures
        t.insert_result(x) matches Ok(it) && get_reply_view(Ok(t.after_insert(x).lookup(it.id)))
            == (ReplyView { status: STATUS_OK, body: BodyView::One(it) }),
{
}

/// A get after an update of a present id answers 200 with the payload's fields:
/// the update replaces both fields, whatever they held.
pub proof fn law_update_then_get(t: TableView, id: i32, y: UpdateItem)
    requires
        t.rows.contains_key(id),
    ensures
        get_reply_view(Ok(t.after_update(id, y).lookup(id))) == (ReplyView {
            status: STATUS_OK,
            body: BodyView::One(y.with_id(id)),
        }),
        y.with_id(id).name == y.name@,
        y.with_id(id).description == optional_text(y.description),
{
}

/// A get after a delete of an id answers 404.
pub proof fn law_delete_then_get(t: TableView, id: i32)
    ensures
        get_reply_view(Ok(t.after_delete(id).lookup(id))) == error_reply(
            STATUS_NOT_FOUND,
            ITEM_NOT_FOUND,
        ),
{
}

/// A list answers 200: with the empty-listing message when the table has no
/// row, and otherwise with an array as long as the table.
pub proof fn law_list_counts_rows(t: TableView, s: Seq<ItemView>)
    requires
        t.is_listing(s),
    ensures
        t.rows.len() == 0 ==> list_reply_view(Ok(s)) == (ReplyView {
            status: STATUS_OK,
            body: BodyView::Empty(NO_ITEMS_FOUND@),
        }),
        t.rows.len() > 0 ==> list_reply_view(Ok(s)) == (ReplyView {
            status: STATUS_OK,
            body: BodyView::Many(s),
        }) && s.len() == t.rows.len(),
{
}

} // verus!
