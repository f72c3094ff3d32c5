use vstd::prelude::*;
use crate::item::{CreateItem, ItemView, UpdateItem};
use crate::reply::{
    create_reply, create_reply_view, delete_reply, delete_reply_view, get_reply, get_reply_view,
    list_reply, list_reply_view, update_reply, update_reply_view, Reply,
};
use crate::table::{item_views, ItemTable};

verus! {

/// `GET /items`: every row, or an empty-listing message when there is none.
pub fn list_items(table: &ItemTable) -> (r: Reply)
    requires
        table.wf(),
    ensures
        exists|s: Seq<ItemView>| table@.is_listing(s) && r@ == list_reply_view(Ok(s)),
{
    let rows = table.select_all();
    let ghost s = item_views(rows@);
    let r = list_reply(Ok(rows));
    assert(table@.is_listing(s) && r@ == list_reply_view(Ok(s)));
    r
}

/// `GET /items/{id}`: the row with that id, or a 404.
pub fn get_item(table: &ItemTable, id: i32) -> (r: Reply)
    requires
        table.wf(),
    ensures
        r@ == get_reply_view(Ok(table@.lookup(id))),
{
    get_reply(Ok(table.select_by_id(id)))
}

/// `POST /items`: stores the payload under a fresh id and returns the new row.
pub fn create_item(table: &mut ItemTable, payload: CreateItem) -> (r: Reply)
    requires
        old(table).wf(),
    ensures
        final(table).wf(),
        final(table)@ == old(table)@.after_insert(payload),
        r@ == create_reply_view(old(table)@.insert_result(payload)),
{
    create_reply(table.insert(payload))
}

/// `PATCH /items/{id}/update`: replaces both fields of the row, or a 404.
pub fn update_item(table: &mut ItemTable, id: i32, payload: UpdateItem) -> (r: Reply)
    requires
        old(table).wf(),
    ensures
        final(table).wf(),
        final(table)@ == old(table)@.after_update(id, payload),
        r@ == update_reply_view(Ok(old(table)@.update_result(id, payload))),
{
    update_reply(Ok(table.update_by_id(id, payload)))
}

/// `DELETE /items/{id}/delete`: removes the row and returns it, or a 404.
pub fn delete_item(table: &mut ItemTable, id: i32) -> (r: Reply)
    requires
        old(table).wf(),
    ensures
        final(table).wf(),
        final(table)@ == old(table)@.after_delete(id),
        r@ == delete_reply_view(Ok(old(table)@.lookup(id))),
{
    delete_reply(Ok(table.delete_by_id(id)))
}

} // verus!
