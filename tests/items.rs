use item_service::reply::{
    CREATE_FAILED, DELETE_FAILED, FETCH_FAILED, ITEM_NOT_FOUND, NO_ITEMS_FOUND, QUERY_FAILED,
    RECORD_NOT_FOUND, UPDATE_FAILED,
};
use item_service::{
    create_item, create_reply, delete_item, delete_reply, get_item, get_reply, list_items,
    list_reply, update_item, update_reply, Body, CreateItem, Item, ItemTable, Reply, StoreError,
    UpdateItem,
};

fn create(name: &str, description: Option<&str>) -> CreateItem {
    CreateItem { name: name.to_string(), description: description.map(|d| d.to_string()) }
}

fn update(name: &str, description: Option<&str>) -> UpdateItem {
    UpdateItem { name: name.to_string(), description: description.map(|d| d.to_string()) }
}

fn item(id: i32, name: &str, description: Option<&str>) -> Item {
    Item { id, name: name.to_string(), description: description.map(|d| d.to_string()) }
}

fn one(status: u16, it: Item) -> Reply {
    Reply { status, body: Body::One(it) }
}

fn error(status: u16, message: &'static str) -> Reply {
    Reply { status, body: Body::Error(message) }
}

#[test]
fn widget_lifecycle() {
    let mut table = ItemTable::new();
    let created = create_item(&mut table, create("Widget", None));
    assert_eq!(created, one(201, item(1, "Widget", None)));
    assert_eq!(get_item(&table, 1), one(200, item(1, "Widget", None)));
    let updated = update_item(&mut table, 1, update("Gadget", Some("new")));
    assert_eq!(updated, one(200, item(1, "Gadget", Some("new"))));
    let deleted = delete_item(&mut table, 1);
    assert_eq!(deleted, one(200, item(1, "Gadget", Some("new"))));
    assert_eq!(get_item(&table, 1), error(404, "Item not found"));
}

#[test]
fn create_echoes_payload_with_fresh_ids() {
    let mut table = ItemTable::new();
    let a = create_item(&mut table, create("a", Some("first")));
    let b = create_item(&mut table, create("b", None));
    assert_eq!(a, one(201, item(1, "a", Some("first"))));
    assert_eq!(b, one(201, item(2, "b", None)));
    delete_item(&mut table, 2);
    let c = create_item(&mut table, create("c", None));
    assert_eq!(c, one(201, item(3, "c", None)));
}

#[test]
fn get_missing_is_not_found() {
    let mut table = ItemTable::new();
    assert_eq!(get_item(&table, 7), error(404, ITEM_NOT_FOUND));
    create_item(&mut table, create("x", None));
    assert_eq!(get_item(&table, 2), error(404, ITEM_NOT_FOUND));
    assert_eq!(get_item(&table, -1), error(404, ITEM_NOT_FOUND));
}

#[test]
fn update_missing_creates_nothing() {
    let mut table = ItemTable::new();
    create_item(&mut table, create("x", None));
    assert_eq!(update_item(&mut table, 5, update("y", None)), error(404, RECORD_NOT_FOUND));
    assert_eq!(table.len(), 1);
    assert_eq!(get_item(&table, 5), error(404, ITEM_NOT_FOUND));
    assert_eq!(get_item(&table, 1), one(200, item(1, "x", None)));
}

#[test]
fn delete_missing_changes_nothing() {
    let mut table = ItemTable::new();
    create_item(&mut table, create("x", Some("d")));
    assert_eq!(delete_item(&mut table, 9), error(404, RECORD_NOT_FOUND));
    assert_eq!(table.len(), 1);
    assert_eq!(get_item(&table, 1), one(200, item(1, "x", Some("d"))));
}

#[test]
fn create_then_get_round_trips() {
    let mut table = ItemTable::new();
    create_item(&mut table, create("first", None));
    let created = create_item(&mut table, create("second", Some("two")));
    let Body::One(it) = created.body else { panic!("created reply holds no item") };
    assert_eq!(get_item(&table, it.id), one(200, it));
}

#[test]
fn update_replaces_both_fields() {
    let mut table = ItemTable::new();
    create_item(&mut table, create("old", Some("kept?")));
    update_item(&mut table, 1, update("new", None));
    assert_eq!(get_item(&table, 1), one(200, item(1, "new", None)));
}

#[test]
fn delete_then_get_is_not_found() {
    let mut table = ItemTable::new();
    create_item(&mut table, create("a", None));
    create_item(&mut table, create("b", None));
    delete_item(&mut table, 1);
    assert_eq!(get_item(&table, 1), error(404, ITEM_NOT_FOUND));
    assert_eq!(get_item(&table, 2), one(200, item(2, "b", None)));
}

#[test]
fn list_of_empty_table() {
    let table = ItemTable::new();
    assert_eq!(list_items(&table), Reply { status: 200, body: Body::Empty("No items found") });
    assert_eq!(NO_ITEMS_FOUND, "No items found");
}

#[test]
fn list_has_one_entry_per_row() {
    let mut table = ItemTable::new();
    create_item(&mut table, create("a", None));
    create_item(&mut table, create("b", Some("bee")));
    create_item(&mut table, create("c", None));
    delete_item(&mut table, 2);
    let reply = list_items(&table);
    assert_eq!(reply.status, 200);
    let Body::Many(mut items) = reply.body else { panic!("list of a non-empty table is no array") };
    items.sort_by_key(|it| it.id);
    assert_eq!(items, vec![item(1, "a", None), item(3, "c", None)]);
}

#[test]
fn list_after_deleting_every_row_is_empty() {
    let mut table = ItemTable::new();
    create_item(&mut table, create("a", None));
    delete_item(&mut table, 1);
    assert_eq!(list_items(&table), Reply { status: 200, body: Body::Empty(NO_ITEMS_FOUND) });
}

#[test]
fn store_failures_give_server_errors() {
    assert_eq!(list_reply(Err(StoreError::Query)), error(500, FETCH_FAILED));
    assert_eq!(get_reply(Err(StoreError::Query)), error(500, QUERY_FAILED));
    assert_eq!(create_reply(Err(StoreError::IdsExhausted)), error(500, CREATE_FAILED));
    assert_eq!(update_reply(Err(StoreError::Query)), error(500, UPDATE_FAILED));
    assert_eq!(delete_reply(Err(StoreError::Query)), error(500, DELETE_FAILED));
    assert_eq!(FETCH_FAILED, "Failed to fetch items");
    assert_eq!(QUERY_FAILED, "Database query failed");
    assert_eq!(CREATE_FAILED, "Failed to create item");
    assert_eq!(UPDATE_FAILED, "Database update failed");
    assert_eq!(DELETE_FAILED, "Database error");
}

#[test]
fn store_results_map_to_replies() {
    assert_eq!(list_reply(Ok(vec![])), Reply { status: 200, body: Body::Empty(NO_ITEMS_FOUND) });
    assert_eq!(
        list_reply(Ok(vec![item(4, "d", None)])),
        Reply { status: 200, body: Body::Many(vec![item(4, "d", None)]) }
    );
    assert_eq!(get_reply(Ok(Some(item(4, "d", None)))), one(200, item(4, "d", None)));
    assert_eq!(get_reply(Ok(None)), error(404, ITEM_NOT_FOUND));
    assert_eq!(create_reply(Ok(item(4, "d", None))), one(201, item(4, "d", None)));
    assert_eq!(update_reply(Ok(Some(item(4, "e", Some("f"))))), one(200, item(4, "e", Some("f"))));
    assert_eq!(update_reply(Ok(None)), error(404, RECORD_NOT_FOUND));
    assert_eq!(delete_reply(Ok(Some(item(4, "d", None)))), one(200, item(4, "d", None)));
    assert_eq!(delete_reply(Ok(None)), error(404, "Record not found"));
}

#[test]
fn cloned_item_keeps_fields() {
    let it = item(3, "name", Some("text"));
    assert_eq!(it.clone(), item(3, "name", Some("text")));
}
