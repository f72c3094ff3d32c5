pub mod item;
pub mod laws;
pub mod reply;
pub mod routes;
pub mod table;

pub use item::{CreateItem, Item, ItemView, UpdateItem};
pub use reply::{
    create_reply, delete_reply, get_reply, list_reply, update_reply, Body, Reply,
};
pub use routes::{create_item, delete_item, get_item, list_items, update_item};
pub use table::{ItemTable, StoreError, TableView};
