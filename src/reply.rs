use vstd::prelude::*;
use crate::item::{Item, ItemView};
use crate::table::{found_view, item_views, stored_view, StoreError};

verus! {

/// Status of a successful read, update or delete.
pub const STATUS_OK: u16 = 200;

/// Status of a successful create.
pub const STATUS_CREATED: u16 = 201;

/// Status of an id-addressed request whose id matches no row.
pub const STATUS_NOT_FOUND: u16 = 404;

/// Status of a request whose statement failed in the store.
pub const STATUS_INTERNAL_ERROR: u16 = 500;

/// Message of a list of an empty table.
pub const NO_ITEMS_FOUND: &'static str = "No items found";

/// Error message of a get whose id matches no row.
pub const ITEM_NOT_FOUND: &'static str = "Item not found";

/// Error message of an update or delete whose id matches no row.
pub const RECORD_NOT_FOUND: &'static str = "Record not found";

/// Error message of a failed list.
pub const FETCH_FAILED: &'static str = "Failed to fetch items";

/// Error message of a failed get.
pub const QUERY_FAILED: &'static str = "Database query failed";

/// Error message of a failed create.
pub const CREATE_FAILED: &'static str = "Failed to create item";

/// Error message of a failed update.
pub const UPDATE_FAILED: &'static str = "Database update failed";

/// Error message of a failed delete.
pub const DELETE_FAILED: &'static str = "Database error";

/// The JSON body of a reply.
#[derive(Debug, PartialEq, Eq)]
pub enum Body {
    /// One item: `{"id", "name", "description"}`.
    One(Item),
    /// A non-empty array of items.
    Many(Vec<Item>),
    /// An empty listing: `{"message": <text>, "data": []}`.
    Empty(&'static str),
    /// A failure: `{"error": <text>}`.
    Error(&'static str),
}

/// An HTTP reply: a status code and a JSON body.
#[derive(Debug, PartialEq, Eq)]
pub struct Reply {
    pub status: u16,
    pub body: Body,
}

/// A body as mathematical values.
pub enum BodyView {
    One(ItemView),
    Many(Seq<ItemView>),
    Empty(Seq<char>),
    Error(Seq<char>),
}

/// A reply as mathematical values.
pub struct ReplyView {
    pub status: u16,
    pub body: BodyView,
}

impl View for Body {
    type V = BodyView;

    open spec fn view(&self) -> BodyView {
        match self {
            Body::One(it) => BodyView::One(it@),
            Body::Many(items) => BodyView::Many(item_views(items@)),
            Body::Empty(m) => BodyView::Empty(m@),
            Body::Error(m) => BodyView::Error(m@),
        }
    }
}

impl View for Reply {
    type V = ReplyView;

    open spec fn view(&self) -> ReplyView {
        ReplyView { status: self.status, body: self.body@ }
    }
}

/// A failure reply with the given status and message.
pub open spec fn error_reply(status: u16, message: &str) -> ReplyView {
    ReplyView { status, body: BodyView::Error(message@) }
}

/// The reply to a list, from what the store returned.
pub open spec fn list_reply_view(outcome: Result<Seq<ItemView>, StoreError>) -> ReplyView {
    match outcome {
        Ok(items) => if items.len() == 0 {
            ReplyView { status: STATUS_OK, body: BodyView::Empty(NO_ITEMS_FOUND@) }
        } else {
            ReplyView { status: STATUS_OK, body: BodyView::Many(items) }
        },
        Err(_) => error_reply(STATUS_INTERNAL_ERROR, FETCH_FAILED),
    }
}

/// The reply to an id-addressed request: the row with `ok` if the store found
/// one, `missing` as a 404 if it found none, `failed` as a 500 if it failed.
pub open spec fn found_reply_view(
    outcome: Result<Option<ItemView>, StoreError>,
    ok: u16,
    missing: &str,
    failed: &str,
) -> ReplyView {
    match outcome {
        Ok(Some(it)) => ReplyView { status: ok, body: BodyView::One(it) },
        Ok(None) => error_reply(STATUS_NOT_FOUND, missing),
        Err(_) => error_reply(STATUS_INTERNAL_ERROR, failed),
    }
}

/// The reply to a get, from what the store returned.
pub open spec fn get_reply_view(outcome: Result<Option<ItemView>, StoreError>) -> ReplyView {
    found_reply_view(outcome, STATUS_OK, ITEM_NOT_FOUND, QUERY_FAILED)
}

/// The reply to a create, from what the store returned.
pub open spec fn create_reply_view(outcome: Result<ItemView, StoreError>) -> ReplyView {
    match outcome {
        Ok(it) => ReplyView { status: STATUS_CREATED, body: BodyView::One(it) },
        Err(_) => error_reply(STATUS_INTERNAL_ERROR, CREATE_FAILED),
    }
}

/// The reply to an update, from what the store returned.
pub open spec fn update_reply_view(outcome: Result<Option<ItemView>, StoreError>) -> ReplyView {
    found_reply_view(outcome, STATUS_OK, RECORD_NOT_FOUND, UPDATE_FAILED)
}

/// The reply to a delete, from what the store returned.
pub open spec fn delete_reply_view(outcome: Result<Option<ItemView>, StoreError>) -> ReplyView {
    found_reply_view(outcome, STATUS_OK, RECORD_NOT_FOUND, DELETE_FAILED)
}

/// What a store returned for an id-addressed statement, as mathematical values.
pub open spec fn lookup_outcome_view(outcome: Result<Option<Item>, StoreError>) -> Result<
    Option<ItemView>,
    StoreError,
> {
    match outcome {
        Ok(found) => Ok(found_view(found)),
        Err(e) => Err(e),
    }
}

/// What a store returned for a select of all rows, as mathematical values.
pub open spec fn listing_outcome_view(outcome: Result<Vec<Item>, StoreError>) -> Result<
    Seq<ItemView>,
    StoreError,
> {
    match outcome {
        Ok(items) => Ok(item_views(items@)),
        Err(e) => Err(e),
    }
}

fn found_reply(
    outcome: Result<Option<Item>, StoreError>,
    ok: u16,
    missing: &'static str,
    failed: &'static str,
) -> (r: Reply)
    ensures
        r@ == found_reply_view(lookup_outcome_view(outcome), ok, missing, failed),
{
    match outcome {
        Ok(Some(it)) => Reply { status: ok, body: Body::One(it) },
        Ok(None) => Reply { status: STATUS_NOT_FOUND, body: Body::Error(missing) },
        Err(_) => Reply { status: STATUS_INTERNAL_ERROR, body: Body::Error(failed) },
    }
}

/// Turns the result of selecting all rows into the reply to a list.
pub fn list_reply(outcome: Result<Vec<Item>, StoreError>) -> (r: Reply)
    ensures
        r@ == list_reply_view(listing_outcome_view(outcome)),
{
    match outcome {
        Ok(items) => if items.len() == 0 {
            Reply { status: STATUS_OK, body: Body::Empty(NO_ITEMS_FOUND) }
        } else {
            Reply { status: STATUS_OK, body: Body::Many(items) }
        },
        Err(_) => Reply { status: STATUS_INTERNAL_ERROR, body: Body::Error(FETCH_FAILED) },
    }
}

/// Turns the result of selecting one row by id into the reply to a get.
pub fn get_reply(outcome: Result<Option<Item>, StoreError>) -> (r: Reply)
    ensures
        r@ == get_reply_view(lookup_outcome_view(outcome)),
{
    found_reply(outcome, STATUS_OK, ITEM_NOT_FOUND, QUERY_FAILED)
}

/// Turns the result of inserting a row into the reply to a create.
pub fn create_reply(outcome: Result<Item, StoreError>) -> (r: Reply)
    ensures
        r@ == create_reply_view(stored_view(outcome)),
{
    match outcome {
        Ok(it) => Reply { status: STATUS_CREATED, body: Body::One(it) },
        Err(_) => Reply { status: STATUS_INTERNAL_ERROR, body: Body::Error(CREATE_FAILED) },
    }
}

/// Turns the result of updating a row by id into the reply to an update.
pub fn update_reply(outcome: Result<Option<Item>, StoreError>) -> (r: Reply)
    ensures
        r@ == update_reply_view(lookup_outcome_view(outcome)),
{
    found_reply(outcome, STATUS_OK, RECORD_NOT_FOUND, UPDATE_FAILED)
}

/// Turns the result of deleting a row by id into the reply to a delete.
pub fn delete_reply(outcome: Result<Option<Item>, StoreError>) -> (r: Reply)
    ensures
        r@ == delete_reply_view(lookup_outcome_view(outcome)),
{
    found_reply(outcome, STATUS_OK, RECORD_NOT_FOUND, DELETE_FAILED)
}

} // verus!
