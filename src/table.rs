use vstd::prelude::*;
use crate::item::{CreateItem, Item, ItemView, UpdateItem};

verus! {

/// Why a statement against the store failed.
#[derive(Debug, Clone, Copy, PartialEq, Eq)]
pub enum StoreError {
    /// The store could not run the statement.
    Query,
    /// Every id the store can assign has been used.
    IdsExhausted,
}

/// The items table as mathematical values: the rows by id, and the last id assigned.
pub struct TableView {
    pub rows: Map<i32, ItemView>,
    pub last_id: int,
}

/// An in-memory items table.
///
/// Ids are assigned in increasing order from 1 and never reused, as a serial
/// primary key does.
pub struct ItemTable {
    rows: Vec<Item>,
    last_id: i32,
    contents: Ghost<Map<i32, ItemView>>,
}

impl View for ItemTable {
    type V = TableView;

    closed spec fn view(&self) -> TableView {
        TableView { rows: self.contents@, last_id: self.last_id as int }
    }
}

/// A stored row, or why storing failed, as mathematical values.
pub open spec fn stored_view(r: Result<Item, StoreError>) -> Result<ItemView, StoreError> {
    match r {
        Ok(it) => Ok(it@),
        Err(e) => Err(e),
    }
}

/// A sequence of rows as mathematical values.
pub open spec fn item_views(s: Seq<Item>) -> Seq<ItemView> {
    s.map_values(|it: Item| it@)
}

/// A row that may be missing, as mathematical values.
pub open spec fn found_view(r: Option<Item>) -> Option<ItemView> {
    match r {
        Some(it) => Some(it@),
        None => None,
    }
}

impl TableView {
    /// The row with the given id, if there is one.
    pub open spec fn lookup(self, id: i32) -> Option<ItemView> {
        if self.rows.contains_key(id) {
            Some(self.rows[id])
        } else {
            None
        }
    }

    /// What inserting the payload returns: the payload under the next id,
    /// unless every id has been assigned.
    pub open spec fn insert_result(self, input: CreateItem) -> Result<ItemView, StoreError> {
        if self.last_id < i32::MAX {
            Ok(input.with_id((self.last_id + 1) as i32))
        } else {
            Err(StoreError::IdsExhausted)
        }
    }

    /// The table after inserting the payload.
    pub open spec fn after_insert(self, input: CreateItem) -> TableView {
        match self.insert_result(input) {
            Ok(it) => TableView { rows: self.rows.insert(it.id, it), last_id: it.id as int },
            Err(_) => self,
        }
    }

    /// What updating the row `id` returns: the replaced row, if `id` is present.
    pub open spec fn update_result(self, id: i32, input: UpdateItem) -> Option<ItemView> {
        if self.rows.contains_key(id) {
            Some(input.with_id(id))
        } else {
            None
        }
    }

    /// The table after updating the row `id`.
    pub open spec fn after_update(self, id: i32, input: UpdateItem) -> TableView {
        match self.update_result(id, input) {
            Some(it) => TableView { rows: self.rows.insert(id, it), last_id: self.last_id },
            None => self,
        }
    }

    /// The table after deleting the row `id`.
    pub open spec fn after_delete(self, id: i32) -> TableView {
        if self.rows.contains_key(id) {
            TableView { rows: self.rows.remove(id), last_id: self.last_id }
        } else {
            self
        }
    }

    /// `s` lists every row of the table once, in some order.
    pub open spec fn is_listing(self, s: Seq<ItemView>) -> bool {
        &&& s.len() == self.rows.len()
        &&& forall|i: int, j: int| 0 <= i < j < s.len() ==> #[trigger] s[i].id != #[trigger] s[j].id
        &&& forall|i: int| 0 <= i < s.len() ==> self.lookup(#[trigger] s[i].id) == Some(s[i])
    }

    /// Every row is stored under its own id, and that id has been assigned.
    pub open spec fn wf(self) -> bool {
        &&& self.rows.dom().finite()
        &&& 0 <= self.last_id <= i32::MAX
        &&& forall|k: i32| #[trigger]
            self.rows.contains_key(k) ==> self.rows[k].id == k && 1 <= k <= self.last_id
    }
}

impl ItemTable {
    /// The rows of the vector agree with the ghost map, one for one.
    pub closed spec fn wf(&self) -> bool {
        &&& self@.wf()
        &&& self.contents@.len() == self.rows@.len()
        &&& forall|i: int, j: int|
            0 <= i < j < self.rows@.len() ==> #[trigger] self.rows@[i].id != #[trigger] self.rows@[j].id
        &&& forall|i: int|
            0 <= i < self.rows@.len() ==> {
                &&& #[trigger] self.contents@.contains_key(self.rows@[i].id)
                &&& self.contents@[self.rows@[i].id] == self.rows@[i]@
            }
        &&& forall|k: i32| #[trigger]
            self.contents@.contains_key(k) ==> exists|i: int|
                0 <= i < self.rows@.len() && #[trigger] self.rows@[i].id == k
    }

    /// An empty table; the first id it assigns is 1.
    pub fn new() -> (r: ItemTable)
        ensures
            r.wf(),
            r@.rows == Map::<i32, ItemView>::empty(),
            r@.last_id == 0,
    {
        ItemTable { rows: Vec::new(), last_id: 0, contents: Ghost(Map::empty()) }
    }

    /// A well-formed table has a well-formed view.
    pub proof fn lemma_view_wf(&self)
        requires
            self.wf(),
        ensures
            self@.wf(),
    {
    }

    /// The number of rows.
    pub fn len(&self) -> (r: usize)
        requires
            self.wf(),
        ensures
            r == self@.rows.len(),
    {
        self.rows.len()
    }

    /// The position of the row with the given id, if there is one.
    fn position(&self, id: i32) -> (r: Option<usize>)
        requires
            self.wf(),
        ensures
            r.is_some() <==> self@.rows.contains_key(id),
            r matches Some(i) ==> i < self.rows@.len() && self.rows@[i as int].id == id,
    {
        let mut i: usize = 0;
        while i < self.rows.len()
            invariant
                self.wf(),
                i <= self.rows@.len(),
                forall|j: int| 0 <= j < i ==> #[trigger] self.rows@[j].id != id,
            decreases self.rows@.len() - i,
        {
            if self.rows[i].id == id {
                return Some(i);
            }
            i = i + 1;
        }
        None
    }

    /// All rows, each once, in no promised order.
    pub fn select_all(&self) -> (r: Vec<Item>)
        requires
            self.wf(),
        ensures
            self@.is_listing(item_views(r@)),
    {
        let mut out: Vec<Item> = Vec::new();
        let mut i: usize = 0;
        while i < self.rows.len()
            invariant
                self.wf(),
                i <= self.rows@.len(),
                out@.len() == i,
                forall|j: int| 0 <= j < i ==> (#[trigger] out@[j])@ == self.rows@[j]@,
            decreases self.rows@.len() - i,
        {
            out.push(self.rows[i].clone());
            i = i + 1;
        }
        out
    }

    /// The row with the given id, if there is one.
    pub fn select_by_id(&self, id: i32) -> (r: Option<Item>)
        requires
            self.wf(),
        ensures
            found_view(r) == self@.lookup(id),
    {
        match self.position(id) {
            Some(i) => Some(self.rows[i].clone()),
            None => None,
        }
    }

    /// Stores a new row under the next id.
    ///
    /// Fails, changing nothing, once the largest id has been assigned.
    pub fn insert(&mut self, input: CreateItem) -> (r: Result<Item, StoreError>)
        requires
            old(self).wf(),
        ensures
            final(self).wf(),
            stored_view(r) == old(self)@.insert_result(input),
            final(self)@ == old(self)@.after_insert(input),
    {
        if self.last_id == i32::MAX {
            return Err(StoreError::IdsExhausted);
        }
        let id: i32 = self.last_id + 1;
        let row = Item { id, name: input.name, description: input.description };
        let stored = row.clone();
        let ghost old_rows = self.rows@;
        let ghost old_map = self.contents@;
        proof {
            assert(!old_map.contains_key(id));
        }
        self.rows.push(row);
        self.last_id = id;
        self.contents = Ghost(old_map.insert(id, stored@));
        proof {
            assert(self.rows@ == old_rows.push(row));
            assert(self.contents@.dom() == old_map.dom().insert(id));
            assert forall|k: i32| #[trigger] self.contents@.contains_key(k) implies exists|i: int|
                0 <= i < self.rows@.len() && #[trigger] self.rows@[i].id == k by {
                if k == id {
                    assert(self.rows@[old_rows.len() as int].id == k);
                } else {
                    let i = choose|i: int| 0 <= i < old_rows.len() && #[trigger] old_rows[i].id == k;
                    assert(self.rows@[i].id == k);
                }
            }
        }
        Ok(stored)
    }

    /// Replaces both fields of the row with the given id, if there is one.
    pub fn update_by_id(&mut self, id: i32, input: UpdateItem) -> (r: Option<Item>)
        requires
            old(self).wf(),
        ensures
            final(self).wf(),
            found_view(r) == old(self)@.update_result(id, input),
            final(self)@ == old(self)@.after_update(id, input),
    {
        match self.position(id) {
            None => None,
            Some(i) => {
                let row = Item { id, name: input.name, description: input.description };
                let stored = row.clone();
                let ghost old_rows = self.rows@;
                let ghost old_map = self.contents@;
                self.rows[i] = row;
                self.contents = Ghost(old_map.insert(id, stored@));
                proof {
                    assert(self.contents@.dom() =~= old_map.dom());
                    assert(self.contents@.len() == old_map.len());
                    assert(self.rows@ == old_rows.update(i as int, row));
                    assert forall|a: int, b: int|
                        0 <= a < b < self.rows@.len() implies #[trigger] self.rows@[a].id
                            != #[trigger] self.rows@[b].id by {
                        assert(self.rows@[a].id == old_rows[a].id);
                        assert(self.rows@[b].id == old_rows[b].id);
                    }
                    assert forall|a: int| 0 <= a < self.rows@.len() implies {
                        &&& #[trigger] self.contents@.contains_key(self.rows@[a].id)
                        &&& self.contents@[self.rows@[a].id] == self.rows@[a]@
                    } by {
                        if a != i {
                            assert(self.rows@[a] == old_rows[a]);
                            assert(old_rows[a].id != old_rows[i as int].id);
                            assert(old_map.contains_key(old_rows[a].id));
                            assert(old_map[old_rows[a].id] == old_rows[a]@);
                        } else {
                            assert(self.rows@[a] == row);
                            assert(row@ == stored@);
                        }
                    }
                    assert forall|k: i32| #[trigger] self.contents@.contains_key(k) implies exists|j: int|
                        0 <= j < self.rows@.len() && #[trigger] self.rows@[j].id == k by {
                        let j = choose|j: int| 0 <= j < old_rows.len() && #[trigger] old_rows[j].id == k;
                        assert(self.rows@[j].id == k);
                    }
                }
                Some(stored)
            },
        }
    }

    /// Removes the row with the given id, if there is one, and returns it.
    pub fn delete_by_id(&mut self, id: i32) -> (r: Option<Item>)
        requires
            old(self).wf(),
        ensures
            final(self).wf(),
            found_view(r) == old(self)@.lookup(id),
            final(self)@ == old(self)@.after_delete(id),
    {
        match self.position(id) {
            None => None,
            Some(i) => {
                let ghost old_rows = self.rows@;
                let ghost old_map = self.contents@;
                let removed = self.rows.remove(i);
                self.contents = Ghost(old_map.remove(id));
                proof {
                    old_rows.remove_ensures(i as int);
                    assert(self.contents@.dom() == old_map.dom().remove(id));
                    assert forall|a: int, b: int|
                        0 <= a < b < self.rows@.len() implies #[trigger] self.rows@[a].id
                            != #[trigger] self.rows@[b].id by {
                        let a2 = if a < i { a } else { a + 1 };
                        let b2 = if b < i { b } else { b + 1 };
                        assert(self.rows@[a] == old_rows[a2]);
                        assert(self.rows@[b] == old_rows[b2]);
                    }
                    assert forall|a: int| 0 <= a < self.rows@.len() implies {
                        &&& #[trigger] self.contents@.contains_key(self.rows@[a].id)
                        &&& self.contents@[self.rows@[a].id] == self.rows@[a]@
                    } by {
                        let a2 = if a < i { a } else { a + 1 };
                        assert(self.rows@[a] == old_rows[a2]);
                        assert(old_rows[a2].id != old_rows[i as int].id);
                        assert(old_map.contains_key(old_rows[a2].id));
                        assert(old_map[old_rows[a2].id] == old_rows[a2]@);
                    }
                    assert forall|k: i32| #[trigger] self.contents@.contains_key(k) implies exists|j: int|
                        0 <= j < self.rows@.len() && #[trigger] self.rows@[j].id == k by {
                        let j = choose|j: int| 0 <= j < old_rows.len() && #[trigger] old_rows[j].id == k;
                        assert(j != i);
                        let j2 = if j < i { j } else { j - 1 };
                        assert(self.rows@[j2] == old_rows[j]);
                    }
                }
                Some(removed)
            },
        }
    }
}


} // verus!
