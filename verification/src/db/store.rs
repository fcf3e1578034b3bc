//! The wallets table, kept in memory: rows with distinct ids, and the four
//! statements that the operations are made of.

use vstd::prelude::*;
use chrono::NaiveDateTime;
use crate::db::error::QueryError;
use crate::db::wallet::{NewWallet, NewWalletView, UpdateView, Wallet, WalletKey, WalletView};

verus! {

/// The table as mathematics: the rows by id, and the id that the next new
/// row gets.
pub struct TableView {
    pub rows: Map<int, WalletView>,
    pub next_id: int,
}

impl TableView {
    /// Every row sits under its own id, and every id is one that was already
    /// handed out.
    pub open spec fn valid(self) -> bool {
        &&& self.next_id <= i64::MAX
        &&& forall|id: int| #[trigger]
            self.rows.dom().contains(id) ==> self.rows[id].id == id && id < self.next_id
    }

    /// A table without rows whose first row will get `first_id`.
    pub open spec fn empty(first_id: int) -> TableView {
        TableView { rows: Map::empty(), next_id: first_id }
    }

    /// There is a row with the id of `key`, and the user of `key` owns it.
    pub open spec fn visible(self, key: WalletKey) -> bool {
        self.rows.dom().contains(key.id) && self.rows[key.id].user_id == key.owner
    }

    /// The row that `key` names, if its user may see it.
    pub open spec fn select(self, key: WalletKey) -> Option<WalletView> {
        if self.visible(key) {
            Some(self.rows[key.id])
        } else {
            None
        }
    }

    /// An id is left for one more row.
    pub open spec fn has_room(self) -> bool {
        self.next_id < i64::MAX
    }

    /// The row that `new` becomes: the next id, the given creation time, the
    /// rest as `new` has it.
    pub open spec fn row_for(self, new: NewWalletView, created_at: NaiveDateTime) -> WalletView {
        WalletView {
            id: self.next_id,
            user_id: new.user_id,
            name: new.name,
            wallet_type: new.wallet_type,
            initial_balance: new.initial_balance,
            current_balance: new.current_balance,
            color: new.color,
            created_at: created_at,
        }
    }

    /// The table with the row for `new` added.
    pub open spec fn inserted(self, new: NewWalletView, created_at: NaiveDateTime) -> TableView {
        TableView {
            rows: self.rows.insert(self.next_id, self.row_for(new, created_at)),
            next_id: self.next_id + 1,
        }
    }

    /// The table after `row` was written over the row with its id, all
    /// columns at once. Without such a row nothing changes.
    pub open spec fn replaced(self, row: WalletView) -> TableView {
        if self.rows.dom().contains(row.id) {
            TableView { rows: self.rows.insert(row.id, row), next_id: self.next_id }
        } else {
            self
        }
    }

    /// The table without the row that `key` names, if its user may see it.
    pub open spec fn removed(self, key: WalletKey) -> TableView {
        if self.visible(key) {
            TableView { rows: self.rows.remove(key.id), next_id: self.next_id }
        } else {
            self
        }
    }

    /// What an update answers: the row that its user may see, with the
    /// change laid over it, or nothing.
    pub open spec fn update_result(self, update: UpdateView) -> Option<WalletView> {
        match self.select(update.key) {
            Some(row) => Some(row.with_change(update.change)),
            None => None,
        }
    }

    /// The table after an update: the changed row stands in place of the
    /// old one. Where the user may see no such row nothing is written.
    pub open spec fn updated(self, update: UpdateView) -> TableView {
        match self.select(update.key) {
            Some(row) => self.replaced(row.with_change(update.change)),
            None => self,
        }
    }
}

/// Some row has this id.
spec fn holds(rows: Seq<Wallet>, id: int) -> bool {
    exists|i: int| 0 <= i < rows.len() && (#[trigger] rows[i]).id == id
}

/// Where the row with this id stands.
spec fn place(rows: Seq<Wallet>, id: int) -> int {
    choose|i: int| 0 <= i < rows.len() && (#[trigger] rows[i]).id == id
}

/// No two rows share an id.
spec fn distinct(rows: Seq<Wallet>) -> bool {
    forall|i: int, j: int|
        0 <= i < j < rows.len() ==> (#[trigger] rows[i]).id != (#[trigger] rows[j]).id
}

/// The rows by id.
spec fn table(rows: Seq<Wallet>) -> Map<int, WalletView> {
    Map::new(|id: int| holds(rows, id), |id: int| rows[place(rows, id)]@)
}

proof fn lemma_row(rows: Seq<Wallet>, i: int)
    requires
        distinct(rows),
        0 <= i < rows.len(),
    ensures
        holds(rows, rows[i].id as int),
        place(rows, rows[i].id as int) == i,
        table(rows).dom().contains(rows[i].id as int),
        table(rows)[rows[i].id as int] == rows[i]@,
{
    let id = rows[i].id as int;
    let p = place(rows, id);
    assert(0 <= p < rows.len() && rows[p].id == id);
    if p < i {
        assert(rows[p].id != rows[i].id);
    } else if i < p {
        assert(rows[i].id != rows[p].id);
    }
}

proof fn lemma_absent(rows: Seq<Wallet>, id: int)
    requires
        forall|i: int| 0 <= i < rows.len() ==> (#[trigger] rows[i]).id != id,
    ensures
        !table(rows).dom().contains(id),
{
}

proof fn lemma_push(rows: Seq<Wallet>, w: Wallet)
    requires
        distinct(rows),
        forall|i: int| 0 <= i < rows.len() ==> (#[trigger] rows[i]).id != w.id,
    ensures
        distinct(rows.push(w)),
        table(rows.push(w)) == table(rows).insert(w.id as int, w@),
{
    let after = rows.push(w);
    let n = rows.len() as int;
    assert(after[n] == w);
    assert forall|i: int| 0 <= i < n implies after[i] == rows[i] by {}
    assert(distinct(after));
    let target = table(rows).insert(w.id as int, w@);
    assert forall|id: int| table(after).dom().contains(id) <==> target.dom().contains(id) by {
        if holds(after, id) {
            let p = place(after, id);
            if p < n {
                assert(rows[p].id == id);
            }
        }
        if holds(rows, id) {
            let p = place(rows, id);
            assert(after[p].id == id);
        }
        if id == w.id {
            assert(after[n].id == id);
        }
    }
    assert forall|id: int| table(after).dom().contains(id) implies table(after)[id] == target[id] by {
        let p = place(after, id);
        lemma_row(after, p);
        if p < n {
            lemma_row(rows, p);
        }
    }
    assert(table(after) =~= target);
}

proof fn lemma_update(rows: Seq<Wallet>, i: int, w: Wallet)
    requires
        distinct(rows),
        0 <= i < rows.len(),
        w.id == rows[i].id,
    ensures
        distinct(rows.update(i, w)),
        table(rows.update(i, w)) == table(rows).insert(w.id as int, w@),
{
    let after = rows.update(i, w);
    assert forall|a: int, b: int| 0 <= a < b < after.len() implies (#[trigger] after[a]).id != (
    #[trigger] after[b]).id by {
        assert(after[a].id == rows[a].id);
        assert(after[b].id == rows[b].id);
    }
    let target = table(rows).insert(w.id as int, w@);
    assert forall|id: int| table(after).dom().contains(id) <==> target.dom().contains(id) by {
        if holds(after, id) {
            let p = place(after, id);
            assert(rows[p].id == id);
        }
        if holds(rows, id) {
            let p = place(rows, id);
            assert(after[p].id == id);
        }
        if id == w.id {
            assert(after[i].id == id);
        }
    }
    assert forall|id: int| table(after).dom().contains(id) implies table(after)[id] == target[id] by {
        let p = place(after, id);
        lemma_row(after, p);
        lemma_row(rows, p);
    }
    assert(table(after) =~= target);
}

proof fn lemma_remove(rows: Seq<Wallet>, i: int)
    requires
        distinct(rows),
        0 <= i < rows.len(),
    ensures
        distinct(rows.remove(i)),
        table(rows.remove(i)) == table(rows).remove(rows[i].id as int),
{
    let after = rows.remove(i);
    assert forall|a: int| 0 <= a < after.len() implies #[trigger] after[a] == rows[if a < i {
        a
    } else {
        a + 1
    }] by {}
    assert forall|a: int, b: int| 0 <= a < b < after.len() implies (#[trigger] after[a]).id != (
    #[trigger] after[b]).id by {
        let first = if a < i { a } else { a + 1 };
        let second = if b < i { b } else { b + 1 };
        assert(after[a] == rows[first]);
        assert(after[b] == rows[second]);
        assert(rows[first].id != rows[second].id);
    }
    let gone = rows[i].id as int;
    let target = table(rows).remove(gone);
    assert forall|id: int| table(after).dom().contains(id) <==> target.dom().contains(id) by {
        if holds(after, id) {
            let p = place(after, id);
            let from = if p < i { p } else { p + 1 };
            assert(after[p] == rows[from]);
            assert(rows[from].id == id);
            if id == gone {
                lemma_row(rows, from);
                lemma_row(rows, i);
            }
        }
        if holds(rows, id) && id != gone {
            let p = place(rows, id);
            let q = if p < i { p } else { p - 1 };
            assert(after[q] == rows[p]);
            assert(after[q].id == id);
        }
    }
    assert forall|id: int| table(after).dom().contains(id) implies table(after)[id] == target[id] by {
        let p = place(after, id);
        let from = if p < i { p } else { p + 1 };
        assert(after[p] == rows[from]);
        lemma_row(after, p);
        lemma_row(rows, from);
    }
    assert(table(after) =~= target);
}

/// The wallets table in memory. Ids are handed out in rising order and never
/// twice.
pub struct WalletStore {
    rows: Vec<Wallet>,
    next_id: i64,
}

impl View for WalletStore {
    type V = TableView;

    closed spec fn view(&self) -> TableView {
        TableView { rows: table(self.rows@), next_id: self.next_id as int }
    }
}

impl WalletStore {
    #[verifier::type_invariant]
    spec fn sound(self) -> bool {
        &&& distinct(self.rows@)
        &&& forall|i: int| 0 <= i < self.rows@.len() ==> (#[trigger] self.rows@[i]).id < self.next_id
    }

    /// An empty table whose first row gets the id 1.
    pub fn new() -> (store: WalletStore)
        ensures
            store@ == TableView::empty(1),
            store@.valid(),
    {
        let store = WalletStore { rows: Vec::new(), next_id: 1 };
        assert(store@.rows =~= Map::empty());
        store
    }

    /// An empty table whose first row gets the id `first_id`.
    pub fn starting_at(first_id: i64) -> (store: WalletStore)
        ensures
            store@ == TableView::empty(first_id as int),
            store@.valid(),
    {
        let store = WalletStore { rows: Vec::new(), next_id: first_id };
        assert(store@.rows =~= Map::empty());
        store
    }

    /// Where the row with id `id` stands, if there is one.
    fn position(&self, id: i64) -> (at: Option<usize>)
        ensures
            match at {
                Some(i) => i < self.rows@.len() && self.rows@[i as int].id == id,
                None => forall|i: int| 0 <= i < self.rows@.len() ==> (#[trigger] self.rows@[i]).id != id,
            },
    {
        let mut i: usize = 0;
        while i < self.rows.len()
            invariant
                i <= self.rows@.len(),
                forall|j: int| 0 <= j < i ==> (#[trigger] self.rows@[j]).id != id,
            decreases self.rows@.len() - i,
        {
            if self.rows[i].id == id {
                return Some(i);
            }
            i += 1;
        }
        None
    }

    /// Takes the rows out, to change them and put them back.
    fn take_rows(&mut self) -> (rows: Vec<Wallet>)
        ensures
            rows == old(self).rows,
            final(self).rows@.len() == 0,
            final(self).next_id == old(self).next_id,
    {
        let mut rows: Vec<Wallet> = Vec::new();
        std::mem::swap(&mut rows, &mut self.rows);
        rows
    }

    /// Adds the row for `new`, stamped with `created_at`, under the next id,
    /// and hands the row back. Fails, and changes nothing, when no id is left.
    pub fn insert(&mut self, new: NewWallet, created_at: NaiveDateTime) -> (res: Result<
        Wallet,
        QueryError,
    >)
        ensures
            old(self)@.has_room() ==> res is Ok && res->Ok_0@ == old(self)@.row_for(new@, created_at)
                && final(self)@ == old(self)@.inserted(new@, created_at),
            !old(self)@.has_room() ==> res == Err::<Wallet, QueryError>(QueryError::Failed)
                && final(self)@ == old(self)@,
            final(self)@.valid(),
    {
        proof {
            use_type_invariant(&*self);
        }
        if self.next_id == i64::MAX {
            proof {
                self.lemma_valid();
            }
            return Err(QueryError::Failed);
        }
        let id: i64 = self.next_id;
        let row = Wallet {
            id: id,
            user_id: new.user_id,
            name: new.name,
            wallet_type: new.wallet_type,
            initial_balance: new.initial_balance,
            current_balance: new.current_balance,
            color: new.color,
            created_at: created_at,
        };
        let copy = row.clone();
        proof {
            lemma_push(self.rows@, row);
        }
        let mut rows = self.take_rows();
        rows.push(row);
        self.next_id = id + 1;
        self.rows = rows;
        proof {
            self.lemma_valid();
        }
        Ok(copy)
    }

    /// The row with id `wid` that user `uid` owns. Where there is none the
    /// answer is `NotFound`.
    pub fn select(&self, wid: i64, uid: i64) -> (res: Result<Wallet, QueryError>)
        ensures
            match res {
                Ok(row) => self@.select((WalletKey { owner: uid as int, id: wid as int })) == Some(
                    row@,
                ),
                Err(e) => e == QueryError::NotFound && self@.select(
                    (WalletKey { owner: uid as int, id: wid as int }),
                ) is None,
            },
            self@.valid(),
    {
        proof {
            use_type_invariant(self);
            self.lemma_valid();
        }
        match self.position(wid) {
            Some(i) => {
                proof {
                    lemma_row(self.rows@, i as int);
                }
                if self.rows[i].is_selected(wid, uid) {
                    Ok(self.rows[i].clone())
                } else {
                    Err(QueryError::NotFound)
                }
            },
            None => {
                proof {
                    lemma_absent(self.rows@, wid as int);
                }
                Err(QueryError::NotFound)
            },
        }
    }

    /// Writes `row` over the row with its id, all columns at once, and hands
    /// back the row as it now stands. Where the table has no row with that id
    /// nothing is written and the answer is `NotFound`.
    pub fn replace(&mut self, row: Wallet) -> (res: Result<Wallet, QueryError>)
        ensures
            final(self)@ == old(self)@.replaced(row@),
            old(self)@.rows.dom().contains(row.id as int) ==> res is Ok && res->Ok_0@ == row@,
            !old(self)@.rows.dom().contains(row.id as int) ==> res == Err::<Wallet, QueryError>(
                QueryError::NotFound,
            ),
            final(self)@.valid(),
    {
        proof {
            use_type_invariant(&*self);
        }
        match self.position(row.id) {
            Some(i) => {
                let copy = row.clone();
                proof {
                    lemma_row(self.rows@, i as int);
                    lemma_update(self.rows@, i as int, row);
                }
                let mut rows = self.take_rows();
                rows.set(i, row);
                self.rows = rows;
                proof {
                    self.lemma_valid();
                }
                Ok(copy)
            },
            None => {
                proof {
                    lemma_absent(self.rows@, row.id as int);
                    self.lemma_valid();
                }
                Err(QueryError::NotFound)
            },
        }
    }

    /// Deletes the row with id `wid` if user `uid` owns it, and says how many
    /// rows went: one or none.
    pub fn delete(&mut self, wid: i64, uid: i64) -> (count: usize)
        ensures
            final(self)@ == old(self)@.removed((WalletKey { owner: uid as int, id: wid as int })),
            count == if old(self)@.visible((WalletKey { owner: uid as int, id: wid as int })) {
                1usize
            } else {
                0usize
            },
            final(self)@.valid(),
    {
        proof {
            use_type_invariant(&*self);
        }
        match self.position(wid) {
            Some(i) => {
                proof {
                    lemma_row(self.rows@, i as int);
                }
                if self.rows[i].is_selected(wid, uid) {
                    proof {
                        lemma_remove(self.rows@, i as int);
                    }
                    let mut rows = self.take_rows();
                    let _ = rows.remove(i);
                    self.rows = rows;
                    proof {
                        self.lemma_valid();
                    }
                    1
                } else {
                    proof {
                        self.lemma_valid();
                    }
                    0
                }
            },
            None => {
                proof {
                    lemma_absent(self.rows@, wid as int);
                    self.lemma_valid();
                }
                0
            },
        }
    }

    proof fn lemma_valid(&self)
        requires
            self.sound(),
        ensures
            self@.valid(),
    {
        assert forall|id: int| #[trigger] self@.rows.dom().contains(id) implies self@.rows[id].id == id
            && id < self@.next_id by {
            let p = place(self.rows@, id);
            lemma_row(self.rows@, p);
        }
    }
}

} // verus!
