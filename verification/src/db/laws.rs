//! What holds of the operations whatever the table holds, stated over the
//! same models as their contracts.

use vstd::prelude::*;
use chrono::NaiveDateTime;
use crate::db::store::TableView;
use crate::db::wallet::{NewWalletView, UpdateView, WalletKey, WalletView};
use crate::request::{ChangeView, CreationView};

verus! {

/// A wallet created from a request starts with both balances at the
/// requested one, belongs to the user who asked, and gets an id that no row
/// of the table had: the table afterwards holds the new row under that id
/// and every earlier row as it was.
pub proof fn lemma_create_is_fresh(
    table: TableView,
    owner: int,
    req: CreationView,
    created_at: NaiveDateTime,
)
    requires
        table.valid(),
        table.has_room(),
    ensures
        ({
            let new = NewWalletView::from_request(owner, req);
            let row = table.row_for(new, created_at);
            let after = table.inserted(new, created_at);
            &&& row.current_balance == req.balance
            &&& row.initial_balance == req.balance
            &&& row.user_id == owner
            &&& !table.rows.dom().contains(row.id)
            &&& after.rows.dom().contains(row.id)
            &&& after.rows[row.id] == row
            &&& forall|id: int| #[trigger]
                table.rows.dom().contains(id) ==> after.rows.dom().contains(id) && after.rows[id]
                    == table.rows[id]
            &&& after.valid()
        }),
{
}

/// A wallet of another user is as good as absent. With a row under the id
/// of `key` that the user of `key` does not own, Get finds nothing, Update
/// writes and returns nothing, Delete removes nothing and says so: each as
/// on the table without that row, and the row stays.
pub proof fn lemma_foreign_wallet_is_hidden(table: TableView, key: WalletKey, change: ChangeView)
    requires
        table.valid(),
        table.rows.dom().contains(key.id),
        table.rows[key.id].user_id != key.owner,
    ensures
        ({
            let without = TableView { rows: table.rows.remove(key.id), next_id: table.next_id };
            let update = UpdateView { key: key, change: change };
            &&& table.select(key) == without.select(key)
            &&& table.select(key) is None
            &&& table.update_result(update) == without.update_result(update)
            &&& table.update_result(update) is None
            &&& table.updated(update) == table
            &&& without.updated(update) == without
            &&& table.visible(key) == without.visible(key)
            &&& !table.visible(key)
            &&& table.removed(key) == table
            &&& without.removed(key) == without
        }),
{
}

/// An update without fields changes nothing: it returns the row as Get
/// would, and the table is as before.
pub proof fn lemma_empty_update_is_noop(table: TableView, key: WalletKey, change: ChangeView)
    requires
        table.valid(),
        change.is_empty(),
    ensures
        forall|row: WalletView| #[trigger] row.with_change(change) == row,
        table.update_result((UpdateView { key: key, change: change })) == table.select(key),
        table.updated((UpdateView { key: key, change: change })) == table,
{
    let update = UpdateView { key: key, change: change };
    if table.visible(key) {
        let row = table.rows[key.id];
        assert(row.with_change(change) == row);
        assert(table.rows.insert(key.id, row) =~= table.rows);
    }
}

/// An update changes the fields it holds and no other: each of name, type
/// and colour is the update's where it holds one and the row's where it
/// does not; id, owner, both balances and the creation time stay.
pub proof fn lemma_update_changes_named_fields_only(row: WalletView, change: ChangeView)
    ensures
        ({
            let merged = row.with_change(change);
            &&& merged.id == row.id
            &&& merged.user_id == row.user_id
            &&& merged.initial_balance == row.initial_balance
            &&& merged.current_balance == row.current_balance
            &&& merged.created_at == row.created_at
            &&& merged.name == if change.name is Some {
                change.name->Some_0
            } else {
                row.name
            }
            &&& merged.wallet_type == if change.wallet_type is Some {
                change.wallet_type->Some_0
            } else {
                row.wallet_type
            }
            &&& merged.color == if change.color is Some {
                change.color->Some_0
            } else {
                row.color
            }
        }),
{
}

/// The same at the table: an update of a wallet that its user may see puts
/// the merged row under the same id and leaves every other row alone.
pub proof fn lemma_update_touches_one_row(table: TableView, update: UpdateView)
    requires
        table.valid(),
        table.visible(update.key),
    ensures
        ({
            let after = table.updated(update);
            let merged = table.rows[update.key.id].with_change(update.change);
            &&& table.update_result(update) == Some(merged)
            &&& after.rows.dom() == table.rows.dom()
            &&& after.rows[update.key.id] == merged
            &&& forall|id: int|
                id != update.key.id && table.rows.dom().contains(id) ==> #[trigger] after.rows[id]
                    == table.rows[id]
            &&& after.next_id == table.next_id
            &&& after.select(update.key) == Some(merged)
            &&& after.valid()
        }),
{
    let after = table.updated(update);
    assert(after.rows.dom() =~= table.rows.dom());
}

/// Delete works once. On a wallet that its user may see, the first delete
/// says that a row went, and the row is gone while all others stay; a
/// second delete of the same wallet says that none went and changes nothing.
pub proof fn lemma_delete_twice(table: TableView, key: WalletKey)
    requires
        table.valid(),
        table.visible(key),
    ensures
        ({
            let once = table.removed(key);
            &&& !once.rows.dom().contains(key.id)
            &&& forall|id: int|
                id != key.id && table.rows.dom().contains(id) ==> #[trigger] once.rows.dom().contains(
                    id,
                ) && once.rows[id] == table.rows[id]
            &&& once.select(key) is None
            &&& !once.visible(key)
            &&& once.removed(key) == once
            &&& once.valid()
        }),
{
}

/// Create, then Get by the same user and the new id, returns the wallet that
/// Create returned, equal in every field.
pub proof fn lemma_create_then_get(table: TableView, new: NewWalletView, created_at: NaiveDateTime)
    requires
        table.valid(),
        table.has_room(),
    ensures
        ({
            let row = table.row_for(new, created_at);
            let after = table.inserted(new, created_at);
            after.select((WalletKey { owner: new.user_id, id: row.id })) == Some(row)
        }),
{
}

} // verus!
