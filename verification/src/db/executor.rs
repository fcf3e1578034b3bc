//! The four operations on wallets. Each one acts for a user, and a user
//! reaches no wallet but their own.

use vstd::prelude::*;
use chrono::NaiveDateTime;
use crate::db::error::StorageError;
use crate::db::store::{TableView, WalletStore};
use crate::db::wallet::{shown, DeleteWallet, GetWallet, NewWallet, UpdateWallet, Wallet};

verus! {

/// Carries out the wallet messages on the table that it holds.
pub struct DatabaseExecutor {
    store: WalletStore,
}

impl View for DatabaseExecutor {
    type V = TableView;

    closed spec fn view(&self) -> TableView {
        self.store@
    }
}

impl DatabaseExecutor {
    /// An executor over an empty table.
    pub fn new() -> (executor: DatabaseExecutor)
        ensures
            executor@ == TableView::empty(1),
            executor@.valid(),
    {
        DatabaseExecutor { store: WalletStore::new() }
    }

    /// An executor over the given table.
    pub fn over(store: WalletStore) -> (executor: DatabaseExecutor)
        ensures
            executor@ == store@,
    {
        DatabaseExecutor { store: store }
    }

    /// Create: inserts the wallet that `msg` describes and returns the row as
    /// the table now holds it, with its new id and with `created_at` as its
    /// creation time. Whether this user has wallets already is not asked.
    /// Fails, and changes nothing, when the table has no id left.
    pub fn create(&mut self, msg: NewWallet, created_at: NaiveDateTime) -> (res: Result<
        Wallet,
        StorageError,
    >)
        ensures
            old(self)@.has_room() ==> res is Ok && res->Ok_0@ == old(self)@.row_for(msg@, created_at)
                && final(self)@ == old(self)@.inserted(msg@, created_at),
            !old(self)@.has_room() ==> res == Err::<Wallet, StorageError>(StorageError::Failed)
                && final(self)@ == old(self)@,
            final(self)@.valid(),
    {
        NewWallet::answer(self.store.insert(msg, created_at))
    }

    /// Get: the wallet with the id of `msg`, if the user of `msg` owns it.
    /// A wallet of somebody else is as absent as one that does not exist.
    pub fn get(&self, msg: GetWallet) -> (res: Result<Option<Wallet>, StorageError>)
        ensures
            res is Ok,
            shown(res->Ok_0) == self@.select(msg@),
            self@.valid(),
    {
        GetWallet::answer(self.store.select(msg.wid(), msg.uid()))
    }

    /// Update: looks the wallet up as Get does, lays the fields of `msg` over
    /// the row found, writes the whole row back and returns it as written.
    /// Where Get finds nothing, nothing is written and nothing returned.
    pub fn update(&mut self, msg: UpdateWallet) -> (res: Result<Option<Wallet>, StorageError>)
        ensures
            res is Ok,
            shown(res->Ok_0) == old(self)@.update_result(msg@),
            final(self)@ == old(self)@.updated(msg@),
            final(self)@.valid(),
    {
        let fetched = self.get(msg.lookup());
        match msg.plan(fetched) {
            Some(row) => UpdateWallet::answer(self.store.replace(row)),
            None => Ok(None),
        }
    }

    /// Delete: removes the wallet with the id of `msg` if the user of `msg`
    /// owns it, and says whether a row went.
    pub fn delete(&mut self, msg: DeleteWallet) -> (res: Result<bool, StorageError>)
        ensures
            res is Ok,
            res->Ok_0 == old(self)@.visible(msg@),
            final(self)@ == old(self)@.removed(msg@),
            final(self)@.valid(),
    {
        DeleteWallet::answer(Ok(self.store.delete(msg.wid(), msg.uid())))
    }
}

} // verus!
