//! The wallet record, the messages of the four operations, and how a request
//! becomes a message.

use vstd::prelude::*;
use chrono::NaiveDateTime;
use crate::db::error::{QueryError, StorageError};
use crate::request::{text_of, ChangeView, CreationView, WalletCreationRequest, WalletUpdateRequest};

verus! {

/// `chrono::NaiveDateTime`: a calendar date with a time of day, without a zone.
/// Nothing is claimed of what such a value holds. A record carries its
/// creation time from the store to the caller and never looks inside.
#[verifier::external_type_specification]
#[verifier::external_body]
pub struct ExNaiveDateTime(chrono::NaiveDateTime);

/// A user's wallet as the table holds it.
#[derive(Debug, PartialEq, Eq)]
pub struct Wallet {
    pub id: i64,
    pub user_id: i64,
    pub name: String,
    pub wallet_type: String,
    pub initial_balance: i64,
    pub current_balance: i64,
    pub color: String,
    pub created_at: NaiveDateTime,
}

/// A wallet as mathematics.
pub struct WalletView {
    pub id: int,
    pub user_id: int,
    pub name: Seq<char>,
    pub wallet_type: Seq<char>,
    pub initial_balance: int,
    pub current_balance: int,
    pub color: Seq<char>,
    pub created_at: NaiveDateTime,
}

impl View for Wallet {
    type V = WalletView;

    open spec fn view(&self) -> WalletView {
        WalletView {
            id: self.id as int,
            user_id: self.user_id as int,
            name: self.name@,
            wallet_type: self.wallet_type@,
            initial_balance: self.initial_balance as int,
            current_balance: self.current_balance as int,
            color: self.color@,
            created_at: self.created_at,
        }
    }
}

/// An optional record as mathematics.
pub open spec fn shown(w: Option<Wallet>) -> Option<WalletView> {
    match w {
        Some(w) => Some(w@),
        None => None,
    }
}

impl Clone for Wallet {
    fn clone(&self) -> (copy: Wallet)
        ensures
            copy == *self,
    {
        Wallet {
            id: self.id,
            user_id: self.user_id,
            name: self.name.clone(),
            wallet_type: self.wallet_type.clone(),
            initial_balance: self.initial_balance,
            current_balance: self.current_balance,
            color: self.color.clone(),
            created_at: self.created_at,
        }
    }
}

/// What a new wallet starts from: the record without what the table assigns.
#[derive(Debug, PartialEq, Eq)]
pub struct NewWallet {
    pub user_id: i64,
    pub name: String,
    pub wallet_type: String,
    pub initial_balance: i64,
    pub current_balance: i64,
    pub color: String,
}

/// A new wallet as mathematics.
pub struct NewWalletView {
    pub user_id: int,
    pub name: Seq<char>,
    pub wallet_type: Seq<char>,
    pub initial_balance: int,
    pub current_balance: int,
    pub color: Seq<char>,
}

impl View for NewWallet {
    type V = NewWalletView;

    open spec fn view(&self) -> NewWalletView {
        NewWalletView {
            user_id: self.user_id as int,
            name: self.name@,
            wallet_type: self.wallet_type@,
            initial_balance: self.initial_balance as int,
            current_balance: self.current_balance as int,
            color: self.color@,
        }
    }
}

/// Who asks, and for which wallet.
pub struct WalletKey {
    pub owner: int,
    pub id: int,
}

/// Message that asks for one wallet of one user.
#[derive(Debug, PartialEq, Eq)]
pub struct GetWallet {
    pub(crate) uid: i64,
    pub(crate) wid: i64,
}

impl View for GetWallet {
    type V = WalletKey;

    closed spec fn view(&self) -> WalletKey {
        WalletKey { owner: self.uid as int, id: self.wid as int }
    }
}

/// Message that changes the name, the type or the colour of one wallet of one
/// user. A field that is `None` is left as it is.
#[derive(Debug, PartialEq, Eq)]
pub struct UpdateWallet {
    pub uid: i64,
    pub wid: i64,
    pub name: Option<String>,
    pub wallet_type: Option<String>,
    pub color: Option<String>,
}

/// An update as mathematics: whose wallet, and what to change.
pub struct UpdateView {
    pub key: WalletKey,
    pub change: ChangeView,
}

impl View for UpdateWallet {
    type V = UpdateView;

    open spec fn view(&self) -> UpdateView {
        UpdateView {
            key: WalletKey { owner: self.uid as int, id: self.wid as int },
            change: ChangeView {
                name: text_of(self.name),
                wallet_type: text_of(self.wallet_type),
                color: text_of(self.color),
            },
        }
    }
}

/// Message that deletes one wallet of one user.
#[derive(Debug, PartialEq, Eq)]
pub struct DeleteWallet {
    pub(crate) uid: i64,
    pub(crate) wid: i64,
}

impl View for DeleteWallet {
    type V = WalletKey;

    closed spec fn view(&self) -> WalletKey {
        WalletKey { owner: self.uid as int, id: self.wid as int }
    }
}

impl NewWalletView {
    /// The new wallet that a creation request of `owner` stands for: both
    /// balances are the requested one, the texts are taken as they are.
    pub open spec fn from_request(owner: int, req: CreationView) -> NewWalletView {
        NewWalletView {
            user_id: owner,
            name: req.name,
            wallet_type: req.wallet_type,
            initial_balance: req.balance,
            current_balance: req.balance,
            color: req.color,
        }
    }
}

impl WalletView {
    /// The record is the one `key` names and belongs to the user who asks.
    pub open spec fn matches(self, key: WalletKey) -> bool {
        self.id == key.id && self.user_id == key.owner
    }

    /// The record after a change: each text that the change holds replaces
    /// the record's, everything else stays.
    pub open spec fn with_change(self, change: ChangeView) -> WalletView {
        WalletView {
            name: match change.name {
                Some(name) => name,
                None => self.name,
            },
            wallet_type: match change.wallet_type {
                Some(wallet_type) => wallet_type,
                None => self.wallet_type,
            },
            color: match change.color {
                Some(color) => color,
                None => self.color,
            },
            ..self
        }
    }
}

/// What an update does once the record has been looked for: the merged
/// record that is to be written, or nothing where the look-up gave no record,
/// be it that none was found or that the look-up itself failed.
pub open spec fn planned_write(
    change: ChangeView,
    fetched: Result<Option<Wallet>, StorageError>,
) -> Option<WalletView> {
    match fetched {
        Ok(Some(w)) => Some(w@.with_change(change)),
        _ => None,
    }
}

impl Wallet {
    /// Whether this is the record with id `wid` and user `uid` owns it.
    pub fn is_selected(&self, wid: i64, uid: i64) -> (yes: bool)
        ensures
            yes == self@.matches((WalletKey { owner: uid as int, id: wid as int })),
    {
        self.id == wid && self.user_id == uid
    }
}

impl NewWallet {
    /// The wallet that user `uid` asks for with `req`. It starts with both
    /// balances at the requested one.
    pub fn from_request(uid: i64, req: WalletCreationRequest) -> (new: NewWallet)
        ensures
            new@ == NewWalletView::from_request(uid as int, req@),
    {
        NewWallet {
            user_id: uid,
            name: req.name,
            wallet_type: req.wallet_type,
            initial_balance: req.balance,
            current_balance: req.balance,
            color: req.color,
        }
    }

    /// What Create returns, given what the table answered to the insert: the
    /// stored row, or the failure that the table's answer stands for.
    pub fn answer(stored: Result<Wallet, QueryError>) -> (res: Result<Wallet, StorageError>)
        ensures
            res == (match stored {
                Ok(row) => Ok::<Wallet, StorageError>(row),
                Err(e) => Err(e.failure()),
            }),
    {
        match stored {
            Ok(row) => Ok(row),
            Err(e) => Err(e.into_failure()),
        }
    }
}

impl GetWallet {
    /// User `user_id` asks for wallet `wallet_id`.
    pub fn new(user_id: i64, wallet_id: i64) -> (msg: GetWallet)
        ensures
            msg@ == (WalletKey { owner: user_id as int, id: wallet_id as int }),
    {
        GetWallet { wid: wallet_id, uid: user_id }
    }

    /// The user who asks.
    pub fn uid(&self) -> (uid: i64)
        ensures
            uid == self@.owner,
    {
        self.uid
    }

    /// The wallet asked for.
    pub fn wid(&self) -> (wid: i64)
        ensures
            wid == self@.id,
    {
        self.wid
    }

    /// What Get returns, given what the table answered to the look-up. That
    /// no row met the look-up is no error: it is the empty result. Any other
    /// answer without a row is the failure that it stands for.
    pub fn answer(row: Result<Wallet, QueryError>) -> (res: Result<Option<Wallet>, StorageError>)
        ensures
            res == (match row {
                Ok(w) => Ok::<Option<Wallet>, StorageError>(Some(w)),
                Err(QueryError::NotFound) => Ok(None),
                Err(e) => Err(e.failure()),
            }),
    {
        match row {
            Ok(w) => Ok(Some(w)),
            Err(QueryError::NotFound) => Ok(None),
            Err(e) => Err(e.into_failure()),
        }
    }
}

impl UpdateWallet {
    /// User `uid` asks to change wallet `wid` as `req` says.
    pub fn from_request(uid: i64, wid: i64, req: WalletUpdateRequest) -> (msg: UpdateWallet)
        ensures
            msg@ == (UpdateView {
                key: WalletKey { owner: uid as int, id: wid as int },
                change: req@,
            }),
    {
        UpdateWallet { uid: uid, wid: wid, name: req.name, wallet_type: req.wallet_type, color: req.color }
    }

    /// First step of an update: the look-up of the record, for the same user
    /// and wallet.
    pub fn lookup(&self) -> (msg: GetWallet)
        ensures
            msg@ == self@.key,
    {
        GetWallet::new(self.uid, self.wid)
    }

    /// Lays the fields that this update holds over `wallet`.
    pub fn merge(&self, wallet: Wallet) -> (merged: Wallet)
        ensures
            merged@ == wallet@.with_change(self@.change),
    {
        let mut w = wallet;
        match &self.name {
            Some(name) => {
                w.name = name.clone();
            },
            None => {},
        }
        match &self.wallet_type {
            Some(wallet_type) => {
                w.wallet_type = wallet_type.clone();
            },
            None => {},
        }
        match &self.color {
            Some(color) => {
                w.color = color.clone();
            },
            None => {},
        }
        w
    }

    /// Second step of an update, given what the look-up brought: the record
    /// to write back, with this update's fields laid over it. Where the
    /// look-up found nothing there is nothing to write, and a look-up that
    /// failed counts as one that found nothing.
    pub fn plan(&self, fetched: Result<Option<Wallet>, StorageError>) -> (write: Option<Wallet>)
        ensures
            shown(write) == planned_write(self@.change, fetched),
    {
        match fetched {
            Ok(Some(w)) => Some(self.merge(w)),
            _ => None,
        }
    }

    /// What Update returns, given what the table answered to the write: the
    /// row as written; the empty result where the row was no longer there;
    /// else the failure that the table's answer stands for.
    pub fn answer(written: Result<Wallet, QueryError>) -> (res: Result<
        Option<Wallet>,
        StorageError,
    >)
        ensures
            res == (match written {
                Ok(w) => Ok::<Option<Wallet>, StorageError>(Some(w)),
                Err(QueryError::NotFound) => Ok(None),
                Err(e) => Err(e.failure()),
            }),
    {
        GetWallet::answer(written)
    }
}

impl DeleteWallet {
    /// User `user_id` asks to delete wallet `wallet_id`.
    pub fn new(user_id: i64, wallet_id: i64) -> (msg: DeleteWallet)
        ensures
            msg@ == (WalletKey { owner: user_id as int, id: wallet_id as int }),
    {
        DeleteWallet { uid: user_id, wid: wallet_id }
    }

    /// The user who asks.
    pub fn uid(&self) -> (uid: i64)
        ensures
            uid == self@.owner,
    {
        self.uid
    }

    /// The wallet to delete.
    pub fn wid(&self) -> (wid: i64)
        ensures
            wid == self@.id,
    {
        self.wid
    }

    /// What Delete returns, given what the table answered: whether a row
    /// went, or the failure that the table's answer stands for.
    pub fn answer(removed: Result<usize, QueryError>) -> (res: Result<bool, StorageError>)
        ensures
            res == (match removed {
                Ok(rows) => Ok::<bool, StorageError>(rows > 0),
                Err(e) => Err(e.failure()),
            }),
    {
        match removed {
            Ok(rows) => Ok(rows > 0),
            Err(e) => Err(e.into_failure()),
        }
    }
}

} // verus!
