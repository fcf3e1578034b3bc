//! Payloads as they arrive from a client, already decoded.

use vstd::prelude::*;

verus! {

/// What a client sends to open a wallet.
#[derive(Debug, PartialEq, Eq)]
pub struct WalletCreationRequest {
    pub name: String,
    pub wallet_type: String,
    pub balance: i64,
    pub color: String,
}

/// What a client sends to change a wallet. A field left out keeps its value.
#[derive(Debug, PartialEq, Eq)]
pub struct WalletUpdateRequest {
    pub name: Option<String>,
    pub wallet_type: Option<String>,
    pub color: Option<String>,
}

/// A creation request as mathematics: texts as sequences, the balance unbounded.
pub struct CreationView {
    pub name: Seq<char>,
    pub wallet_type: Seq<char>,
    pub balance: int,
    pub color: Seq<char>,
}

/// The three optional texts of a change.
pub struct ChangeView {
    pub name: Option<Seq<char>>,
    pub wallet_type: Option<Seq<char>>,
    pub color: Option<Seq<char>>,
}

/// The characters of an optional text.
pub open spec fn text_of(t: Option<String>) -> Option<Seq<char>> {
    match t {
        Some(s) => Some(s@),
        None => None,
    }
}

impl View for WalletCreationRequest {
    type V = CreationView;

    open spec fn view(&self) -> CreationView {
        CreationView {
            name: self.name@,
            wallet_type: self.wallet_type@,
            balance: self.balance as int,
            color: self.color@,
        }
    }
}

impl View for WalletUpdateRequest {
    type V = ChangeView;

    open spec fn view(&self) -> ChangeView {
        ChangeView {
            name: text_of(self.name),
            wallet_type: text_of(self.wallet_type),
            color: text_of(self.color),
        }
    }
}

impl ChangeView {
    /// No field is present: the change asks for nothing.
    pub open spec fn is_empty(self) -> bool {
        self.name is None && self.wallet_type is None && self.color is None
    }
}

} // verus!
