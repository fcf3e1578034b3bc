use chrono::{NaiveDate, NaiveDateTime};
use wallet_service::db::error::{QueryError, StorageError};
use wallet_service::db::wallet::{DeleteWallet, GetWallet, NewWallet, UpdateWallet, Wallet};
use wallet_service::request::{WalletCreationRequest, WalletUpdateRequest};

fn midnight() -> NaiveDateTime {
    NaiveDate::from_ymd_opt(2023, 11, 5).unwrap().and_hms_opt(0, 0, 0).unwrap()
}

fn travel() -> Wallet {
    Wallet {
        id: 12,
        user_id: 3,
        name: "Travel".to_string(),
        wallet_type: "savings".to_string(),
        initial_balance: 1000,
        current_balance: 1000,
        color: "#abc".to_string(),
        created_at: midnight(),
    }
}

fn update(name: Option<&str>, wallet_type: Option<&str>, color: Option<&str>) -> UpdateWallet {
    UpdateWallet {
        uid: 3,
        wid: 12,
        name: name.map(|s| s.to_string()),
        wallet_type: wallet_type.map(|s| s.to_string()),
        color: color.map(|s| s.to_string()),
    }
}

#[test]
fn new_wallet_takes_owner_and_balance_from_the_request() {
    let new = NewWallet::from_request(
        42,
        WalletCreationRequest {
            name: "Rent".to_string(),
            wallet_type: "savings".to_string(),
            balance: 500,
            color: "#fff".to_string(),
        },
    );
    assert_eq!(
        new,
        NewWallet {
            user_id: 42,
            name: "Rent".to_string(),
            wallet_type: "savings".to_string(),
            initial_balance: 500,
            current_balance: 500,
            color: "#fff".to_string(),
        }
    );
}

#[test]
fn new_wallet_keeps_extreme_balances_and_empty_texts() {
    for balance in [i64::MIN, -1, 0, i64::MAX] {
        let new = NewWallet::from_request(
            i64::MIN,
            WalletCreationRequest {
                name: String::new(),
                wallet_type: String::new(),
                balance,
                color: String::new(),
            },
        );
        assert_eq!(new.user_id, i64::MIN);
        assert_eq!(new.initial_balance, balance);
        assert_eq!(new.current_balance, balance);
        assert_eq!(new.name, "");
        assert_eq!(new.wallet_type, "");
        assert_eq!(new.color, "");
    }
}

#[test]
fn get_wallet_holds_user_and_wallet() {
    let msg = GetWallet::new(4, 9);
    assert_eq!(msg.uid(), 4);
    assert_eq!(msg.wid(), 9);
    assert_ne!(GetWallet::new(4, 9), GetWallet::new(9, 4));
}

#[test]
fn delete_wallet_holds_user_and_wallet() {
    let msg = DeleteWallet::new(4, 9);
    assert_eq!(msg.uid(), 4);
    assert_eq!(msg.wid(), 9);
    assert_ne!(DeleteWallet::new(4, 9), DeleteWallet::new(9, 4));
}

#[test]
fn update_wallet_takes_each_field_as_the_request_has_it() {
    let msg = UpdateWallet::from_request(
        3,
        12,
        WalletUpdateRequest { name: None, wallet_type: Some("cash".to_string()), color: None },
    );
    assert_eq!(msg, update(None, Some("cash"), None));

    let all = UpdateWallet::from_request(
        3,
        12,
        WalletUpdateRequest {
            name: Some("a".to_string()),
            wallet_type: Some("b".to_string()),
            color: Some("c".to_string()),
        },
    );
    assert_eq!(all, update(Some("a"), Some("b"), Some("c")));
}

#[test]
fn update_looks_up_its_own_user_and_wallet() {
    let lookup = update(Some("x"), None, None).lookup();
    assert_eq!(lookup, GetWallet::new(3, 12));
    assert_eq!(lookup.uid(), 3);
    assert_eq!(lookup.wid(), 12);
}

#[test]
fn merge_without_fields_is_the_wallet() {
    assert_eq!(update(None, None, None).merge(travel()), travel());
}

#[test]
fn merge_lays_each_present_field_over_the_wallet() {
    let named = update(Some("Holiday"), None, None).merge(travel());
    assert_eq!(named, Wallet { name: "Holiday".to_string(), ..travel() });

    let typed = update(None, Some("cash"), None).merge(travel());
    assert_eq!(typed, Wallet { wallet_type: "cash".to_string(), ..travel() });

    let coloured = update(None, None, Some("#000")).merge(travel());
    assert_eq!(coloured, Wallet { color: "#000".to_string(), ..travel() });

    let all = update(Some("n"), Some("t"), Some("c")).merge(travel());
    assert_eq!(
        all,
        Wallet {
            name: "n".to_string(),
            wallet_type: "t".to_string(),
            color: "c".to_string(),
            ..travel()
        }
    );
}

#[test]
fn merge_can_set_a_text_to_empty() {
    let merged = update(Some(""), None, None).merge(travel());
    assert_eq!(merged.name, "");
    assert_eq!(merged.wallet_type, "savings");
}

#[test]
fn merge_does_not_look_at_the_ids_of_the_update() {
    let other = UpdateWallet { uid: 99, wid: 77, name: Some("n".to_string()), wallet_type: None, color: None };
    let merged = other.merge(travel());
    assert_eq!(merged.id, 12);
    assert_eq!(merged.user_id, 3);
    assert_eq!(merged.name, "n");
}

#[test]
fn plan_writes_the_merged_wallet_when_one_was_found() {
    let fetched: Result<Option<Wallet>, StorageError> = Ok(Some(travel()));
    let write = update(None, None, Some("#000")).plan(fetched);
    assert_eq!(write, Some(Wallet { color: "#000".to_string(), ..travel() }));
}

#[test]
fn plan_writes_nothing_when_none_was_found() {
    let fetched: Result<Option<Wallet>, StorageError> = Ok(None);
    assert_eq!(update(Some("x"), None, None).plan(fetched), None);
}

#[test]
fn plan_takes_a_failed_lookup_for_not_found() {
    let failed: Result<Option<Wallet>, StorageError> = Err(StorageError::Failed);
    assert_eq!(update(Some("x"), None, None).plan(failed), None);

    assert_eq!(update(Some("x"), None, None).plan(Err(StorageError::PoolUnavailable)), None);
    assert_eq!(update(None, None, None).plan(Err(StorageError::Failed)), None);
}

#[test]
fn create_answers_with_the_stored_row() {
    assert_eq!(NewWallet::answer(Ok(travel())), Ok(travel()));
}

#[test]
fn create_fails_on_every_answer_without_a_row() {
    assert_eq!(NewWallet::answer(Err(QueryError::Failed)), Err(StorageError::Failed));
    assert_eq!(NewWallet::answer(Err(QueryError::NotFound)), Err(StorageError::Failed));
    assert_eq!(NewWallet::answer(Err(QueryError::NoConnection)), Err(StorageError::PoolUnavailable));
}

#[test]
fn get_answers_with_the_row_found() {
    assert_eq!(GetWallet::answer(Ok(travel())), Ok(Some(travel())));
}

#[test]
fn get_takes_not_found_for_the_empty_result() {
    assert_eq!(GetWallet::answer(Err(QueryError::NotFound)), Ok(None));
}

#[test]
fn get_fails_on_a_failed_lookup() {
    assert_eq!(GetWallet::answer(Err(QueryError::Failed)), Err(StorageError::Failed));
    assert_eq!(GetWallet::answer(Err(QueryError::NoConnection)), Err(StorageError::PoolUnavailable));
}

#[test]
fn update_answers_as_get_does() {
    assert_eq!(UpdateWallet::answer(Ok(travel())), Ok(Some(travel())));
    assert_eq!(UpdateWallet::answer(Err(QueryError::NotFound)), Ok(None));
    assert_eq!(UpdateWallet::answer(Err(QueryError::Failed)), Err(StorageError::Failed));
    assert_eq!(
        UpdateWallet::answer(Err(QueryError::NoConnection)),
        Err(StorageError::PoolUnavailable)
    );
}

#[test]
fn delete_says_true_from_one_row_on() {
    assert_eq!(DeleteWallet::answer(Ok(0)), Ok(false));
    assert_eq!(DeleteWallet::answer(Ok(1)), Ok(true));
    assert_eq!(DeleteWallet::answer(Ok(2)), Ok(true));
    assert_eq!(DeleteWallet::answer(Ok(usize::MAX)), Ok(true));
}

#[test]
fn delete_fails_on_every_answer_without_a_count() {
    assert_eq!(DeleteWallet::answer(Err(QueryError::Failed)), Err(StorageError::Failed));
    assert_eq!(DeleteWallet::answer(Err(QueryError::NotFound)), Err(StorageError::Failed));
    assert_eq!(
        DeleteWallet::answer(Err(QueryError::NoConnection)),
        Err(StorageError::PoolUnavailable)
    );
}

#[test]
fn only_the_want_of_a_connection_stays_apart() {
    assert_eq!(QueryError::NotFound.into_failure(), StorageError::Failed);
    assert_eq!(QueryError::Failed.into_failure(), StorageError::Failed);
    assert_eq!(QueryError::NoConnection.into_failure(), StorageError::PoolUnavailable);
}

#[test]
fn is_selected_needs_both_id_and_owner() {
    let w = travel();
    assert!(w.is_selected(12, 3));
    assert!(!w.is_selected(12, 4));
    assert!(!w.is_selected(13, 3));
    assert!(!w.is_selected(3, 12));
}

#[test]
fn clone_of_a_wallet_is_equal() {
    let w = travel();
    let copy = w.clone();
    assert_eq!(copy, w);
    assert_eq!(copy.created_at, midnight());
}
