use smcont::entities::{
    decode_account_row, decode_account_rows, decode_category_row, encode_account_row,
    encode_category_row, validate_account, Account, Category, ACCOUNT_COLUMNS, CATEGORY_COLUMNS,
};
use smcont::ledger::{CategoryTree, Ledger};
use smcont::money::Money;
use smcont::transaction::{ConstraintViolation, StoredValue};

fn category(id: i32, parent_id: Option<i32>) -> Category {
    Category {
        id,
        parent_id,
        name: format!("category {}", id),
        description: None,
        _type: "expense".to_string(),
        color: "#000000".to_string(),
        icon: "mdi:bank".to_string(),
    }
}

fn account(id: i32) -> Account {
    Account {
        id,
        category_id: 1,
        parent_id: None,
        name: "Wallet".to_string(),
        description: Some("cash at hand".to_string()),
        _type: "cash".to_string(),
        balance: Money { magnitude: -1250, scale: 2 },
        is_virtual: false,
        budget: true,
        currency: "EUR".to_string(),
        color: "#112233".to_string(),
        icon: "mdi:wallet".to_string(),
    }
}

#[test]
fn category_row_round_trip() {
    let c = category(2, Some(1));
    let row = encode_category_row(&c);
    assert_eq!(row.len(), CATEGORY_COLUMNS);
    assert_eq!(row[1], StoredValue::Integer(1));
    assert_eq!(row[3], StoredValue::Null);
    assert_eq!(decode_category_row(&row), Some(c));
}

#[test]
fn account_row_round_trip() {
    let a = account(7);
    let row = encode_account_row(&a);
    assert_eq!(row.len(), ACCOUNT_COLUMNS);
    assert_eq!(row[6], StoredValue::Integer(-1250));
    assert_eq!(row[7], StoredValue::Integer(2));
    assert_eq!(row[8], StoredValue::Integer(0));
    assert_eq!(row[9], StoredValue::Integer(1));
    assert_eq!(decode_account_row(&row), Some(a));
}

#[test]
fn account_rows_with_bad_flags_are_skipped() {
    let mut bad = encode_account_row(&account(2));
    bad[8] = StoredValue::Integer(2);
    let rows = vec![encode_account_row(&account(1)), bad, encode_account_row(&account(3))];
    assert_eq!(decode_account_rows(&rows), vec![account(1), account(3)]);
}

#[test]
fn account_balance_scale_is_checked() {
    assert_eq!(validate_account(&account(1)), Ok(()));
    let mut a = account(1);
    a.balance = Money { magnitude: 1, scale: 19 };
    assert_eq!(validate_account(&a), Err(ConstraintViolation::InvalidScale));
}

#[test]
fn ledger_keeps_category_trees_apart() {
    let mut ledger = Ledger::new();
    assert_eq!(
        ledger.insert_category(CategoryTree::Transactions, category(1, None)),
        Ok(category(1, None))
    );
    assert_eq!(
        ledger.insert_category(CategoryTree::Transactions, category(2, Some(1))),
        Ok(category(2, Some(1)))
    );
    assert_eq!(
        ledger.insert_category(CategoryTree::Accounts, category(1, None)),
        Ok(category(1, None))
    );
    assert_eq!(
        ledger.insert_category(CategoryTree::Transactions, category(1, None)),
        Err(ConstraintViolation::DuplicateId)
    );
    assert_eq!(
        ledger.list_categories(CategoryTree::Transactions),
        vec![category(1, None), category(2, Some(1))]
    );
    assert_eq!(ledger.list_categories(CategoryTree::Accounts), vec![category(1, None)]);
    assert!(ledger.list_transactions().is_empty());
}

#[test]
fn ledger_accounts_insert_and_list() {
    let mut ledger = Ledger::new();
    assert_eq!(ledger.insert_account(account(1)), Err(ConstraintViolation::UnknownReference));
    ledger.insert_category(CategoryTree::Accounts, category(1, None)).unwrap();
    assert_eq!(ledger.insert_account(account(1)), Ok(account(1)));
    assert_eq!(ledger.insert_account(account(1)), Err(ConstraintViolation::DuplicateId));
    let mut a = account(2);
    a.balance = Money { magnitude: 5, scale: 30 };
    assert_eq!(ledger.insert_account(a), Err(ConstraintViolation::InvalidScale));
    assert_eq!(ledger.list_accounts(), vec![account(1)]);
}

#[test]
fn ledger_refuses_unknown_parents() {
    let mut ledger = Ledger::new();
    assert_eq!(
        ledger.insert_category(CategoryTree::Transactions, category(2, Some(1))),
        Err(ConstraintViolation::UnknownReference)
    );
    ledger.insert_category(CategoryTree::Accounts, category(1, None)).unwrap();
    assert_eq!(
        ledger.insert_category(CategoryTree::Transactions, category(2, Some(1))),
        Err(ConstraintViolation::UnknownReference)
    );
    let mut a = account(2);
    a.parent_id = Some(1);
    assert_eq!(ledger.insert_account(a.clone()), Err(ConstraintViolation::UnknownReference));
    ledger.insert_account(account(1)).unwrap();
    assert_eq!(ledger.insert_account(a.clone()), Ok(a));
    assert!(ledger.list_categories(CategoryTree::Transactions).is_empty());
}
