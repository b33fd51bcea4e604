use smcont::entities::{Account, Category};
use smcont::kinds::{PaymentMethod, TransactionStatus, TransactionType};
use smcont::ledger::{decode_rows, CategoryTree, Ledger};
use smcont::money::Money;
use smcont::transaction::{
    decode_row, encode_row, validate, ConstraintViolation, StoredValue, Transaction,
    TRANSACTION_COLUMNS,
};

fn sample(id: i32) -> Transaction {
    Transaction {
        id,
        category_id: 1,
        from_account_id: Some(2),
        to_account_id: None,
        _type: TransactionType::Expense,
        status: TransactionStatus::Completed,
        method: PaymentMethod::Other,
        amount: Money { magnitude: 1550, scale: 2 },
        date: "2024-05-01T10:00:00+00:00".to_string(),
        transaction_date: "2024-04-30T18:30:00+00:00".to_string(),
        scheduled_date: None,
        description: "groceries".to_string(),
        notes: String::new(),
        tags: "food,weekly".to_string(),
        color: "#000000".to_string(),
        icon: "mdi:bank".to_string(),
    }
}

fn category(id: i32) -> Category {
    Category {
        id,
        parent_id: None,
        name: "General".to_string(),
        description: None,
        _type: "expense".to_string(),
        color: "#000000".to_string(),
        icon: "mdi:bank".to_string(),
    }
}

fn account(id: i32) -> Account {
    Account {
        id,
        category_id: 1,
        parent_id: None,
        name: format!("account {}", id),
        description: None,
        _type: "bank".to_string(),
        balance: Money { magnitude: 0, scale: 2 },
        is_virtual: false,
        budget: false,
        currency: "EUR".to_string(),
        color: "#000000".to_string(),
        icon: "mdi:bank".to_string(),
    }
}

/// A ledger holding transactions category 1, accounts category 1 and
/// accounts 2, 3 and 5, and no transactions.
fn seeded() -> Ledger {
    let mut ledger = Ledger::new();
    ledger.insert_category(CategoryTree::Transactions, category(1)).unwrap();
    ledger.insert_category(CategoryTree::Accounts, category(1)).unwrap();
    for id in [2, 3, 5] {
        ledger.insert_account(account(id)).unwrap();
    }
    ledger
}

#[test]
fn kinds_round_trip_through_text() {
    for t in [
        TransactionType::Income,
        TransactionType::Expense,
        TransactionType::Transfer,
        TransactionType::Reimbursement,
        TransactionType::Refund,
        TransactionType::Other,
    ] {
        assert_eq!(TransactionType::parse(&t.as_str().to_string()), Some(t));
    }
    for s in [
        TransactionStatus::Pending,
        TransactionStatus::Completed,
        TransactionStatus::Cancelled,
        TransactionStatus::Failed,
    ] {
        assert_eq!(TransactionStatus::parse(&s.as_str().to_string()), Some(s));
    }
    assert_eq!(PaymentMethod::BankTransfer.as_str(), "bank_transfer");
    assert_eq!(PaymentMethod::parse(&"apple".to_string()), Some(PaymentMethod::Apple));
    assert_eq!(TransactionType::parse(&"Income".to_string()), None);
    assert_eq!(TransactionStatus::default_value(), TransactionStatus::Completed);
    assert_eq!(PaymentMethod::default_value(), PaymentMethod::Other);
}

#[test]
fn validate_accepts_valid_transactions() {
    assert_eq!(validate(&sample(1)), Ok(()));
    let mut t = sample(1);
    t._type = TransactionType::Transfer;
    t.to_account_id = Some(3);
    assert_eq!(validate(&t), Ok(()));
    let mut t = sample(1);
    t.from_account_id = None;
    t.to_account_id = Some(3);
    t._type = TransactionType::Income;
    assert_eq!(validate(&t), Ok(()));
}

#[test]
fn validate_reports_each_violation() {
    let mut t = sample(1);
    t._type = TransactionType::Transfer;
    assert_eq!(validate(&t), Err(ConstraintViolation::MissingAccount));
    t.to_account_id = Some(2);
    assert_eq!(validate(&t), Err(ConstraintViolation::SameAccount));
    let mut t = sample(1);
    t.from_account_id = None;
    assert_eq!(validate(&t), Err(ConstraintViolation::MissingAccount));
    let mut t = sample(1);
    t.amount = Money { magnitude: -1, scale: 2 };
    assert_eq!(validate(&t), Err(ConstraintViolation::NegativeAmount));
    let mut t = sample(1);
    t.amount = Money { magnitude: 1, scale: 19 };
    assert_eq!(validate(&t), Err(ConstraintViolation::InvalidScale));
}

#[test]
fn encoded_row_holds_columns_in_order() {
    let row = encode_row(&sample(9));
    assert_eq!(row.len(), TRANSACTION_COLUMNS);
    assert_eq!(row[0], StoredValue::Integer(9));
    assert_eq!(row[3], StoredValue::Null);
    assert_eq!(row[4], StoredValue::Text("expense".to_string()));
    assert_eq!(row[5], StoredValue::Text("completed".to_string()));
    assert_eq!(row[6], StoredValue::Text("other".to_string()));
    assert_eq!(row[7], StoredValue::Integer(1550));
    assert_eq!(row[8], StoredValue::Integer(2));
    assert_eq!(row[11], StoredValue::Null);
    assert_eq!(row[16], StoredValue::Text("mdi:bank".to_string()));
}

#[test]
fn decode_reads_back_encoded_row() {
    let mut t = sample(4);
    t.scheduled_date = Some("2024-06-01".to_string());
    t.status = TransactionStatus::Pending;
    assert_eq!(decode_row(&encode_row(&t)), Some(t));
}

#[test]
fn decode_refuses_bad_rows() {
    let mut row = encode_row(&sample(4));
    row[4] = StoredValue::Text("gift".to_string());
    assert_eq!(decode_row(&row), None);
    let mut row = encode_row(&sample(4));
    row[0] = StoredValue::Integer(i64::from(i32::MAX) + 1);
    assert_eq!(decode_row(&row), None);
    let mut row = encode_row(&sample(4));
    row[12] = StoredValue::Null;
    assert_eq!(decode_row(&row), None);
    let mut row = encode_row(&sample(4));
    row[8] = StoredValue::Integer(-1);
    assert_eq!(decode_row(&row), None);
    let mut row = encode_row(&sample(4));
    row[7] = StoredValue::Other;
    assert_eq!(decode_row(&row), None);
    let mut row = encode_row(&sample(4));
    row.pop();
    assert_eq!(decode_row(&row), None);
}

#[test]
fn fresh_store_scenario() {
    let mut ledger = seeded();
    assert!(ledger.list_transactions().is_empty());
    let t = sample(1);
    assert_eq!(ledger.insert_transaction(t.clone()), Ok(t.clone()));
    let listed = ledger.list_transactions();
    assert_eq!(listed.len(), 1);
    assert_eq!(listed[0], t);
    assert_eq!(listed[0].amount.to_decimal_string(), "15.50");
}

#[test]
fn insert_then_list_round_trip() {
    let mut ledger = seeded();
    let mut t = sample(3);
    t._type = TransactionType::Transfer;
    t.to_account_id = Some(5);
    t.method = PaymentMethod::Card;
    t.scheduled_date = Some("2025-01-01".to_string());
    ledger.insert_transaction(sample(1)).unwrap();
    ledger.insert_transaction(t.clone()).unwrap();
    assert_eq!(ledger.list_transactions(), vec![sample(1), t]);
}

#[test]
fn transfer_without_destination_is_refused() {
    let mut ledger = seeded();
    ledger.insert_transaction(sample(1)).unwrap();
    let mut t = sample(2);
    t._type = TransactionType::Transfer;
    t.to_account_id = None;
    assert_eq!(ledger.insert_transaction(t), Err(ConstraintViolation::MissingAccount));
    assert_eq!(ledger.list_transactions().len(), 1);
    assert_eq!(ledger.row_count(), 1);
}

#[test]
fn duplicate_id_is_refused() {
    let mut ledger = seeded();
    ledger.insert_transaction(sample(1)).unwrap();
    assert_eq!(ledger.insert_transaction(sample(1)), Err(ConstraintViolation::DuplicateId));
    assert_eq!(ledger.row_count(), 1);
}

#[test]
fn corrupt_row_is_skipped() {
    let mut bad = encode_row(&sample(2));
    bad[5] = StoredValue::Text("archived".to_string());
    let rows = vec![encode_row(&sample(1)), bad, encode_row(&sample(3))];
    assert_eq!(decode_rows(&rows), vec![sample(1), sample(3)]);
    let ledger = Ledger::from_rows(rows);
    assert_eq!(ledger.row_count(), 3);
    assert_eq!(ledger.list_transactions(), vec![sample(1), sample(3)]);
}

#[test]
fn distinct_inserts_all_land() {
    for order in [[1, 2, 3, 4, 5], [5, 3, 1, 4, 2]] {
        let mut ledger = seeded();
        for id in order {
            assert_eq!(ledger.insert_transaction(sample(id)), Ok(sample(id)));
        }
        let listed = ledger.list_transactions();
        assert_eq!(listed.len(), 5);
        let ids: Vec<i32> = listed.iter().map(|t| t.id).collect();
        assert_eq!(ids, order.to_vec());
    }
}

#[test]
fn defaults_fill_unset_fields() {
    let t = Transaction::with_defaults(
        8,
        1,
        Some(2),
        None,
        TransactionType::Expense,
        1550,
        "2024-05-01".to_string(),
        "2024-05-01".to_string(),
    );
    assert_eq!(t.status, TransactionStatus::Completed);
    assert_eq!(t.method, PaymentMethod::Other);
    assert_eq!(t.amount, Money { magnitude: 1550, scale: 2 });
    assert_eq!(t.amount.to_decimal_string(), "15.50");
    assert_eq!(t.scheduled_date, None);
    assert_eq!(t.color, "#000000");
    assert_eq!(t.icon, "mdi:bank");
    assert_eq!(t.description, "");
    assert_eq!(validate(&t), Ok(()));
}

#[test]
fn unknown_references_are_refused() {
    let mut ledger = Ledger::new();
    assert_eq!(ledger.insert_transaction(sample(1)), Err(ConstraintViolation::UnknownReference));
    let mut ledger = seeded();
    let mut t = sample(1);
    t.category_id = 9;
    assert_eq!(ledger.insert_transaction(t), Err(ConstraintViolation::UnknownReference));
    let mut t = sample(1);
    t.from_account_id = Some(4);
    assert_eq!(ledger.insert_transaction(t), Err(ConstraintViolation::UnknownReference));
    let mut t = sample(1);
    t._type = TransactionType::Transfer;
    t.to_account_id = Some(7);
    assert_eq!(ledger.insert_transaction(t), Err(ConstraintViolation::UnknownReference));
    assert_eq!(ledger.row_count(), 0);
    assert!(ledger.list_transactions().is_empty());
}
