use vstd::prelude::*;

use crate::kinds::{
    lemma_payment_method_text_round_trip, lemma_transaction_status_text_round_trip,
    lemma_transaction_type_text_round_trip, PaymentMethod, TransactionStatus, TransactionType,
};
use crate::money::{Money, MAX_SCALE};

verus! {

/// The number of columns a stored transaction row has, in this order:
/// id, category_id, from_account_id, to_account_id, type, status, method,
/// amount, amount_decimal, date, transaction_date, scheduled_date,
/// description, notes, tags, color, icon.
pub const TRANSACTION_COLUMNS: usize = 17;

/// One value of a stored row, as the store hands it out. `Other` stands for
/// any value no column of the ledger is declared to hold (a real number, a
/// blob, text that is not UTF-8).
#[derive(Debug, Clone, PartialEq)]
pub enum StoredValue {
    Null,
    Integer(i64),
    Text(String),
    Other,
}

/// A constraint a write broke; the write is refused as a whole.
#[derive(Debug, Clone, Copy, PartialEq, Eq, Structural)]
pub enum ConstraintViolation {
    /// The amount carries more decimal places than `MAX_SCALE`.
    InvalidScale,
    /// The amount is negative: direction is carried by the type and the accounts.
    NegativeAmount,
    /// A transfer lacks one of its two accounts, or another transaction lacks both.
    MissingAccount,
    /// A transfer names the same account on both sides.
    SameAccount,
    /// A record with this id is already stored in its table.
    DuplicateId,
    /// A category, parent or account the record refers to is not stored.
    UnknownReference,
}

/// A money movement between accounts, classified under a category.
#[derive(Debug, Clone, PartialEq)]
pub struct Transaction {
    pub id: i32,
    pub category_id: i32,
    pub from_account_id: Option<i32>,
    pub to_account_id: Option<i32>,
    pub _type: TransactionType,
    pub status: TransactionStatus,
    pub method: PaymentMethod,
    pub amount: Money,
    /// When the record was created or posted (ISO 8601 text).
    pub date: String,
    /// When the economic event took place (ISO 8601 text).
    pub transaction_date: String,
    /// When a pending transaction is due (ISO 8601 text).
    pub scheduled_date: Option<String>,
    pub description: String,
    pub notes: String,
    /// Comma-separated labels.
    pub tags: String,
    /// A hex colour such as `#000000`.
    pub color: String,
    /// An icon name such as `mdi:bank`.
    pub icon: String,
}

/// The number of decimal places an amount takes when none is given.
pub const DEFAULT_SCALE: u32 = 2;

/// The colour a record takes when none is given.
pub const DEFAULT_COLOR: &'static str = "#000000";

/// The icon a record takes when none is given.
pub const DEFAULT_ICON: &'static str = "mdi:bank";

impl Transaction {
    /// A completed transaction paid by an unspecified method, with its
    /// amount at two decimal places, no schedule, empty texts, and the
    /// default colour and icon.
    pub fn with_defaults(
        id: i32,
        category_id: i32,
        from_account_id: Option<i32>,
        to_account_id: Option<i32>,
        kind: TransactionType,
        amount: i64,
        date: String,
        transaction_date: String,
    ) -> (r: Transaction)
        ensures
            r.id == id,
            r.category_id == category_id,
            r.from_account_id == from_account_id,
            r.to_account_id == to_account_id,
            r._type == kind,
            r.status == TransactionStatus::Completed,
            r.method == PaymentMethod::Other,
            r.amount == (Money { magnitude: amount, scale: DEFAULT_SCALE }),
            r.date == date,
            r.transaction_date == transaction_date,
            r.scheduled_date.is_none(),
            r.description@.len() == 0,
            r.notes@.len() == 0,
            r.tags@.len() == 0,
            r.color@ == DEFAULT_COLOR@,
            r.icon@ == DEFAULT_ICON@,
    {
        Transaction {
            id,
            category_id,
            from_account_id,
            to_account_id,
            _type: kind,
            status: TransactionStatus::default_value(),
            method: PaymentMethod::default_value(),
            amount: Money { magnitude: amount, scale: DEFAULT_SCALE },
            date,
            transaction_date,
            scheduled_date: None,
            description: String::new(),
            notes: String::new(),
            tags: String::new(),
            color: DEFAULT_COLOR.to_owned(),
            icon: DEFAULT_ICON.to_owned(),
        }
    }
}

/// The first constraint `t` breaks, if any: the amount's scale, its sign,
/// then the account references its type asks for.
pub open spec fn violation(t: Transaction) -> Option<ConstraintViolation> {
    if !t.amount.wf() {
        Some(ConstraintViolation::InvalidScale)
    } else if t.amount.magnitude < 0 {
        Some(ConstraintViolation::NegativeAmount)
    } else if t._type == TransactionType::Transfer {
        if t.from_account_id.is_none() || t.to_account_id.is_none() {
            Some(ConstraintViolation::MissingAccount)
        } else if t.from_account_id == t.to_account_id {
            Some(ConstraintViolation::SameAccount)
        } else {
            None
        }
    } else if t.from_account_id.is_none() && t.to_account_id.is_none() {
        Some(ConstraintViolation::MissingAccount)
    } else {
        None
    }
}

pub open spec fn valid_transaction(t: Transaction) -> bool {
    violation(t).is_none()
}

/// Checks the constraints a transaction must meet before it is stored.
pub fn validate(t: &Transaction) -> (r: Result<(), ConstraintViolation>)
    ensures
        match violation(*t) {
            Some(e) => r == Err::<(), ConstraintViolation>(e),
            None => r == Ok::<(), ConstraintViolation>(()),
        },
{
    if t.amount.scale > MAX_SCALE {
        Err(ConstraintViolation::InvalidScale)
    } else if t.amount.magnitude < 0 {
        Err(ConstraintViolation::NegativeAmount)
    } else if t._type == TransactionType::Transfer {
        match (t.from_account_id, t.to_account_id) {
            (Some(from), Some(to)) => {
                if from == to {
                    Err(ConstraintViolation::SameAccount)
                } else {
                    Ok(())
                }
            },
            _ => Err(ConstraintViolation::MissingAccount),
        }
    } else if t.from_account_id.is_none() && t.to_account_id.is_none() {
        Err(ConstraintViolation::MissingAccount)
    } else {
        Ok(())
    }
}

pub open spec fn int_value(v: Option<i32>) -> StoredValue {
    match v {
        Some(x) => StoredValue::Integer(x as i64),
        None => StoredValue::Null,
    }
}

pub open spec fn text_value(v: Option<String>) -> StoredValue {
    match v {
        Some(s) => StoredValue::Text(s),
        None => StoredValue::Null,
    }
}

pub open spec fn holds_text(c: StoredValue, s: Seq<char>) -> bool {
    match c {
        StoredValue::Text(x) => x@ == s,
        _ => false,
    }
}

/// `row` is the stored form of `t`, column by column.
pub open spec fn row_of(row: Seq<StoredValue>, t: Transaction) -> bool {
    &&& row.len() == TRANSACTION_COLUMNS
    &&& row[0] == StoredValue::Integer(t.id as i64)
    &&& row[1] == StoredValue::Integer(t.category_id as i64)
    &&& row[2] == int_value(t.from_account_id)
    &&& row[3] == int_value(t.to_account_id)
    &&& holds_text(row[4], t._type.text())
    &&& holds_text(row[5], t.status.text())
    &&& holds_text(row[6], t.method.text())
    &&& row[7] == StoredValue::Integer(t.amount.magnitude)
    &&& row[8] == StoredValue::Integer(t.amount.scale as i64)
    &&& row[9] == StoredValue::Text(t.date)
    &&& row[10] == StoredValue::Text(t.transaction_date)
    &&& row[11] == text_value(t.scheduled_date)
    &&& row[12] == StoredValue::Text(t.description)
    &&& row[13] == StoredValue::Text(t.notes)
    &&& row[14] == StoredValue::Text(t.tags)
    &&& row[15] == StoredValue::Text(t.color)
    &&& row[16] == StoredValue::Text(t.icon)
}

pub open spec fn as_i32(c: StoredValue) -> Option<i32> {
    match c {
        StoredValue::Integer(v) => if i32::MIN <= v <= i32::MAX {
            Some(v as i32)
        } else {
            None
        },
        _ => None,
    }
}

pub open spec fn as_opt_i32(c: StoredValue) -> Option<Option<i32>> {
    match c {
        StoredValue::Null => Some(None),
        _ => match as_i32(c) {
            Some(v) => Some(Some(v)),
            None => None,
        },
    }
}

pub open spec fn as_i64(c: StoredValue) -> Option<i64> {
    match c {
        StoredValue::Integer(v) => Some(v),
        _ => None,
    }
}

pub open spec fn as_scale(c: StoredValue) -> Option<u32> {
    match c {
        StoredValue::Integer(v) => if 0 <= v <= MAX_SCALE {
            Some(v as u32)
        } else {
            None
        },
        _ => None,
    }
}

pub open spec fn as_text(c: StoredValue) -> Option<String> {
    match c {
        StoredValue::Text(s) => Some(s),
        _ => None,
    }
}

pub open spec fn as_opt_text(c: StoredValue) -> Option<Option<String>> {
    match c {
        StoredValue::Null => Some(None),
        StoredValue::Text(s) => Some(Some(s)),
        _ => None,
    }
}

pub open spec fn as_type(c: StoredValue) -> Option<TransactionType> {
    match c {
        StoredValue::Text(s) => TransactionType::from_text(s@),
        _ => None,
    }
}

pub open spec fn as_status(c: StoredValue) -> Option<TransactionStatus> {
    match c {
        StoredValue::Text(s) => TransactionStatus::from_text(s@),
        _ => None,
    }
}

pub open spec fn as_method(c: StoredValue) -> Option<PaymentMethod> {
    match c {
        StoredValue::Text(s) => PaymentMethod::from_text(s@),
        _ => None,
    }
}

/// The transaction a stored row holds, or `None` where the row has the
/// wrong width or a column holds a value its field cannot take.
pub open spec fn decode(row: Seq<StoredValue>) -> Option<Transaction> {
    if row.len() == TRANSACTION_COLUMNS && as_i32(row[0]).is_some() && as_i32(row[1]).is_some()
        && as_opt_i32(row[2]).is_some() && as_opt_i32(row[3]).is_some() && as_type(
        row[4],
    ).is_some() && as_status(row[5]).is_some() && as_method(row[6]).is_some() && as_i64(
        row[7],
    ).is_some() && as_scale(row[8]).is_some() && as_text(row[9]).is_some() && as_text(
        row[10],
    ).is_some() && as_opt_text(row[11]).is_some() && as_text(row[12]).is_some() && as_text(
        row[13],
    ).is_some() && as_text(row[14]).is_some() && as_text(row[15]).is_some() && as_text(
        row[16],
    ).is_some() {
        Some(
            Transaction {
                id: as_i32(row[0]).unwrap(),
                category_id: as_i32(row[1]).unwrap(),
                from_account_id: as_opt_i32(row[2]).unwrap(),
                to_account_id: as_opt_i32(row[3]).unwrap(),
                _type: as_type(row[4]).unwrap(),
                status: as_status(row[5]).unwrap(),
                method: as_method(row[6]).unwrap(),
                amount: Money { magnitude: as_i64(row[7]).unwrap(), scale: as_scale(row[8]).unwrap() },
                date: as_text(row[9]).unwrap(),
                transaction_date: as_text(row[10]).unwrap(),
                scheduled_date: as_opt_text(row[11]).unwrap(),
                description: as_text(row[12]).unwrap(),
                notes: as_text(row[13]).unwrap(),
                tags: as_text(row[14]).unwrap(),
                color: as_text(row[15]).unwrap(),
                icon: as_text(row[16]).unwrap(),
            },
        )
    } else {
        None
    }
}

pub(crate) fn int_cell(v: Option<i32>) -> (r: StoredValue)
    ensures
        r == int_value(v),
{
    match v {
        Some(x) => StoredValue::Integer(x as i64),
        None => StoredValue::Null,
    }
}

pub(crate) fn text_cell(s: &String) -> (r: StoredValue)
    ensures
        r == StoredValue::Text(*s),
{
    StoredValue::Text(s.clone())
}

pub(crate) fn opt_text_cell(v: &Option<String>) -> (r: StoredValue)
    ensures
        r == text_value(*v),
{
    match v {
        Some(s) => StoredValue::Text(s.clone()),
        None => StoredValue::Null,
    }
}

/// The row `t` is stored as, one value per column in the declared order.
pub fn encode_row(t: &Transaction) -> (r: Vec<StoredValue>)
    ensures
        row_of(r@, *t),
{
    let mut r: Vec<StoredValue> = Vec::new();
    r.push(StoredValue::Integer(t.id as i64));
    r.push(StoredValue::Integer(t.category_id as i64));
    r.push(int_cell(t.from_account_id));
    r.push(int_cell(t.to_account_id));
    r.push(StoredValue::Text(t._type.as_str().to_owned()));
    r.push(StoredValue::Text(t.status.as_str().to_owned()));
    r.push(StoredValue::Text(t.method.as_str().to_owned()));
    r.push(StoredValue::Integer(t.amount.magnitude));
    r.push(StoredValue::Integer(t.amount.scale as i64));
    r.push(text_cell(&t.date));
    r.push(text_cell(&t.transaction_date));
    r.push(opt_text_cell(&t.scheduled_date));
    r.push(text_cell(&t.description));
    r.push(text_cell(&t.notes));
    r.push(text_cell(&t.tags));
    r.push(text_cell(&t.color));
    r.push(text_cell(&t.icon));
    r
}

pub(crate) fn read_i32(c: &StoredValue) -> (r: Option<i32>)
    ensures
        r == as_i32(*c),
{
    match c {
        StoredValue::Integer(v) => if i32::MIN as i64 <= *v && *v <= i32::MAX as i64 {
            Some(*v as i32)
        } else {
            None
        },
        _ => None,
    }
}

pub(crate) fn read_opt_i32(c: &StoredValue) -> (r: Option<Option<i32>>)
    ensures
        r == as_opt_i32(*c),
{
    match c {
        StoredValue::Null => Some(None),
        _ => match read_i32(c) {
            Some(v) => Some(Some(v)),
            None => None,
        },
    }
}

pub(crate) fn read_i64(c: &StoredValue) -> (r: Option<i64>)
    ensures
        r == as_i64(*c),
{
    match c {
        StoredValue::Integer(v) => Some(*v),
        _ => None,
    }
}

pub(crate) fn read_scale(c: &StoredValue) -> (r: Option<u32>)
    ensures
        r == as_scale(*c),
{
    match c {
        StoredValue::Integer(v) => if 0 <= *v && *v <= MAX_SCALE as i64 {
            Some(*v as u32)
        } else {
            None
        },
        _ => None,
    }
}

pub(crate) fn read_text(c: &StoredValue) -> (r: Option<String>)
    ensures
        r == as_text(*c),
{
    match c {
        StoredValue::Text(s) => Some(s.clone()),
        _ => None,
    }
}

pub(crate) fn read_opt_text(c: &StoredValue) -> (r: Option<Option<String>>)
    ensures
        r == as_opt_text(*c),
{
    match c {
        StoredValue::Null => Some(None),
        StoredValue::Text(s) => Some(Some(s.clone())),
        _ => None,
    }
}

fn read_type(c: &StoredValue) -> (r: Option<TransactionType>)
    ensures
        r == as_type(*c),
{
    match c {
        StoredValue::Text(s) => TransactionType::parse(s),
        _ => None,
    }
}

fn read_status(c: &StoredValue) -> (r: Option<TransactionStatus>)
    ensures
        r == as_status(*c),
{
    match c {
        StoredValue::Text(s) => TransactionStatus::parse(s),
        _ => None,
    }
}

fn read_method(c: &StoredValue) -> (r: Option<PaymentMethod>)
    ensures
        r == as_method(*c),
{
    match c {
        StoredValue::Text(s) => PaymentMethod::parse(s),
        _ => None,
    }
}

/// Reads a stored row back into a transaction; `None` where the row has
/// the wrong width or any column holds a value its field cannot take.
pub fn decode_row(row: &Vec<StoredValue>) -> (r: Option<Transaction>)
    ensures
        r == decode(row@),
{
    if row.len() != TRANSACTION_COLUMNS {
        return None;
    }
    let id = read_i32(&row[0]);
    let category_id = read_i32(&row[1]);
    let from_account_id = read_opt_i32(&row[2]);
    let to_account_id = read_opt_i32(&row[3]);
    let kind = read_type(&row[4]);
    let status = read_status(&row[5]);
    let method = read_method(&row[6]);
    let magnitude = read_i64(&row[7]);
    let scale = read_scale(&row[8]);
    let date = read_text(&row[9]);
    let transaction_date = read_text(&row[10]);
    let scheduled_date = read_opt_text(&row[11]);
    let description = read_text(&row[12]);
    let notes = read_text(&row[13]);
    let tags = read_text(&row[14]);
    let color = read_text(&row[15]);
    let icon = read_text(&row[16]);
    match (id, category_id, from_account_id, to_account_id, kind, status, method, magnitude, scale) {
        (
            Some(id),
            Some(category_id),
            Some(from_account_id),
            Some(to_account_id),
            Some(kind),
            Some(status),
            Some(method),
            Some(magnitude),
            Some(scale),
        ) => match (date, transaction_date, scheduled_date, description, notes, tags, color, icon) {
            (
                Some(date),
                Some(transaction_date),
                Some(scheduled_date),
                Some(description),
                Some(notes),
                Some(tags),
                Some(color),
                Some(icon),
            ) => Some(
                Transaction {
                    id,
                    category_id,
                    from_account_id,
                    to_account_id,
                    _type: kind,
                    status,
                    method,
                    amount: Money { magnitude, scale },
                    date,
                    transaction_date,
                    scheduled_date,
                    description,
                    notes,
                    tags,
                    color,
                    icon,
                },
            ),
            _ => None,
        },
        _ => None,
    }
}

/// Decoding the stored form of a transaction whose amount is well formed
/// gives back that transaction in every field.
pub proof fn lemma_decode_row_of(row: Seq<StoredValue>, t: Transaction)
    requires
        row_of(row, t),
        t.amount.wf(),
    ensures
        decode(row) == Some(t),
{
    lemma_transaction_type_text_round_trip(t._type);
    lemma_transaction_status_text_round_trip(t.status);
    lemma_payment_method_text_round_trip(t.method);
    match t.from_account_id {
        Some(_) => {},
        None => {},
    }
    match t.to_account_id {
        Some(_) => {},
        None => {},
    }
    match t.scheduled_date {
        Some(_) => {},
        None => {},
    }
}

} // verus!
