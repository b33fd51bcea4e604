use vstd::prelude::*;

use crate::money::Money;
use crate::transaction::{
    as_i32, as_i64, as_opt_i32, as_opt_text, as_scale, as_text, int_cell, int_value,
    opt_text_cell, read_i32, read_i64, read_opt_i32, read_opt_text, read_scale, read_text,
    text_cell, text_value, ConstraintViolation, StoredValue,
};

verus! {

/// The number of columns a stored category row has, in this order:
/// id, parent_id, name, description, type, color, icon.
pub const CATEGORY_COLUMNS: usize = 7;

/// The number of columns a stored account row has, in this order:
/// id, category_id, parent_id, name, description, type, balance,
/// balance_decimal, virtual, budget, currency, color, icon.
pub const ACCOUNT_COLUMNS: usize = 13;

/// A node of a category tree (of transactions or of accounts); `parent_id`
/// names another category of the same tree, and a root has none.
#[derive(Debug, Clone, PartialEq)]
pub struct Category {
    pub id: i32,
    pub parent_id: Option<i32>,
    pub name: String,
    pub description: Option<String>,
    pub _type: String,
    pub color: String,
    pub icon: String,
}

/// An account money moves from or to, filed under an accounts category and
/// optionally under a parent account. `balance` is a cached figure.
#[derive(Debug, Clone, PartialEq)]
pub struct Account {
    pub id: i32,
    pub category_id: i32,
    pub parent_id: Option<i32>,
    pub name: String,
    pub description: Option<String>,
    pub _type: String,
    pub balance: Money,
    /// The account holds no real-world money (a budget envelope).
    pub is_virtual: bool,
    pub budget: bool,
    pub currency: String,
    pub color: String,
    pub icon: String,
}

pub open spec fn bool_value(b: bool) -> StoredValue {
    StoredValue::Integer(if b {
        1
    } else {
        0
    })
}

pub open spec fn as_bool(c: StoredValue) -> Option<bool> {
    match c {
        StoredValue::Integer(v) => if v == 0 {
            Some(false)
        } else if v == 1 {
            Some(true)
        } else {
            None
        },
        _ => None,
    }
}

/// `row` is the stored form of the category `c`, column by column.
pub open spec fn category_row_of(row: Seq<StoredValue>, c: Category) -> bool {
    &&& row.len() == CATEGORY_COLUMNS
    &&& row[0] == StoredValue::Integer(c.id as i64)
    &&& row[1] == int_value(c.parent_id)
    &&& row[2] == StoredValue::Text(c.name)
    &&& row[3] == text_value(c.description)
    &&& row[4] == StoredValue::Text(c._type)
    &&& row[5] == StoredValue::Text(c.color)
    &&& row[6] == StoredValue::Text(c.icon)
}

/// The category a stored row holds, or `None` where the row has the wrong
/// width or a column holds a value its field cannot take.
pub open spec fn decode_category(row: Seq<StoredValue>) -> Option<Category> {
    if row.len() == CATEGORY_COLUMNS && as_i32(row[0]).is_some() && as_opt_i32(row[1]).is_some()
        && as_text(row[2]).is_some() && as_opt_text(row[3]).is_some() && as_text(row[4]).is_some()
        && as_text(row[5]).is_some() && as_text(row[6]).is_some() {
        Some(
            Category {
                id: as_i32(row[0]).unwrap(),
                parent_id: as_opt_i32(row[1]).unwrap(),
                name: as_text(row[2]).unwrap(),
                description: as_opt_text(row[3]).unwrap(),
                _type: as_text(row[4]).unwrap(),
                color: as_text(row[5]).unwrap(),
                icon: as_text(row[6]).unwrap(),
            },
        )
    } else {
        None
    }
}

/// `row` is the stored form of the account `a`, column by column.
pub open spec fn account_row_of(row: Seq<StoredValue>, a: Account) -> bool {
    &&& row.len() == ACCOUNT_COLUMNS
    &&& row[0] == StoredValue::Integer(a.id as i64)
    &&& row[1] == StoredValue::Integer(a.category_id as i64)
    &&& row[2] == int_value(a.parent_id)
    &&& row[3] == StoredValue::Text(a.name)
    &&& row[4] == text_value(a.description)
    &&& row[5] == StoredValue::Text(a._type)
    &&& row[6] == StoredValue::Integer(a.balance.magnitude)
    &&& row[7] == StoredValue::Integer(a.balance.scale as i64)
    &&& row[8] == bool_value(a.is_virtual)
    &&& row[9] == bool_value(a.budget)
    &&& row[10] == StoredValue::Text(a.currency)
    &&& row[11] == StoredValue::Text(a.color)
    &&& row[12] == StoredValue::Text(a.icon)
}

/// The account a stored row holds, or `None` where the row has the wrong
/// width or a column holds a value its field cannot take.
pub open spec fn decode_account(row: Seq<StoredValue>) -> Option<Account> {
    if row.len() == ACCOUNT_COLUMNS && as_i32(row[0]).is_some() && as_i32(row[1]).is_some()
        && as_opt_i32(row[2]).is_some() && as_text(row[3]).is_some() && as_opt_text(
        row[4],
    ).is_some() && as_text(row[5]).is_some() && as_i64(row[6]).is_some() && as_scale(
        row[7],
    ).is_some() && as_bool(row[8]).is_some() && as_bool(row[9]).is_some() && as_text(
        row[10],
    ).is_some() && as_text(row[11]).is_some() && as_text(row[12]).is_some() {
        Some(
            Account {
                id: as_i32(row[0]).unwrap(),
                category_id: as_i32(row[1]).unwrap(),
                parent_id: as_opt_i32(row[2]).unwrap(),
                name: as_text(row[3]).unwrap(),
                description: as_opt_text(row[4]).unwrap(),
                _type: as_text(row[5]).unwrap(),
                balance: Money { magnitude: as_i64(row[6]).unwrap(), scale: as_scale(row[7]).unwrap() },
                is_virtual: as_bool(row[8]).unwrap(),
                budget: as_bool(row[9]).unwrap(),
                currency: as_text(row[10]).unwrap(),
                color: as_text(row[11]).unwrap(),
                icon: as_text(row[12]).unwrap(),
            },
        )
    } else {
        None
    }
}

/// The categories that the stored rows decode to, in row order; a row that
/// does not decode is left out.
pub open spec fn decoded_categories(rows: Seq<Vec<StoredValue>>) -> Seq<Category>
    decreases rows.len(),
{
    if rows.len() == 0 {
        Seq::empty()
    } else {
        let rest = decoded_categories(rows.drop_last());
        match decode_category(rows.last()@) {
            Some(c) => rest.push(c),
            None => rest,
        }
    }
}

/// The accounts that the stored rows decode to, in row order; a row that
/// does not decode is left out.
pub open spec fn decoded_accounts(rows: Seq<Vec<StoredValue>>) -> Seq<Account>
    decreases rows.len(),
{
    if rows.len() == 0 {
        Seq::empty()
    } else {
        let rest = decoded_accounts(rows.drop_last());
        match decode_account(rows.last()@) {
            Some(a) => rest.push(a),
            None => rest,
        }
    }
}

/// Checks the constraints an account must meet before it is stored: its
/// balance carries at most `MAX_SCALE` decimal places.
pub fn validate_account(a: &Account) -> (r: Result<(), ConstraintViolation>)
    ensures
        a.balance.wf() ==> r == Ok::<(), ConstraintViolation>(()),
        !a.balance.wf() ==> r == Err::<(), ConstraintViolation>(ConstraintViolation::InvalidScale),
{
    if a.balance.scale > crate::money::MAX_SCALE {
        Err(ConstraintViolation::InvalidScale)
    } else {
        Ok(())
    }
}

fn bool_cell(b: bool) -> (r: StoredValue)
    ensures
        r == bool_value(b),
{
    StoredValue::Integer(if b {
        1
    } else {
        0
    })
}

fn read_bool(c: &StoredValue) -> (r: Option<bool>)
    ensures
        r == as_bool(*c),
{
    match c {
        StoredValue::Integer(v) => if *v == 0 {
            Some(false)
        } else if *v == 1 {
            Some(true)
        } else {
            None
        },
        _ => None,
    }
}

/// The row a category is stored as, one value per column in the declared order.
pub fn encode_category_row(c: &Category) -> (r: Vec<StoredValue>)
    ensures
        category_row_of(r@, *c),
{
    let mut r: Vec<StoredValue> = Vec::new();
    r.push(StoredValue::Integer(c.id as i64));
    r.push(int_cell(c.parent_id));
    r.push(text_cell(&c.name));
    r.push(opt_text_cell(&c.description));
    r.push(text_cell(&c._type));
    r.push(text_cell(&c.color));
    r.push(text_cell(&c.icon));
    r
}

/// Reads a stored row back into a category.
pub fn decode_category_row(row: &Vec<StoredValue>) -> (r: Option<Category>)
    ensures
        r == decode_category(row@),
{
    if row.len() != CATEGORY_COLUMNS {
        return None;
    }
    match (
        read_i32(&row[0]),
        read_opt_i32(&row[1]),
        read_text(&row[2]),
        read_opt_text(&row[3]),
        read_text(&row[4]),
        read_text(&row[5]),
        read_text(&row[6]),
    ) {
        (
            Some(id),
            Some(parent_id),
            Some(name),
            Some(description),
            Some(kind),
            Some(color),
            Some(icon),
        ) => Some(Category { id, parent_id, name, description, _type: kind, color, icon }),
        _ => None,
    }
}

/// The row an account is stored as, one value per column in the declared order.
pub fn encode_account_row(a: &Account) -> (r: Vec<StoredValue>)
    ensures
        account_row_of(r@, *a),
{
    let mut r: Vec<StoredValue> = Vec::new();
    r.push(StoredValue::Integer(a.id as i64));
    r.push(StoredValue::Integer(a.category_id as i64));
    r.push(int_cell(a.parent_id));
    r.push(text_cell(&a.name));
    r.push(opt_text_cell(&a.description));
    r.push(text_cell(&a._type));
    r.push(StoredValue::Integer(a.balance.magnitude));
    r.push(StoredValue::Integer(a.balance.scale as i64));
    r.push(bool_cell(a.is_virtual));
    r.push(bool_cell(a.budget));
    r.push(text_cell(&a.currency));
    r.push(text_cell(&a.color));
    r.push(text_cell(&a.icon));
    r
}

/// Reads a stored row back into an account.
pub fn decode_account_row(row: &Vec<StoredValue>) -> (r: Option<Account>)
    ensures
        r == decode_account(row@),
{
    if row.len() != ACCOUNT_COLUMNS {
        return None;
    }
    let head = (
        read_i32(&row[0]),
        read_i32(&row[1]),
        read_opt_i32(&row[2]),
        read_text(&row[3]),
        read_opt_text(&row[4]),
        read_text(&row[5]),
    );
    let tail = (
        read_i64(&row[6]),
        read_scale(&row[7]),
        read_bool(&row[8]),
        read_bool(&row[9]),
        read_text(&row[10]),
        read_text(&row[11]),
        read_text(&row[12]),
    );
    match (head, tail) {
        (
            (Some(id), Some(category_id), Some(parent_id), Some(name), Some(description), Some(kind)),
            (
                Some(magnitude),
                Some(scale),
                Some(is_virtual),
                Some(budget),
                Some(currency),
                Some(color),
                Some(icon),
            ),
        ) => Some(
            Account {
                id,
                category_id,
                parent_id,
                name,
                description,
                _type: kind,
                balance: Money { magnitude, scale },
                is_virtual,
                budget,
                currency,
                color,
                icon,
            },
        ),
        _ => None,
    }
}

/// Decodes every stored category row, in order, leaving out each row that
/// does not decode.
pub fn decode_category_rows(rows: &Vec<Vec<StoredValue>>) -> (r: Vec<Category>)
    ensures
        r@ == decoded_categories(rows@),
{
    let mut r: Vec<Category> = Vec::new();
    let mut i: usize = 0;
    while i < rows.len()
        invariant
            i <= rows.len(),
            r@ == decoded_categories(rows@.subrange(0, i as int)),
        decreases rows.len() - i,
    {
        assert(rows@.subrange(0, i as int + 1).drop_last() =~= rows@.subrange(0, i as int));
        match decode_category_row(&rows[i]) {
            Some(c) => {
                r.push(c);
            },
            None => {},
        }
        i = i + 1;
    }
    assert(rows@.subrange(0, rows.len() as int) =~= rows@);
    r
}

/// Decodes every stored account row, in order, leaving out each row that
/// does not decode.
pub fn decode_account_rows(rows: &Vec<Vec<StoredValue>>) -> (r: Vec<Account>)
    ensures
        r@ == decoded_accounts(rows@),
{
    let mut r: Vec<Account> = Vec::new();
    let mut i: usize = 0;
    while i < rows.len()
        invariant
            i <= rows.len(),
            r@ == decoded_accounts(rows@.subrange(0, i as int)),
        decreases rows.len() - i,
    {
        assert(rows@.subrange(0, i as int + 1).drop_last() =~= rows@.subrange(0, i as int));
        match decode_account_row(&rows[i]) {
            Some(a) => {
                r.push(a);
            },
            None => {},
        }
        i = i + 1;
    }
    assert(rows@.subrange(0, rows.len() as int) =~= rows@);
    r
}

/// Decoding the stored form of a category gives back that category.
pub proof fn lemma_decode_category_row_of(row: Seq<StoredValue>, c: Category)
    requires
        category_row_of(row, c),
    ensures
        decode_category(row) == Some(c),
{
    match c.parent_id {
        Some(_) => {},
        None => {},
    }
    match c.description {
        Some(_) => {},
        None => {},
    }
}

/// Decoding the stored form of an account whose balance is well formed gives
/// back that account.
pub proof fn lemma_decode_account_row_of(row: Seq<StoredValue>, a: Account)
    requires
        account_row_of(row, a),
        a.balance.wf(),
    ensures
        decode_account(row) == Some(a),
{
    match a.parent_id {
        Some(_) => {},
        None => {},
    }
    match a.description {
        Some(_) => {},
        None => {},
    }
}

} // verus!
