use vstd::prelude::*;

use crate::entities::{
    account_row_of, category_row_of, decode_account_rows, decode_category_rows, decoded_accounts,
    decoded_categories, encode_account_row, encode_category_row, validate_account, Account,
    Category,
};
use crate::kinds::TransactionType;
use crate::transaction::{
    decode, decode_row, encode_row, lemma_decode_row_of, row_of, valid_transaction, validate,
    violation, ConstraintViolation, StoredValue, Transaction,
};

verus! {

/// The transactions that the stored rows decode to, in row order; a row
/// that does not decode is left out.
pub open spec fn decoded(rows: Seq<Vec<StoredValue>>) -> Seq<Transaction>
    decreases rows.len(),
{
    if rows.len() == 0 {
        Seq::empty()
    } else {
        let rest = decoded(rows.drop_last());
        match decode(rows.last()@) {
            Some(t) => rest.push(t),
            None => rest,
        }
    }
}

/// Some stored row already carries `id` in its id column.
pub open spec fn id_taken(rows: Seq<Vec<StoredValue>>, id: i32) -> bool {
    exists|i: int|
        0 <= i < rows.len() && #[trigger] rows[i]@.len() > 0 && rows[i]@[0] == StoredValue::Integer(
            id as i64,
        )
}

/// `new` is `old` with the stored forms of `ts` appended, in order.
pub open spec fn stores_after(
    old: Seq<Vec<StoredValue>>,
    new: Seq<Vec<StoredValue>>,
    ts: Seq<Transaction>,
) -> bool {
    &&& new.len() == old.len() + ts.len()
    &&& new.subrange(0, old.len() as int) == old
    &&& forall|i: int| 0 <= i < ts.len() ==> row_of(#[trigger] new[old.len() + i]@, ts[i])
}

/// Decodes every stored row, keeping the order and leaving out each row that
/// does not decode: one bad row never fails the whole read.
pub fn decode_rows(rows: &Vec<Vec<StoredValue>>) -> (r: Vec<Transaction>)
    ensures
        r@ == decoded(rows@),
{
    let mut r: Vec<Transaction> = Vec::new();
    let mut i: usize = 0;
    while i < rows.len()
        invariant
            i <= rows.len(),
            r@ == decoded(rows@.subrange(0, i as int)),
        decreases rows.len() - i,
    {
        let ghost before = rows@.subrange(0, i as int);
        assert(rows@.subrange(0, i as int + 1).drop_last() =~= before);
        match decode_row(&rows[i]) {
            Some(t) => {
                r.push(t);
            },
            None => {},
        }
        i = i + 1;
    }
    assert(rows@.subrange(0, rows.len() as int) =~= rows@);
    r
}

/// Whether some stored row already carries `id` in its id column.
pub fn contains_id(rows: &Vec<Vec<StoredValue>>, id: i32) -> (r: bool)
    ensures
        r == id_taken(rows@, id),
{
    let mut i: usize = 0;
    while i < rows.len()
        invariant
            i <= rows.len(),
            forall|j: int|
                0 <= j < i ==> !(#[trigger] rows@[j]@.len() > 0 && rows@[j]@[0]
                    == StoredValue::Integer(id as i64)),
        decreases rows.len() - i,
    {
        if rows[i].len() > 0 {
            match &rows[i][0] {
                StoredValue::Integer(v) => {
                    if *v == id as i64 {
                        assert(rows@[i as int]@.len() > 0 && rows@[i as int]@[0]
                            == StoredValue::Integer(id as i64));
                        return true;
                    }
                },
                _ => {},
            }
        }
        i = i + 1;
    }
    false
}

/// An optional reference is either absent or names a stored row.
pub open spec fn reference_known(rows: Seq<Vec<StoredValue>>, id: Option<i32>) -> bool {
    match id {
        Some(x) => id_taken(rows, x),
        None => true,
    }
}

/// The category and the accounts `t` names are all stored.
pub open spec fn transaction_refs_known(
    t: Transaction,
    categories: Seq<Vec<StoredValue>>,
    accounts: Seq<Vec<StoredValue>>,
) -> bool {
    &&& id_taken(categories, t.category_id)
    &&& reference_known(accounts, t.from_account_id)
    &&& reference_known(accounts, t.to_account_id)
}

/// The category and the parent `a` names are all stored.
pub open spec fn account_refs_known(
    a: Account,
    categories: Seq<Vec<StoredValue>>,
    accounts: Seq<Vec<StoredValue>>,
) -> bool {
    &&& id_taken(categories, a.category_id)
    &&& reference_known(accounts, a.parent_id)
}

/// Whether an optional reference is absent or names a stored row.
pub fn reference_present(rows: &Vec<Vec<StoredValue>>, id: Option<i32>) -> (r: bool)
    ensures
        r == reference_known(rows@, id),
{
    match id {
        Some(x) => contains_id(rows, x),
        None => true,
    }
}

/// Which of the two category trees a category belongs to.
#[derive(Debug, Clone, Copy, PartialEq, Eq, Structural)]
pub enum CategoryTree {
    Transactions,
    Accounts,
}

/// A ledger held in memory: the stored rows of each table, in insertion order.
pub struct Ledger {
    rows: Vec<Vec<StoredValue>>,
    transaction_categories: Vec<Vec<StoredValue>>,
    account_categories: Vec<Vec<StoredValue>>,
    accounts: Vec<Vec<StoredValue>>,
}

impl Ledger {
    /// The stored rows.
    pub closed spec fn stored(&self) -> Seq<Vec<StoredValue>> {
        self.rows@
    }

    /// The stored rows of one category tree.
    pub closed spec fn stored_categories(&self, tree: CategoryTree) -> Seq<Vec<StoredValue>> {
        match tree {
            CategoryTree::Transactions => self.transaction_categories@,
            CategoryTree::Accounts => self.account_categories@,
        }
    }

    /// The stored account rows.
    pub closed spec fn stored_accounts(&self) -> Seq<Vec<StoredValue>> {
        self.accounts@
    }

    /// An empty ledger.
    pub fn new() -> (r: Ledger)
        ensures
            r.stored() == Seq::<Vec<StoredValue>>::empty(),
            r.stored_categories(CategoryTree::Transactions) == Seq::<Vec<StoredValue>>::empty(),
            r.stored_categories(CategoryTree::Accounts) == Seq::<Vec<StoredValue>>::empty(),
            r.stored_accounts() == Seq::<Vec<StoredValue>>::empty(),
    {
        Ledger {
            rows: Vec::new(),
            transaction_categories: Vec::new(),
            account_categories: Vec::new(),
            accounts: Vec::new(),
        }
    }

    /// A ledger whose transactions table holds `rows` as they are, whether
    /// or not each decodes, and whose other tables are empty.
    pub fn from_rows(rows: Vec<Vec<StoredValue>>) -> (r: Ledger)
        ensures
            r.stored() == rows@,
            r.stored_categories(CategoryTree::Transactions) == Seq::<Vec<StoredValue>>::empty(),
            r.stored_categories(CategoryTree::Accounts) == Seq::<Vec<StoredValue>>::empty(),
            r.stored_accounts() == Seq::<Vec<StoredValue>>::empty(),
    {
        Ledger {
            rows,
            transaction_categories: Vec::new(),
            account_categories: Vec::new(),
            accounts: Vec::new(),
        }
    }

    /// How many rows are stored, decodable or not.
    pub fn row_count(&self) -> (r: usize)
        ensures
            r == self.stored().len(),
    {
        self.rows.len()
    }

    /// Every stored transaction that decodes, in insertion order.
    pub fn list_transactions(&self) -> (r: Vec<Transaction>)
        ensures
            r@ == decoded(self.stored()),
    {
        decode_rows(&self.rows)
    }

    /// Stores `t` and hands it back, or refuses it, storing nothing, when it
    /// breaks a constraint, refers to a category or account that is not
    /// stored, or its id is taken.
    pub fn insert_transaction(&mut self, t: Transaction) -> (r: Result<
        Transaction,
        ConstraintViolation,
    >)
        ensures
            match violation(t) {
                Some(e) => r == Err::<Transaction, ConstraintViolation>(e) && final(self).stored()
                    == old(self).stored(),
                None => if !transaction_refs_known(
                    t,
                    old(self).stored_categories(CategoryTree::Transactions),
                    old(self).stored_accounts(),
                ) {
                    r == Err::<Transaction, ConstraintViolation>(
                        ConstraintViolation::UnknownReference,
                    ) && final(self).stored() == old(self).stored()
                } else if id_taken(old(self).stored(), t.id) {
                    r == Err::<Transaction, ConstraintViolation>(ConstraintViolation::DuplicateId)
                        && final(self).stored() == old(self).stored()
                } else {
                    r == Ok::<Transaction, ConstraintViolation>(t) && stores_after(
                        old(self).stored(),
                        final(self).stored(),
                        seq![t],
                    )
                },
            },
            final(self).stored_categories(CategoryTree::Transactions) == old(
                self,
            ).stored_categories(CategoryTree::Transactions),
            final(self).stored_categories(CategoryTree::Accounts) == old(self).stored_categories(
                CategoryTree::Accounts,
            ),
            final(self).stored_accounts() == old(self).stored_accounts(),
    {
        match validate(&t) {
            Err(e) => {
                return Err(e);
            },
            Ok(()) => {},
        }
        if !contains_id(&self.transaction_categories, t.category_id) || !reference_present(
            &self.accounts,
            t.from_account_id,
        ) || !reference_present(&self.accounts, t.to_account_id) {
            return Err(ConstraintViolation::UnknownReference);
        }
        if contains_id(&self.rows, t.id) {
            return Err(ConstraintViolation::DuplicateId);
        }
        let row = encode_row(&t);
        let ghost written = row;
        self.rows.push(row);
        proof {
            let o = old(self).stored();
            let n = self.stored();
            assert(n.subrange(0, o.len() as int) =~= o);
            assert(n[o.len() as int + 0] == written);
        }
        Ok(t)
    }

    /// Every stored category of `tree` that decodes, in insertion order.
    pub fn list_categories(&self, tree: CategoryTree) -> (r: Vec<Category>)
        ensures
            r@ == decoded_categories(self.stored_categories(tree)),
    {
        match tree {
            CategoryTree::Transactions => decode_category_rows(&self.transaction_categories),
            CategoryTree::Accounts => decode_category_rows(&self.account_categories),
        }
    }

    /// Stores `c` in `tree` and hands it back, or refuses it, storing
    /// nothing, when its parent is not a stored category of that tree or its
    /// id is taken there.
    pub fn insert_category(&mut self, tree: CategoryTree, c: Category) -> (r: Result<
        Category,
        ConstraintViolation,
    >)
        ensures
            final(self).stored() == old(self).stored(),
            final(self).stored_accounts() == old(self).stored_accounts(),
            final(self).stored_categories(other_tree(tree)) == old(self).stored_categories(
                other_tree(tree),
            ),
            !reference_known(old(self).stored_categories(tree), c.parent_id) ==> r == Err::<
                Category,
                ConstraintViolation,
            >(ConstraintViolation::UnknownReference) && final(self).stored_categories(tree) == old(
                self,
            ).stored_categories(tree),
            reference_known(old(self).stored_categories(tree), c.parent_id) && id_taken(
                old(self).stored_categories(tree),
                c.id,
            ) ==> r == Err::<Category, ConstraintViolation>(ConstraintViolation::DuplicateId)
                && final(self).stored_categories(tree) == old(self).stored_categories(tree),
            reference_known(old(self).stored_categories(tree), c.parent_id) && !id_taken(
                old(self).stored_categories(tree),
                c.id,
            ) ==> r == Ok::<Category, ConstraintViolation>(c) && final(self).stored_categories(
                tree,
            ).drop_last() == old(self).stored_categories(tree) && final(self).stored_categories(
                tree,
            ).len() == old(self).stored_categories(tree).len() + 1 && category_row_of(
                final(self).stored_categories(tree).last()@,
                c,
            ),
    {
        let row = encode_category_row(&c);
        match tree {
            CategoryTree::Transactions => {
                if !reference_present(&self.transaction_categories, c.parent_id) {
                    return Err(ConstraintViolation::UnknownReference);
                }
                if contains_id(&self.transaction_categories, c.id) {
                    return Err(ConstraintViolation::DuplicateId);
                }
                self.transaction_categories.push(row);
            },
            CategoryTree::Accounts => {
                if !reference_present(&self.account_categories, c.parent_id) {
                    return Err(ConstraintViolation::UnknownReference);
                }
                if contains_id(&self.account_categories, c.id) {
                    return Err(ConstraintViolation::DuplicateId);
                }
                self.account_categories.push(row);
            },
        }
        assert(self.stored_categories(tree).drop_last() =~= old(self).stored_categories(tree));
        Ok(c)
    }

    /// Every stored account that decodes, in insertion order.
    pub fn list_accounts(&self) -> (r: Vec<Account>)
        ensures
            r@ == decoded_accounts(self.stored_accounts()),
    {
        decode_account_rows(&self.accounts)
    }

    /// Stores `a` and hands it back, or refuses it, storing nothing, when its
    /// balance has too many decimal places, its category is not a stored
    /// accounts category, its parent is not a stored account, or its id is
    /// taken.
    pub fn insert_account(&mut self, a: Account) -> (r: Result<Account, ConstraintViolation>)
        ensures
            final(self).stored() == old(self).stored(),
            final(self).stored_categories(CategoryTree::Transactions) == old(
                self,
            ).stored_categories(CategoryTree::Transactions),
            final(self).stored_categories(CategoryTree::Accounts) == old(self).stored_categories(
                CategoryTree::Accounts,
            ),
            !a.balance.wf() ==> r == Err::<Account, ConstraintViolation>(
                ConstraintViolation::InvalidScale,
            ) && final(self).stored_accounts() == old(self).stored_accounts(),
            a.balance.wf() && !account_refs_known(
                a,
                old(self).stored_categories(CategoryTree::Accounts),
                old(self).stored_accounts(),
            ) ==> r == Err::<Account, ConstraintViolation>(ConstraintViolation::UnknownReference)
                && final(self).stored_accounts() == old(self).stored_accounts(),
            a.balance.wf() && account_refs_known(
                a,
                old(self).stored_categories(CategoryTree::Accounts),
                old(self).stored_accounts(),
            ) && id_taken(old(self).stored_accounts(), a.id) ==> r == Err::<
                Account,
                ConstraintViolation,
            >(ConstraintViolation::DuplicateId) && final(self).stored_accounts() == old(
                self,
            ).stored_accounts(),
            a.balance.wf() && account_refs_known(
                a,
                old(self).stored_categories(CategoryTree::Accounts),
                old(self).stored_accounts(),
            ) && !id_taken(old(self).stored_accounts(), a.id) ==> r == Ok::<
                Account,
                ConstraintViolation,
            >(a) && final(self).stored_accounts().drop_last() == old(self).stored_accounts()
                && final(self).stored_accounts().len() == old(self).stored_accounts().len() + 1
                && account_row_of(final(self).stored_accounts().last()@, a),
    {
        match validate_account(&a) {
            Err(e) => {
                return Err(e);
            },
            Ok(()) => {},
        }
        if !contains_id(&self.account_categories, a.category_id) || !reference_present(
            &self.accounts,
            a.parent_id,
        ) {
            return Err(ConstraintViolation::UnknownReference);
        }
        if contains_id(&self.accounts, a.id) {
            return Err(ConstraintViolation::DuplicateId);
        }
        self.accounts.push(encode_account_row(&a));
        assert(self.stored_accounts().drop_last() =~= old(self).stored_accounts());
        Ok(a)
    }
}

/// The category tree that is not `tree`.
pub open spec fn other_tree(tree: CategoryTree) -> CategoryTree {
    match tree {
        CategoryTree::Transactions => CategoryTree::Accounts,
        CategoryTree::Accounts => CategoryTree::Transactions,
    }
}

/// Decoding two runs of rows one after the other gives the two runs'
/// transactions one after the other.
pub proof fn lemma_decoded_append(a: Seq<Vec<StoredValue>>, b: Seq<Vec<StoredValue>>)
    ensures
        decoded(a + b) == decoded(a) + decoded(b),
    decreases b.len(),
{
    if b.len() == 0 {
        assert(a + b =~= a);
        assert(decoded(a) + decoded(b) =~= decoded(a));
    } else {
        lemma_decoded_append(a, b.drop_last());
        assert((a + b).drop_last() =~= a + b.drop_last());
        assert((a + b).last() == b.last());
        match decode(b.last()@) {
            Some(t) => {
                assert(decoded(a) + decoded(b.drop_last()).push(t) =~= (decoded(a) + decoded(
                    b.drop_last(),
                )).push(t));
            },
            None => {},
        }
    }
}

/// A store holding one row that does not decode, among any others, lists
/// every other row's transaction and leaves out only that one.
pub proof fn lemma_corrupt_row_skipped(
    before: Seq<Vec<StoredValue>>,
    bad: Vec<StoredValue>,
    after: Seq<Vec<StoredValue>>,
)
    requires
        decode(bad@).is_none(),
    ensures
        decoded(before.push(bad) + after) == decoded(before) + decoded(after),
{
    lemma_decoded_append(before.push(bad), after);
    assert(before.push(bad).drop_last() =~= before);
}

/// The rows written for valid transactions decode to those transactions.
proof fn lemma_decoded_written(rows: Seq<Vec<StoredValue>>, ts: Seq<Transaction>)
    requires
        rows.len() == ts.len(),
        forall|i: int| 0 <= i < ts.len() ==> valid_transaction(#[trigger] ts[i]),
        forall|i: int| 0 <= i < ts.len() ==> row_of(#[trigger] rows[i]@, ts[i]),
    ensures
        decoded(rows) == ts,
    decreases ts.len(),
{
    if ts.len() == 0 {
        assert(decoded(rows) =~= ts);
    } else {
        let n = ts.len() - 1;
        assert(valid_transaction(ts[n]));
        assert(row_of(rows[n]@, ts[n]));
        lemma_decode_row_of(rows[n]@, ts[n]);
        lemma_decoded_written(rows.drop_last(), ts.drop_last());
        assert(ts.drop_last().push(ts[n]) =~= ts);
    }
}

/// Inserting transactions one call at a time, in whatever order the calls
/// are let through, into a store that holds none of their ids: when each is
/// valid, names only stored categories and accounts (which inserting a
/// transaction never changes), and has an id of its own, every call is accepted, the store
/// ends with exactly one more row per call, and the rows read back as those
/// transactions in the order they were stored.
pub proof fn lemma_serialized_inserts(
    old_rows: Seq<Vec<StoredValue>>,
    new_rows: Seq<Vec<StoredValue>>,
    ts: Seq<Transaction>,
    categories: Seq<Vec<StoredValue>>,
    accounts: Seq<Vec<StoredValue>>,
)
    requires
        forall|i: int| 0 <= i < ts.len() ==> valid_transaction(#[trigger] ts[i]),
        forall|i: int| 0 <= i < ts.len() ==> transaction_refs_known(#[trigger] ts[i], categories, accounts),
        forall|i: int, j: int| 0 <= i < j < ts.len() ==> #[trigger] ts[i].id != #[trigger] ts[j].id,
        forall|i: int| 0 <= i < ts.len() ==> !id_taken(old_rows, #[trigger] ts[i].id),
        stores_after(old_rows, new_rows, ts),
    ensures
        new_rows.len() == old_rows.len() + ts.len(),
        decoded(new_rows) == decoded(old_rows) + ts,
        forall|k: int, mid: Seq<Vec<StoredValue>>|
            0 <= k < ts.len() && stores_after(old_rows, mid, ts.take(k)) ==> !#[trigger] id_taken(mid, ts[k].id)
                && violation(ts[k]).is_none() && transaction_refs_known(ts[k], categories, accounts),
{
    let tail = new_rows.subrange(old_rows.len() as int, new_rows.len() as int);
    assert(new_rows =~= old_rows + tail);
    assert forall|i: int| 0 <= i < ts.len() implies row_of(#[trigger] tail[i]@, ts[i]) by {
        assert(tail[i] == new_rows[old_rows.len() + i]);
    }
    lemma_decoded_written(tail, ts);
    lemma_decoded_append(old_rows, tail);
    assert forall|k: int, mid: Seq<Vec<StoredValue>>|
        0 <= k < ts.len() && stores_after(old_rows, mid, ts.take(k)) implies !#[trigger] id_taken(mid, ts[k].id)
        && violation(ts[k]).is_none() && transaction_refs_known(ts[k], categories, accounts) by {
        assert(valid_transaction(ts[k]));
        assert(transaction_refs_known(ts[k], categories, accounts));
        if id_taken(mid, ts[k].id) {
            let i = choose|i: int|
                0 <= i < mid.len() && #[trigger] mid[i]@.len() > 0 && mid[i]@[0]
                    == StoredValue::Integer(ts[k].id as i64);
            if i < old_rows.len() {
                assert(mid.subrange(0, old_rows.len() as int)[i] == mid[i]);
                assert(!id_taken(old_rows, ts[k].id));
                assert(false);
            } else {
                let j = i - old_rows.len();
                assert(ts.take(k)[j] == ts[j]);
                assert(row_of(mid[old_rows.len() + j]@, ts.take(k)[j]));
                assert(ts[j].id != ts[k].id);
                assert(false);
            }
        }
    }
}

/// The order in which the same transactions are let through does not
/// change the store: two such runs leave the same number of rows, and the
/// rows list the same multiset of transactions.
pub proof fn lemma_insert_order_irrelevant(
    old_rows: Seq<Vec<StoredValue>>,
    first_rows: Seq<Vec<StoredValue>>,
    first: Seq<Transaction>,
    second_rows: Seq<Vec<StoredValue>>,
    second: Seq<Transaction>,
    categories: Seq<Vec<StoredValue>>,
    accounts: Seq<Vec<StoredValue>>,
)
    requires
        first.to_multiset() == second.to_multiset(),
        forall|i: int| 0 <= i < first.len() ==> valid_transaction(#[trigger] first[i]),
        forall|i: int| 0 <= i < first.len() ==> transaction_refs_known(#[trigger] first[i], categories, accounts),
        forall|i: int, j: int| 0 <= i < j < first.len() ==> #[trigger] first[i].id != #[trigger] first[j].id,
        forall|i: int| 0 <= i < first.len() ==> !id_taken(old_rows, #[trigger] first[i].id),
        stores_after(old_rows, first_rows, first),
        forall|i: int| 0 <= i < second.len() ==> valid_transaction(#[trigger] second[i]),
        forall|i: int| 0 <= i < second.len() ==> transaction_refs_known(#[trigger] second[i], categories, accounts),
        forall|i: int, j: int| 0 <= i < j < second.len() ==> #[trigger] second[i].id != #[trigger] second[j].id,
        forall|i: int| 0 <= i < second.len() ==> !id_taken(old_rows, #[trigger] second[i].id),
        stores_after(old_rows, second_rows, second),
    ensures
        first_rows.len() == second_rows.len(),
        decoded(first_rows).to_multiset() == decoded(second_rows).to_multiset(),
{
    lemma_serialized_inserts(old_rows, first_rows, first, categories, accounts);
    lemma_serialized_inserts(old_rows, second_rows, second, categories, accounts);
    vstd::seq_lib::lemma_multiset_commutative(decoded(old_rows), first);
    vstd::seq_lib::lemma_multiset_commutative(decoded(old_rows), second);
    vstd::seq_lib::to_multiset_len(first);
    vstd::seq_lib::to_multiset_len(second);
}

/// Inserting a valid transaction and then listing the store lists what was
/// there before, followed by that transaction equal in every field.
pub proof fn lemma_insert_read_round_trip(
    old_rows: Seq<Vec<StoredValue>>,
    new_rows: Seq<Vec<StoredValue>>,
    t: Transaction,
)
    requires
        valid_transaction(t),
        stores_after(old_rows, new_rows, seq![t]),
    ensures
        decoded(new_rows) == decoded(old_rows).push(t),
        decoded(new_rows).contains(t),
{
    let n = new_rows.len() - 1;
    assert(row_of(new_rows[old_rows.len() as int + 0]@, seq![t][0]));
    lemma_decode_row_of(new_rows[n]@, t);
    assert(new_rows.drop_last() =~= old_rows);
    assert(decoded(new_rows)[decoded(new_rows).len() - 1] == t);
}

/// A transfer without a destination account breaks a constraint, so an
/// insert of it is refused and the store keeps its rows.
pub proof fn lemma_transfer_needs_destination(t: Transaction)
    requires
        t._type == TransactionType::Transfer,
        t.to_account_id.is_none(),
    ensures
        violation(t).is_some(),
{
}

} // verus!
