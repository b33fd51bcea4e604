use vstd::prelude::*;

verus! {

/// The ledger of applied migrations; it depends on nothing, so it is created
/// unconditionally before any migration is looked at.
pub const CREATE_MIGRATIONS_TABLE: &'static str = "CREATE TABLE IF NOT EXISTS migrations (
    id INTEGER PRIMARY KEY,
    name TEXT NOT NULL UNIQUE,
    date TEXT NOT NULL
)";

/// How many records carry a given migration name (`?1`).
pub const COUNT_APPLIED: &'static str = "SELECT COUNT(*) FROM migrations WHERE name = ?1";

/// Records a migration: its name (`?1`) and when it was applied (`?2`).
pub const RECORD_MIGRATION: &'static str = "INSERT INTO migrations (name, date) VALUES (?1, ?2)";

/// The name of the migration that creates the ledger's tables.
pub const INITIAL_SETUP: &'static str = "initial_setup";

pub const CREATE_ACCOUNTS_CATEGORIES: &'static str = "CREATE TABLE IF NOT EXISTS accounts_categories (
    id INTEGER PRIMARY KEY,
    parent_id INTEGER REFERENCES accounts_categories(id),
    name TEXT NOT NULL,
    description TEXT,
    type TEXT NOT NULL,
    color TEXT NOT NULL DEFAULT '#000000',
    icon TEXT NOT NULL DEFAULT 'mdi:bank'
)";

pub const CREATE_ACCOUNTS: &'static str = "CREATE TABLE IF NOT EXISTS accounts (
    id INTEGER PRIMARY KEY,
    category_id INTEGER NOT NULL REFERENCES accounts_categories(id),
    parent_id INTEGER REFERENCES accounts(id),
    name TEXT NOT NULL,
    description TEXT,
    type TEXT NOT NULL,
    balance INTEGER NOT NULL DEFAULT 0,
    balance_decimal INTEGER NOT NULL DEFAULT 2,
    virtual BOOLEAN NOT NULL DEFAULT FALSE,
    budget BOOLEAN NOT NULL DEFAULT FALSE,
    currency TEXT NOT NULL DEFAULT 'EUR',
    color TEXT NOT NULL DEFAULT '#000000',
    icon TEXT NOT NULL DEFAULT 'mdi:bank'
)";

pub const CREATE_TRANSACTIONS_CATEGORIES: &'static str = "CREATE TABLE IF NOT EXISTS transactions_categories (
    id INTEGER PRIMARY KEY,
    parent_id INTEGER REFERENCES transactions_categories(id),
    name TEXT NOT NULL,
    description TEXT,
    type TEXT NOT NULL,
    color TEXT NOT NULL DEFAULT '#000000',
    icon TEXT NOT NULL DEFAULT 'mdi:bank'
)";

pub const CREATE_TRANSACTIONS: &'static str = "CREATE TABLE IF NOT EXISTS transactions (
    id INTEGER PRIMARY KEY,
    category_id INTEGER NOT NULL REFERENCES transactions_categories(id),
    from_account_id INTEGER REFERENCES accounts(id),
    to_account_id INTEGER REFERENCES accounts(id),
    type TEXT NOT NULL CHECK(type IN ('income', 'expense', 'transfer', 'reimbursement', 'refund', 'other')),
    status TEXT NOT NULL CHECK(status IN ('pending', 'completed', 'cancelled', 'failed')) DEFAULT 'completed',
    method TEXT NOT NULL CHECK(method IN ('cash', 'card', 'bank_transfer', 'paypal', 'apple', 'other')) DEFAULT 'other',
    amount INTEGER NOT NULL,
    amount_decimal INTEGER NOT NULL DEFAULT 2,
    currency TEXT NOT NULL DEFAULT 'EUR',
    exchange_rate REAL NOT NULL DEFAULT 1.0,
    date TEXT NOT NULL,
    transaction_date TEXT NOT NULL,
    scheduled_date TEXT,
    description TEXT,
    notes TEXT,
    tags TEXT,
    color TEXT NOT NULL DEFAULT '#000000',
    icon TEXT NOT NULL DEFAULT 'mdi:bank'
)";

pub const CREATE_TRANSACTION_DETAILS: &'static str = "CREATE TABLE IF NOT EXISTS transaction_details (
    id INTEGER PRIMARY KEY,
    transaction_id INTEGER NOT NULL REFERENCES transactions(id),
    amount INTEGER NOT NULL,
    amount_decimal INTEGER NOT NULL DEFAULT 2,
    description TEXT,
    notes TEXT,
    tags TEXT,
    color TEXT NOT NULL DEFAULT '#000000',
    icon TEXT NOT NULL DEFAULT 'mdi:bank'
)";

/// Reads every declared transaction column, in the order a stored row holds them.
pub const SELECT_TRANSACTIONS: &'static str = "SELECT id, category_id, from_account_id, to_account_id, type,
    status, method, amount, amount_decimal, date, transaction_date,
    scheduled_date, description, notes, tags, color, icon
FROM transactions";

/// Writes one transaction row, binding the seventeen columns in the order
/// a stored row holds them.
pub const INSERT_TRANSACTION: &'static str = "INSERT INTO transactions (id, category_id, from_account_id,
    to_account_id, type, status, method, amount, amount_decimal, date, transaction_date,
    scheduled_date, description, notes, tags, color, icon)
VALUES (?1, ?2, ?3, ?4, ?5, ?6, ?7, ?8, ?9, ?10, ?11, ?12, ?13, ?14, ?15, ?16, ?17)";

/// Reads every declared column of the transactions category tree, in
/// stored-row order.
pub const SELECT_TRANSACTIONS_CATEGORIES: &'static str = "SELECT id, parent_id, name, description, type, color, icon FROM transactions_categories";

/// Reads every declared column of the accounts category tree, in
/// stored-row order.
pub const SELECT_ACCOUNTS_CATEGORIES: &'static str = "SELECT id, parent_id, name, description, type, color, icon FROM accounts_categories";

/// Writes one category row into the transactions tree.
pub const INSERT_TRANSACTIONS_CATEGORY: &'static str = "INSERT INTO transactions_categories (id, parent_id, name, description, type, color, icon)
VALUES (?1, ?2, ?3, ?4, ?5, ?6, ?7)";

/// Writes one category row into the accounts tree.
pub const INSERT_ACCOUNTS_CATEGORY: &'static str = "INSERT INTO accounts_categories (id, parent_id, name, description, type, color, icon)
VALUES (?1, ?2, ?3, ?4, ?5, ?6, ?7)";

/// Reads every declared account column, in stored-row order.
pub const SELECT_ACCOUNTS: &'static str = "SELECT id, category_id, parent_id, name, description, type,
    balance, balance_decimal, virtual, budget, currency, color, icon
FROM accounts";

/// Writes one account row, binding the thirteen columns in stored-row order.
pub const INSERT_ACCOUNT: &'static str = "INSERT INTO accounts (id, category_id, parent_id, name,
    description, type, balance, balance_decimal, virtual, budget, currency, color, icon)
VALUES (?1, ?2, ?3, ?4, ?5, ?6, ?7, ?8, ?9, ?10, ?11, ?12, ?13)";

/// A named, one-time schema change: its statements run in order, and a
/// record under its name marks it applied.
pub struct Migration {
    pub name: &'static str,
    pub statements: Vec<&'static str>,
}

/// The migrations, in the fixed order they are applied. A new change is
/// appended under a new name; an entry already here is never edited.
pub fn catalog() -> (r: Vec<Migration>)
    ensures
        r.len() == 1,
        r[0].name == INITIAL_SETUP,
        r[0].statements@ == seq![
            CREATE_ACCOUNTS_CATEGORIES,
            CREATE_ACCOUNTS,
            CREATE_TRANSACTIONS_CATEGORIES,
            CREATE_TRANSACTIONS,
            CREATE_TRANSACTION_DETAILS,
        ],
{
    let mut statements: Vec<&'static str> = Vec::new();
    statements.push(CREATE_ACCOUNTS_CATEGORIES);
    statements.push(CREATE_ACCOUNTS);
    statements.push(CREATE_TRANSACTIONS_CATEGORIES);
    statements.push(CREATE_TRANSACTIONS);
    statements.push(CREATE_TRANSACTION_DETAILS);
    let mut r: Vec<Migration> = Vec::new();
    r.push(Migration { name: INITIAL_SETUP, statements });
    assert(r[0].statements@ =~= seq![
        CREATE_ACCOUNTS_CATEGORIES,
        CREATE_ACCOUNTS,
        CREATE_TRANSACTIONS_CATEGORIES,
        CREATE_TRANSACTIONS,
        CREATE_TRANSACTION_DETAILS,
    ]);
    r
}

/// The positions, in catalog order, of the migrations with no record:
/// `counts[i]` is how many records carry the name of migration `i`.
pub open spec fn pending(counts: Seq<u64>) -> Seq<usize>
    decreases counts.len(),
{
    if counts.len() == 0 {
        Seq::empty()
    } else {
        let rest = pending(counts.drop_last());
        if counts.last() == 0 {
            rest.push((counts.len() - 1) as usize)
        } else {
            rest
        }
    }
}

/// The record counts once a run has applied, and recorded once, each
/// migration that `pending` lists.
pub open spec fn after_run(counts: Seq<u64>) -> Seq<u64> {
    Seq::new(
        counts.len(),
        |i: int|
            if pending(counts).contains(i as usize) {
                (counts[i] + 1) as u64
            } else {
                counts[i]
            },
    )
}

/// Which migrations to apply, in catalog order: exactly those whose name has
/// no record yet.
pub fn plan_migrations(counts: &Vec<u64>) -> (r: Vec<usize>)
    ensures
        r@ == pending(counts@),
{
    let mut r: Vec<usize> = Vec::new();
    let mut i: usize = 0;
    while i < counts.len()
        invariant
            i <= counts.len(),
            r@ == pending(counts@.subrange(0, i as int)),
        decreases counts.len() - i,
    {
        assert(counts@.subrange(0, i as int + 1).drop_last() =~= counts@.subrange(0, i as int));
        if counts[i] == 0 {
            r.push(i);
        }
        i = i + 1;
    }
    assert(counts@.subrange(0, counts.len() as int) =~= counts@);
    r
}

/// A migration is pending exactly when its name has no record, and each
/// pending position is listed once, in increasing order.
pub proof fn lemma_pending_exactly_unrecorded(counts: Seq<u64>)
    requires
        counts.len() <= usize::MAX,
    ensures
        forall|i: int| 0 <= i < counts.len() ==> (pending(counts).contains(i as usize) <==> counts[i] == 0),
        forall|k: int| 0 <= k < pending(counts).len() ==> #[trigger] pending(counts)[k] < counts.len(),
        forall|k: int, l: int|
            0 <= k < l < pending(counts).len() ==> #[trigger] pending(counts)[k] < #[trigger] pending(counts)[l],
    decreases counts.len(),
{
    if counts.len() > 0 {
        let d = counts.drop_last();
        lemma_pending_exactly_unrecorded(d);
        let p = pending(counts);
        let q = pending(d);
        let n = counts.len() - 1;
        assert forall|i: int| 0 <= i < counts.len() implies (p.contains(i as usize) <==> counts[i] == 0) by {
            if i < n {
                assert(d[i] == counts[i]);
                if q.contains(i as usize) {
                    let k = choose|k: int| 0 <= k < q.len() && q[k] == i as usize;
                    assert(p[k] == q[k]);
                }
                if p.contains(i as usize) {
                    let k = choose|k: int| 0 <= k < p.len() && p[k] == i as usize;
                    if k < q.len() {
                        assert(q[k] == p[k]);
                    }
                }
            } else {
                if counts[i] == 0 {
                    assert(p[p.len() - 1] == i as usize);
                }
                if p.contains(i as usize) {
                    let k = choose|k: int| 0 <= k < p.len() && p[k] == i as usize;
                    if k < q.len() {
                        assert(q[k] == p[k]);
                    }
                }
            }
        }
    }
}

/// Running the migrations a second time applies nothing and leaves every
/// record count as the first run left it; and where no name had more than one
/// record before, every migration ends with exactly one.
pub proof fn lemma_migrations_idempotent(counts: Seq<u64>)
    requires
        counts.len() <= usize::MAX,
    ensures
        pending(after_run(counts)) == Seq::<usize>::empty(),
        after_run(after_run(counts)) == after_run(counts),
        (forall|i: int| 0 <= i < counts.len() ==> #[trigger] counts[i] <= 1) ==> forall|i: int|
            0 <= i < counts.len() ==> #[trigger] after_run(counts)[i] == 1,
{
    let a = after_run(counts);
    lemma_pending_exactly_unrecorded(counts);
    lemma_pending_exactly_unrecorded(a);
    assert forall|i: int| 0 <= i < a.len() implies a[i] != 0 by {
        if counts[i] == 0 {
            assert(pending(counts).contains(i as usize));
        }
    }
    let pa = pending(a);
    if pa.len() > 0 {
        assert(pa[0] < a.len());
        assert(pa.contains(pa[0]));
        assert(a[pa[0] as int] == 0);
    }
    assert(pa =~= Seq::<usize>::empty());
    assert forall|i: int| 0 <= i < a.len() implies !#[trigger] pending(a).contains(i as usize) by {}
    assert(after_run(a) =~= a);
}

/// A row of the migrations ledger: a migration's name and when it was
/// applied, as RFC 3339 text.
#[derive(Debug)]
pub struct MigrationRecord {
    pub name: String,
    pub date: String,
}

/// The record that marks `m` applied at `date` (RFC 3339 text of the
/// moment the migration was applied, read by the caller).
pub fn migration_record(m: &Migration, date: String) -> (r: MigrationRecord)
    ensures
        r.name@ == m.name@,
        r.date == date,
{
    MigrationRecord { name: m.name.to_owned(), date }
}

} // verus!
