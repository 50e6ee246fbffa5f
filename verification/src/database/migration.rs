//! Migrations: which ones a run applies, which ones a rollback undoes, and the
//! statements that keep the `migrations` table. Executing the statements is left
//! to the caller.
use vstd::prelude::*;
use vstd::string::*;
use crate::text::{views, str_eq};

verus! {

broadcast use vstd::seq_lib::group_filter_ensures;

/// The statement that creates the table recording applied migrations.
pub const MIGRATIONS_TABLE_SQL: &'static str = "CREATE TABLE IF NOT EXISTS migrations (
                id INTEGER PRIMARY KEY AUTOINCREMENT,
                name TEXT NOT NULL UNIQUE,
                batch INTEGER NOT NULL,
                created_at INTEGER NOT NULL
            )";

/// The statement that gives the number of the last batch, `0` when none ran.
pub const LAST_BATCH_SQL: &'static str = "SELECT COALESCE(MAX(batch), 0) FROM migrations";

/// The statement that lists the names of the applied migrations.
pub const EXECUTED_NAMES_SQL: &'static str = "SELECT name FROM migrations";

/// The statement that records an applied migration: name, batch, time.
pub const RECORD_MIGRATION_SQL: &'static str = "INSERT INTO migrations (name, batch, created_at) VALUES (?, ?, ?)";

/// The statement that lists the migrations of one batch, newest first.
pub const BATCH_NAMES_SQL: &'static str = "SELECT name FROM migrations WHERE batch = ? ORDER BY id DESC";

/// The statement that forgets an applied migration by name.
pub const FORGET_MIGRATION_SQL: &'static str = "DELETE FROM migrations WHERE name = ?";

/// A named schema change and the statement that undoes it.
pub struct Migration {
    pub name: String,
    pub up: String,
    pub down: String,
}

impl Clone for Migration {
    fn clone(&self) -> (m: Self)
        ensures
            m == *self,
    {
        Migration { name: self.name.clone(), up: self.up.clone(), down: self.down.clone() }
    }
}

impl Migration {
    /// A migration from its name and its two statements.
    pub fn new(name: &str, up: &str, down: &str) -> (m: Self)
        ensures
            m.name@ == name@,
            m.up@ == up@,
            m.down@ == down@,
    {
        Migration { name: String::from_str(name), up: String::from_str(up), down: String::from_str(down) }
    }
}

/// The names of `ms`, in order.
pub open spec fn migration_names(ms: Seq<Migration>) -> Seq<Seq<char>> {
    ms.map_values(|m: Migration| m.name@)
}

/// Whether `m` has not been applied yet, given the names of the applied ones.
pub open spec fn is_pending(executed: Seq<Seq<char>>) -> spec_fn(Migration) -> bool {
    |m: Migration| !executed.contains(m.name@)
}

/// The migrations of `ms` whose names are not among `executed`, in order.
pub open spec fn pending(ms: Seq<Migration>, executed: Seq<Seq<char>>) -> Seq<Migration> {
    ms.filter(is_pending(executed))
}

/// Whether `name` is one of `names`.
fn contains_name(names: &Vec<String>, name: &str) -> (r: bool)
    ensures
        r == views(names@).contains(name@),
{
    let ghost vs = views(names@);
    let mut i: usize = 0;
    while i < names.len()
        invariant
            i <= names.len(),
            vs == views(names@),
            forall|j: int| 0 <= j < i ==> vs[j] != name@,
        decreases names.len() - i,
    {
        if str_eq(names[i].as_str(), name) {
            assert(vs[i as int] == name@);
            return true;
        }
        i = i + 1;
    }
    proof {
        if vs.contains(name@) {
            let j = choose|j: int| 0 <= j < vs.len() && vs[j] == name@;
            assert(vs[j] != name@);
        }
    }
    false
}

/// What `MigrationManager::run` applies: the batch number of the run and the
/// migrations not applied yet, in the order given.
pub struct RunPlan {
    pub batch: i64,
    pub pending: Vec<Migration>,
}

/// The plan of a run over `migrations`, given the names already applied and the
/// number of the last batch.
pub fn plan_run(migrations: &Vec<Migration>, executed: &Vec<String>, last_batch: i64) -> (p: RunPlan)
    requires
        last_batch < i64::MAX,
    ensures
        p.batch == last_batch + 1,
        p.pending@ == pending(migrations@, views(executed@)),
{
    let ghost ex = views(executed@);
    let ghost pred = is_pending(ex);
    let mut out: Vec<Migration> = Vec::new();
    let mut i: usize = 0;
    while i < migrations.len()
        invariant
            i <= migrations.len(),
            ex == views(executed@),
            pred == is_pending(ex),
            out@ == migrations@.take(i as int).filter(pred),
        decreases migrations.len() - i,
    {
        proof {
            reveal(Seq::filter);
            assert(migrations@.take(i + 1).drop_last() =~= migrations@.take(i as int));
            assert(migrations@.take(i + 1).last() == migrations@[i as int]);
        }
        if !contains_name(executed, migrations[i].name.as_str()) {
            out.push(migrations[i].clone());
        }
        i = i + 1;
    }
    assert(migrations@.take(migrations.len() as int) =~= migrations@);
    RunPlan { batch: last_batch + 1, pending: out }
}

/// The first migration of `ms` named `name`.
pub open spec fn first_named(ms: Seq<Migration>, name: Seq<char>) -> Option<Migration>
    decreases ms.len(),
{
    if ms.len() == 0 {
        None
    } else if ms[0].name@ == name {
        Some(ms[0])
    } else {
        first_named(ms.drop_first(), name)
    }
}

/// Finds the first migration of `ms` named `name`.
pub fn find_migration(ms: &Vec<Migration>, name: &str) -> (r: Option<Migration>)
    ensures
        r == first_named(ms@, name@),
{
    assert(ms@.subrange(0, ms@.len() as int) =~= ms@);
    let mut i: usize = 0;
    while i < ms.len()
        invariant
            i <= ms.len(),
            first_named(ms@, name@) == first_named(ms@.subrange(i as int, ms@.len() as int), name@),
        decreases ms.len() - i,
    {
        let ghost rest = ms@.subrange(i as int, ms@.len() as int);
        if str_eq(ms[i].name.as_str(), name) {
            assert(rest[0] == ms@[i as int]);
            return Some(ms[i].clone());
        }
        assert(rest.drop_first() =~= ms@.subrange(i + 1, ms@.len() as int));
        i = i + 1;
    }
    None
}

/// The migrations that a rollback undoes, in the order of `batch_names` (newest
/// first): for each name the first known migration with that name; names with no
/// known migration are skipped.
pub open spec fn rollback_order(batch_names: Seq<Seq<char>>, known: Seq<Migration>) -> Seq<Migration> {
    batch_names.filter_map(|n: Seq<char>| first_named(known, n))
}

/// The migrations to undo for the names of the last batch.
pub fn plan_rollback(batch_names: &Vec<String>, known: &Vec<Migration>) -> (r: Vec<Migration>)
    ensures
        r@ == rollback_order(views(batch_names@), known@),
{
    let ghost names = views(batch_names@);
    let ghost f = |n: Seq<char>| first_named(known@, n);
    let mut out: Vec<Migration> = Vec::new();
    let mut i: usize = 0;
    while i < batch_names.len()
        invariant
            i <= batch_names.len(),
            names == views(batch_names@),
            f == (|n: Seq<char>| first_named(known@, n)),
            out@ == names.take(i as int).filter_map(f),
        decreases batch_names.len() - i,
    {
        assert(names.take(i + 1).drop_last() =~= names.take(i as int));
        assert(names.take(i + 1).last() == batch_names@[i as int]@);
        let found = find_migration(known, batch_names[i].as_str());
        match found {
            Some(m) => {
                let ghost before = out@;
                out.push(m);
                assert(out@ =~= before + seq![m]);
            },
            None => {},
        }
        i = i + 1;
    }
    assert(names.take(batch_names.len() as int) =~= names);
    out
}

/// The statement that drops `table` if it exists.
pub open spec fn drop_table_sql(table: Seq<char>) -> Seq<char> {
    "DROP TABLE IF EXISTS "@ + table
}

/// The statement that drops `table` if it exists.
pub fn drop_table_statement(table: &str) -> (s: String)
    ensures
        s@ == drop_table_sql(table@),
{
    String::from_str("DROP TABLE IF EXISTS ").concat(table)
}

/// The statements that drop every one of `tables` with foreign-key checks off, then
/// turn the checks back on.
pub open spec fn drop_all_sql(tables: Seq<Seq<char>>) -> Seq<Seq<char>> {
    seq!["PRAGMA foreign_keys = OFF"@] + tables.map_values(|t: Seq<char>| drop_table_sql(t))
        + seq!["PRAGMA foreign_keys = ON"@]
}

/// The statements that `MigrationManager::drop_all_tables` runs in one transaction.
pub fn drop_all_statements(tables: &Vec<String>) -> (r: Vec<String>)
    ensures
        views(r@) == drop_all_sql(views(tables@)),
{
    let ghost ts = views(tables@);
    let mut drops: Vec<String> = Vec::new();
    drops.push(String::from_str("PRAGMA foreign_keys = OFF"));
    let mut i: usize = 0;
    while i < tables.len()
        invariant
            i <= tables.len(),
            ts == views(tables@),
            views(drops@) =~= seq!["PRAGMA foreign_keys = OFF"@]
                + ts.take(i as int).map_values(|t: Seq<char>| drop_table_sql(t)),
        decreases tables.len() - i,
    {
        let ghost before = drops@;
        drops.push(drop_table_statement(tables[i].as_str()));
        assert(ts.take(i + 1) =~= ts.take(i as int).push(ts[i as int]));
        assert(views(drops@) =~= views(before).push(drop_table_sql(ts[i as int])));
        i = i + 1;
    }
    let ghost before = drops@;
    drops.push(String::from_str("PRAGMA foreign_keys = ON"));
    assert(views(drops@) =~= views(before).push("PRAGMA foreign_keys = ON"@));
    assert(ts.take(tables.len() as int) =~= ts);
    drops
}

/// No migration that a run applies has been applied before.
pub proof fn pending_are_new(ms: Seq<Migration>, executed: Seq<Seq<char>>, i: int)
    requires
        0 <= i < pending(ms, executed).len(),
    ensures
        !executed.contains(pending(ms, executed)[i].name@),
{
    ms.lemma_filter_pred(is_pending(executed), i);
}

/// Every migration not applied before is applied by a run.
pub proof fn new_are_pending(ms: Seq<Migration>, executed: Seq<Seq<char>>, i: int)
    requires
        0 <= i < ms.len(),
        !executed.contains(ms[i].name@),
    ensures
        pending(ms, executed).contains(ms[i]),
{
    ms.lemma_filter_contains(is_pending(executed), i);
}

/// Once the migrations of a run are recorded, a second run over the same list
/// applies nothing.
pub proof fn second_run_applies_nothing(ms: Seq<Migration>, executed: Seq<Seq<char>>)
    ensures
        pending(ms, executed + migration_names(pending(ms, executed))).len() == 0,
{
    let first = pending(ms, executed);
    let after = executed + migration_names(first);
    assert forall|i: int| 0 <= i < ms.len() implies after.contains(#[trigger] ms[i].name@) by {
        if executed.contains(ms[i].name@) {
            let j = choose|j: int| 0 <= j < executed.len() && executed[j] == ms[i].name@;
            assert(after[j] == ms[i].name@);
        } else {
            new_are_pending(ms, executed, i);
            let k = choose|k: int| 0 <= k < first.len() && first[k] == ms[i];
            assert(after[executed.len() + k] == ms[i].name@);
        }
    }
    assert(ms.all(|m: Migration| !is_pending(after)(m)));
    ms.lemma_all_neg_filter_empty(is_pending(after));
}

} // verus!
