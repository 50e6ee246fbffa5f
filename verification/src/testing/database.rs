//! The statements behind the database assertions of tests.
use vstd::prelude::*;
use vstd::string::*;
use crate::text::views;

verus! {

/// ` AND key = ?` for each of `keys`, in order.
pub open spec fn key_conditions(keys: Seq<Seq<char>>) -> Seq<char>
    decreases keys.len(),
{
    if keys.len() == 0 {
        Seq::empty()
    } else {
        key_conditions(keys.drop_last()) + " AND "@ + keys.last() + " = ?"@
    }
}

/// The statement that tells whether `table` has a row whose columns `keys` equal the
/// bound values, one placeholder per key in order.
pub open spec fn exists_sql(table: Seq<char>, keys: Seq<Seq<char>>) -> Seq<char> {
    "SELECT EXISTS(SELECT 1 FROM "@ + table + " WHERE 1=1"@ + key_conditions(keys) + ") AS exists"@
}

/// The `EXISTS` statement of `assert_database_has` and `assert_database_missing`.
pub fn exists_statement(table: &str, keys: &Vec<String>) -> (s: String)
    ensures
        s@ == exists_sql(table@, views(keys@)),
{
    let ghost ks = views(keys@);
    let mut sql = String::from_str("SELECT EXISTS(SELECT 1 FROM ").concat(table).concat(" WHERE 1=1");
    let ghost prefix = sql@;
    let mut i: usize = 0;
    while i < keys.len()
        invariant
            i <= keys.len(),
            ks == views(keys@),
            prefix == "SELECT EXISTS(SELECT 1 FROM "@ + table@ + " WHERE 1=1"@,
            sql@ == prefix + key_conditions(ks.take(i as int)),
        decreases keys.len() - i,
    {
        let ghost before = sql@;
        sql.append(" AND ");
        sql.append(keys[i].as_str());
        sql.append(" = ?");
        proof {
            assert(ks.take(i + 1).drop_last() =~= ks.take(i as int));
            assert(ks.take(i + 1).last() == keys@[i as int]@);
            assert(sql@ =~= prefix + key_conditions(ks.take(i + 1)));
        }
        i = i + 1;
    }
    assert(ks.take(keys.len() as int) =~= ks);
    let s = sql.concat(") AS exists");
    assert(s@ =~= exists_sql(table@, ks));
    s
}

/// The statement that counts the rows of `table`.
pub fn count_statement(table: &str) -> (s: String)
    ensures
        s@ == "SELECT COUNT(*) FROM "@ + table@,
{
    String::from_str("SELECT COUNT(*) FROM ").concat(table)
}

} // verus!
