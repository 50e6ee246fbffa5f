//! Field validation rules of models, and the SQL that model operations run.
use vstd::prelude::*;
use vstd::string::*;
use core::marker::PhantomData;
use crate::text::{is_blank, blank, join, join_strings, views, str_eq};
use crate::pattern::{regex_compiles, regex_matches, regex_is_match};
use crate::validation::ValidationError;
use crate::validation::rules::EMAIL_PATTERN;

verus! {

/// A rule a field value must satisfy.
pub enum Rule {
    Required,
    Email,
    MinLength(usize),
    MaxLength(usize),
    Regex(String),
}

impl Clone for Rule {
    fn clone(&self) -> (r: Self)
        ensures
            r == *self,
    {
        match self {
            Rule::Required => Rule::Required,
            Rule::Email => Rule::Email,
            Rule::MinLength(n) => Rule::MinLength(*n),
            Rule::MaxLength(n) => Rule::MaxLength(*n),
            Rule::Regex(p) => Rule::Regex(p.clone()),
        }
    }
}

/// What a rule is, with its pattern as characters.
pub enum RuleView {
    Required,
    Email,
    MinLength(usize),
    MaxLength(usize),
    Regex(Seq<char>),
}

impl View for Rule {
    type V = RuleView;

    open spec fn view(&self) -> RuleView {
        match self {
            Rule::Required => RuleView::Required,
            Rule::Email => RuleView::Email,
            Rule::MinLength(n) => RuleView::MinLength(*n),
            Rule::MaxLength(n) => RuleView::MaxLength(*n),
            Rule::Regex(p) => RuleView::Regex(p@),
        }
    }
}

/// Whether `value` (with `bytes` UTF-8 bytes) satisfies `rule`. A `Regex` rule whose
/// pattern does not compile is not satisfied.
pub open spec fn rule_holds(rule: RuleView, value: Seq<char>, bytes: nat) -> bool {
    match rule {
        RuleView::Required => !is_blank(value),
        RuleView::Email => regex_compiles(EMAIL_PATTERN@) && regex_matches(EMAIL_PATTERN@, value),
        RuleView::MinLength(n) => bytes >= n,
        RuleView::MaxLength(n) => bytes <= n,
        RuleView::Regex(p) => regex_compiles(p) && regex_matches(p, value),
    }
}

/// The code of the error a failed rule reports.
pub open spec fn rule_code(rule: RuleView) -> Seq<char> {
    match rule {
        RuleView::Required => "required field"@,
        RuleView::Email => "invalid email format"@,
        RuleView::MinLength(_) => "too short"@,
        RuleView::MaxLength(_) => "too long"@,
        RuleView::Regex(_) => "invalid format"@,
    }
}

impl Rule {
    fn validate(&self, value: &str) -> (r: Result<(), ValidationError>)
        ensures
            r is Ok <==> rule_holds(self@, value@, value.len() as nat),
            r matches Err(e) ==> e@ == rule_code(self@),
    {
        match self {
            Rule::Required => {
                if blank(value) {
                    return Err(ValidationError::new("required field"));
                }
            },
            Rule::Email => {
                match regex_is_match(EMAIL_PATTERN, value) {
                    Ok(true) => {},
                    _ => return Err(ValidationError::new("invalid email format")),
                }
            },
            Rule::MinLength(min) => {
                if value.len() < *min {
                    return Err(ValidationError::new("too short"));
                }
            },
            Rule::MaxLength(max) => {
                if value.len() > *max {
                    return Err(ValidationError::new("too long"));
                }
            },
            Rule::Regex(pattern) => {
                match regex_is_match(pattern.as_str(), value) {
                    Ok(true) => {},
                    _ => return Err(ValidationError::new("invalid format")),
                }
            },
        }
        Ok(())
    }
}

/// An ordered list of rules.
pub struct Rules(Vec<Rule>);

pub open spec fn rule_views(v: Seq<Rule>) -> Seq<RuleView> {
    v.map_values(|r: Rule| r@)
}

impl View for Rules {
    type V = Seq<RuleView>;

    closed spec fn view(&self) -> Seq<RuleView> {
        rule_views(self.0@)
    }
}

impl Rules {
    /// No rules.
    pub fn new() -> (r: Self)
        ensures
            r@ == Seq::<RuleView>::empty(),
    {
        let r = Rules(Vec::new());
        assert(r@ =~= Seq::<RuleView>::empty());
        r
    }

    fn with(self, rule: Rule) -> (r: Self)
        ensures
            r@ == self@.push(rule@),
    {
        let mut v = self.0;
        let ghost before = v@;
        let ghost rv = rule@;
        v.push(rule);
        assert(rule_views(v@) =~= rule_views(before).push(rv));
        Rules(v)
    }

    /// Adds the rule that the value is not blank.
    pub fn required(self) -> (r: Self)
        ensures
            r@ == self@.push(RuleView::Required),
    {
        self.with(Rule::Required)
    }

    /// Adds the rule that the value is an e-mail address.
    pub fn email(self) -> (r: Self)
        ensures
            r@ == self@.push(RuleView::Email),
    {
        self.with(Rule::Email)
    }

    /// Adds the rule that the value has at least `length` bytes.
    pub fn min(self, length: usize) -> (r: Self)
        ensures
            r@ == self@.push(RuleView::MinLength(length)),
    {
        self.with(Rule::MinLength(length))
    }

    /// Adds the rule that the value has at most `length` bytes.
    pub fn max(self, length: usize) -> (r: Self)
        ensures
            r@ == self@.push(RuleView::MaxLength(length)),
    {
        self.with(Rule::MaxLength(length))
    }

    /// Adds the rule that the value matches `pattern`.
    pub fn regex(self, pattern: &str) -> (r: Self)
        ensures
            r@ == self@.push(RuleView::Regex(pattern@)),
    {
        self.with(Rule::Regex(String::from_str(pattern)))
    }
}

/// The code of the first rule `value` fails, if any.
pub open spec fn first_failure(rules: Seq<RuleView>, value: Seq<char>, bytes: nat) -> Option<Seq<char>>
    decreases rules.len(),
{
    if rules.len() == 0 {
        None
    } else if !rule_holds(rules[0], value, bytes) {
        Some(rule_code(rules[0]))
    } else {
        first_failure(rules.drop_first(), value, bytes)
    }
}

/// Whether `r` reports `failure`: `Ok` when there is none, else an error with its code.
pub open spec fn outcome_matches(failure: Option<Seq<char>>, r: Result<(), ValidationError>) -> bool {
    match failure {
        None => r is Ok,
        Some(code) => r matches Err(e) && e@ == code,
    }
}

/// A value that can be checked against rules.
pub trait Validate {
    fn validate(&self, rules: Rules) -> Result<(), ValidationError>;
}

/// Checks `rules` in order against `value` and reports the first one that fails.
pub fn check_rules(value: &str, rules: Rules) -> (r: Result<(), ValidationError>)
    ensures
        outcome_matches(first_failure(rules@, value@, value.len() as nat), r),
{
    let list = &rules.0;
    let ghost all = rule_views(list@);
    let mut i: usize = 0;
    assert(all.skip(0) =~= all);
    while i < list.len()
        invariant
            i <= list.len(),
            all == rule_views(list@),
            all == rules@,
            first_failure(all, value@, value.len() as nat)
                == first_failure(all.skip(i as int), value@, value.len() as nat),
        decreases list.len() - i,
    {
        let res = list[i].validate(value);
        assert(all.skip(i as int)[0] == list@[i as int]@);
        assert(all.skip(i as int).drop_first() =~= all.skip(i + 1));
        if res.is_err() {
            return res;
        }
        i = i + 1;
    }
    assert(all.skip(i as int) =~= Seq::<RuleView>::empty());
    Ok(())
}

impl Validate for String {
    /// Checks the rules in order and reports the first one that fails.
    fn validate(&self, rules: Rules) -> (r: Result<(), ValidationError>)
        ensures
            outcome_matches(first_failure(rules@, self@, vstd::utf8::encode_utf8(self@).len() as usize as nat), r),
    {
        check_rules(self.as_str(), rules)
    }
}

/// A typed handle on a named field of a model.
pub struct Field<T> {
    name: &'static str,
    _type: PhantomData<T>,
}

impl<T> Field<T> {
    /// The handle for the field called `name`.
    pub fn new(name: &'static str) -> (f: Self)
        ensures
            f.name() == name@,
    {
        Field { name, _type: PhantomData }
    }

    /// The field's name.
    pub closed spec fn name(&self) -> Seq<char> {
        self.name@
    }
}

/// The foreign key naming the parent table: its name without a trailing `s`,
/// followed by `_id` (`users` gives `user_id`).
pub open spec fn relation_key(parent_table: Seq<char>) -> Seq<char> {
    let singular = if parent_table.len() > 0 && parent_table.last() == 's' {
        parent_table.drop_last()
    } else {
        parent_table
    };
    singular + "_id"@
}

/// The foreign key a relation to the table `parent_table` uses by default.
pub fn relation_foreign_key(parent_table: &str) -> (key: String)
    ensures
        key@ == relation_key(parent_table@),
{
    let n = parent_table.unicode_len();
    let singular = if n > 0 && parent_table.get_char(n - 1) == 's' {
        parent_table.substring_char(0, n - 1)
    } else {
        parent_table
    };
    let key = String::from_str(singular).concat("_id");
    proof {
        if n > 0 && parent_table@.last() == 's' {
            assert(parent_table@.subrange(0, n - 1) =~= parent_table@.drop_last());
        }
    }
    key
}

/// The statement that finds a row by its key.
pub open spec fn find_sql(table: Seq<char>, key: Seq<char>) -> Seq<char> {
    "SELECT * FROM "@ + table + " WHERE "@ + key + " = ?"@
}

/// The statement that `Model::find` runs.
pub fn find_statement(table: &str, primary_key: &str) -> (s: String)
    ensures
        s@ == find_sql(table@, primary_key@),
{
    let mut s = String::from_str("SELECT * FROM ");
    s.append(table);
    s.append(" WHERE ");
    s.append(primary_key);
    s.append(" = ?");
    s
}

/// The statement that `Model::all` runs.
pub fn all_statement(table: &str) -> (s: String)
    ensures
        s@ == "SELECT * FROM "@ + table@,
{
    String::from_str("SELECT * FROM ").concat(table)
}

/// The statement that fetches the rows of `child_table` whose `foreign_key` is bound.
pub fn related_statement(child_table: &str, foreign_key: &str) -> (s: String)
    ensures
        s@ == find_sql(child_table@, foreign_key@),
{
    find_statement(child_table, foreign_key)
}

/// The statement that fetches at most one row of `child_table` whose `foreign_key` is bound.
pub fn related_one_statement(child_table: &str, foreign_key: &str) -> (s: String)
    ensures
        s@ == find_sql(child_table@, foreign_key@) + " LIMIT 1"@,
{
    find_statement(child_table, foreign_key).concat(" LIMIT 1")
}

/// The statement that sets `foreign_key` of the row of `child_table` with a given id.
pub fn relate_statement(child_table: &str, foreign_key: &str) -> (s: String)
    ensures
        s@ == "UPDATE "@ + child_table@ + " SET "@ + foreign_key@ + " = ? WHERE id = ?"@,
{
    let mut s = String::from_str("UPDATE ");
    s.append(child_table);
    s.append(" SET ");
    s.append(foreign_key);
    s.append(" = ? WHERE id = ?");
    s
}

/// `keys` without the auto-generated `id`, in order.
pub open spec fn insert_columns(keys: Seq<Seq<char>>) -> Seq<Seq<char>>
    decreases keys.len(),
{
    if keys.len() == 0 {
        Seq::empty()
    } else if keys.last() == "id"@ {
        insert_columns(keys.drop_last())
    } else {
        insert_columns(keys.drop_last()).push(keys.last())
    }
}

/// The `INSERT` statement for `columns`, one placeholder per column.
pub open spec fn insert_sql(table: Seq<char>, columns: Seq<Seq<char>>) -> Seq<char> {
    "INSERT INTO "@ + table + " ("@ + join(columns, ", "@) + ") VALUES ("@
        + join(Seq::new(columns.len(), |i: int| "?"@), ", "@) + ")"@
}

/// What kind of JSON value a model field serializes to; for a number, whether it
/// reads as an `i64` and whether it reads as an `f64`.
#[derive(Debug, Clone, Copy, PartialEq, Eq)]
pub enum JsonKind {
    Number { integer: bool, float: bool },
    String,
    Bool,
    Null,
    Array,
    Object,
}

/// How `Model::create` binds a field's value to its placeholder.
#[derive(Debug, Clone, Copy, PartialEq, Eq)]
pub enum Binding {
    Integer,
    Real,
    Text,
    Boolean,
    Null,
    /// A number that reads neither as an integer nor as a float: nothing is bound.
    Nothing,
}

/// The binding of a value of kind `kind`; arrays and objects have none, and make
/// the insert fail.
pub open spec fn binding_of(kind: JsonKind) -> Option<Binding> {
    match kind {
        JsonKind::Number { integer, float } => Some(
            if integer { Binding::Integer } else if float { Binding::Real } else { Binding::Nothing },
        ),
        JsonKind::String => Some(Binding::Text),
        JsonKind::Bool => Some(Binding::Boolean),
        JsonKind::Null => Some(Binding::Null),
        JsonKind::Array => None,
        JsonKind::Object => None,
    }
}

/// The binding of a field's value, or none when the value cannot be stored.
pub fn binding_for(kind: JsonKind) -> (b: Option<Binding>)
    ensures
        b == binding_of(kind),
{
    match kind {
        JsonKind::Number { integer, float } => Some(
            if integer { Binding::Integer } else if float { Binding::Real } else { Binding::Nothing },
        ),
        JsonKind::String => Some(Binding::Text),
        JsonKind::Bool => Some(Binding::Boolean),
        JsonKind::Null => Some(Binding::Null),
        JsonKind::Array => None,
        JsonKind::Object => None,
    }
}

/// The error of an insert whose `column` holds a value that cannot be stored, shown
/// as `value` (its debug rendering).
pub fn unsupported_value_message(column: &str, value: &str) -> (s: String)
    ensures
        s@ == "Unsupported value type for column "@ + column@ + ": "@ + value@,
{
    String::from_str("Unsupported value type for column ").concat(column).concat(": ").concat(value)
}

/// The insert that `Model::create` runs for a record with the fields `keys`:
/// the statement, and the columns whose values are bound, in order.
pub fn insert_statement(table: &str, keys: &Vec<String>) -> (r: (String, Vec<String>))
    ensures
        views(r.1@) == insert_columns(views(keys@)),
        r.0@ == insert_sql(table@, views(r.1@)),
{
    let mut columns: Vec<String> = Vec::new();
    let mut placeholders: Vec<String> = Vec::new();
    let ghost ks = views(keys@);
    let mut i: usize = 0;
    while i < keys.len()
        invariant
            i <= keys.len(),
            ks == views(keys@),
            views(columns@) == insert_columns(ks.take(i as int)),
            views(placeholders@) =~= Seq::new(columns@.len(), |j: int| "?"@),
        decreases keys.len() - i,
    {
        assert(ks.take(i + 1).drop_last() =~= ks.take(i as int));
        assert(ks.take(i + 1).last() == keys@[i as int]@);
        if !str_eq(keys[i].as_str(), "id") {
            let ghost before = columns@;
            columns.push(keys[i].clone());
            assert(views(columns@) =~= views(before).push(keys@[i as int]@));
            let ghost marks_before = placeholders@;
            placeholders.push(String::from_str("?"));
            assert(views(placeholders@) =~= views(marks_before).push("?"@));
            assert(views(placeholders@) =~= Seq::new(columns@.len(), |j: int| "?"@));
        }
        i = i + 1;
    }
    assert(ks.take(keys.len() as int) =~= ks);
    let mut sql = String::from_str("INSERT INTO ");
    sql.append(table);
    sql.append(" (");
    let cols = join_strings(&columns, ", ");
    sql.append(cols.as_str());
    sql.append(") VALUES (");
    let marks = join_strings(&placeholders, ", ");
    sql.append(marks.as_str());
    sql.append(")");
    (sql, columns)
}

/// A value that satisfies every rule passes; otherwise the reported failure is that
/// of the first rule it breaks, whatever rules come after it.
pub proof fn first_broken_rule_decides(rules: Seq<RuleView>, more: RuleView, value: Seq<char>, bytes: nat)
    ensures
        (forall|i: int| 0 <= i < rules.len() ==> rule_holds(#[trigger] rules[i], value, bytes))
            ==> first_failure(rules, value, bytes) is None,
        first_failure(rules.push(more), value, bytes) == (match first_failure(rules, value, bytes) {
            Some(code) => Some(code),
            None => if rule_holds(more, value, bytes) { None } else { Some(rule_code(more)) },
        }),
    decreases rules.len(),
{
    if rules.len() > 0 {
        first_broken_rule_decides(rules.drop_first(), more, value, bytes);
        assert(rules.push(more).drop_first() =~= rules.drop_first().push(more));
        assert(rules.push(more)[0] == rules[0]);
        if forall|i: int| 0 <= i < rules.len() ==> rule_holds(#[trigger] rules[i], value, bytes) {
            assert(rule_holds(rules[0], value, bytes));
            assert forall|i: int| 0 <= i < rules.drop_first().len()
                implies rule_holds(#[trigger] rules.drop_first()[i], value, bytes) by {
                assert(rules.drop_first()[i] == rules[i + 1]);
            }
        }
    } else {
        assert(rules.push(more).drop_first() =~= Seq::<RuleView>::empty());
        assert(first_failure(rules.push(more).drop_first(), value, bytes) is None);
        assert(rules.push(more)[0] == more);
    }
}

} // verus!
