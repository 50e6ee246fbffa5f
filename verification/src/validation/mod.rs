//! Validation errors collected per field, and the rules that produce them.
use vstd::prelude::*;
use vstd::string::*;
use crate::text::{views, str_eq};

pub mod rules;

verus! {

/// A failed rule, identified by its code (such as `"required"`).
#[derive(Debug)]
pub struct ValidationError {
    code: String,
}

impl View for ValidationError {
    type V = Seq<char>;

    closed spec fn view(&self) -> Seq<char> {
        self.code@
    }
}

impl ValidationError {
    /// An error with the given code.
    pub fn new(code: &str) -> (e: Self)
        ensures
            e@ == code@,
    {
        ValidationError { code: String::from_str(code) }
    }

    /// The code of the failed rule.
    pub fn code(&self) -> (c: &str)
        ensures
            c@ == self@,
    {
        self.code.as_str()
    }
}

/// Fields with the messages recorded against each, in the order fields first failed.
pub type ErrorEntries = Seq<(Seq<char>, Seq<Seq<char>>)>;

pub open spec fn entry_views(v: Seq<(String, Vec<String>)>) -> ErrorEntries {
    v.map_values(|e: (String, Vec<String>)| (e.0@, views(e.1@)))
}

/// Whether `i` is the first position of an entry for `field`.
pub open spec fn first_entry_at(entries: ErrorEntries, field: Seq<char>, i: int) -> bool {
    &&& 0 <= i < entries.len()
    &&& entries[i].0 == field
    &&& forall|j: int| 0 <= j < i ==> entries[j].0 != field
}

/// The position of the (first) entry for `field`, if there is one.
pub open spec fn field_index(entries: ErrorEntries, field: Seq<char>) -> Option<int> {
    if exists|i: int| #[trigger] first_entry_at(entries, field, i) {
        Some(choose|i: int| #[trigger] first_entry_at(entries, field, i))
    } else {
        None
    }
}

/// No field has two entries.
pub open spec fn distinct_fields(entries: ErrorEntries) -> bool {
    forall|i: int, j: int| 0 <= i < j < entries.len() ==> #[trigger] entries[i].0 != #[trigger] entries[j].0
}

/// The messages recorded against `field` (none when it has no entry).
pub open spec fn messages_of(entries: ErrorEntries, field: Seq<char>) -> Seq<Seq<char>> {
    match field_index(entries, field) {
        Some(i) => entries[i].1,
        None => Seq::empty(),
    }
}

/// The entries once `message` is recorded against `field`: appended to the field's
/// messages, or a new entry at the end for a field without one.
pub open spec fn with_message(entries: ErrorEntries, field: Seq<char>, message: Seq<char>) -> ErrorEntries {
    match field_index(entries, field) {
        Some(i) => entries.update(i, (field, entries[i].1.push(message))),
        None => entries.push((field, seq![message])),
    }
}

/// Validation errors keyed by field name; each field appears at most once.
#[derive(Debug)]
pub struct ValidationErrors {
    errors: Vec<(String, Vec<String>)>,
}

impl View for ValidationErrors {
    type V = ErrorEntries;

    closed spec fn view(&self) -> ErrorEntries {
        entry_views(self.errors@)
    }
}

impl ValidationErrors {
    /// Each field has one entry at most.
    #[verifier::type_invariant]
    spec fn fields_distinct(self) -> bool {
        distinct_fields(entry_views(self.errors@))
    }

    /// No errors.
    pub fn new() -> (e: Self)
        ensures
            e@ == ErrorEntries::empty(),
    {
        let e = ValidationErrors { errors: Vec::new() };
        assert(e@ =~= ErrorEntries::empty());
        e
    }

    /// Records `message` against `field`, after the messages already recorded for it.
    pub fn add(&mut self, field: &str, message: &str)
        ensures
            final(self)@ == with_message(old(self)@, field@, message@),
            distinct_fields(final(self)@),
    {
        proof { use_type_invariant(&*self); }
        let ghost es = self@;
        let mut errors: Vec<(String, Vec<String>)> = Vec::new();
        std::mem::swap(&mut errors, &mut self.errors);
        assert(entry_views(errors@) == es);
        let mut i: usize = 0;
        let n = errors.len();
        while i < n
            invariant
                n == errors.len(),
                es == entry_views(errors@),
                es.len() == n,
                i <= n,
                forall|j: int| 0 <= j < i ==> es[j].0 != field@,
            ensures
                i < n ==> es[i as int].0 == field@,
            decreases n - i,
        {
            if str_eq(errors[i].0.as_str(), field) {
                break;
            }
            i = i + 1;
        }
        if i < n {
            let ghost found = es[i as int];
            let ghost before = errors@;
            let msg = String::from_str(message);
            errors[i].1.push(msg);
            assert(errors@.len() == before.len());
            assert(errors@[i as int].0 == before[i as int].0);
            assert(errors@[i as int].1@ == before[i as int].1@.push(msg));
            assert(forall|j: int| 0 <= j < before.len() && j != i ==> errors@[j] == before[j]);
            assert(views(errors@[i as int].1@) =~= views(before[i as int].1@).push(message@));
            assert(entry_views(errors@) =~= es.update(i as int, (field@, found.1.push(message@))));
            assert(first_entry_at(es, field@, i as int));
            assert(field_index(es, field@) == Some(i as int));
            let ghost after = entry_views(errors@);
            assert(forall|j: int| 0 <= j < n ==> #[trigger] after[j].0 == es[j].0);
        } else {
            let mut messages: Vec<String> = Vec::new();
            messages.push(String::from_str(message));
            assert(views(messages@) =~= seq![message@]);
            errors.push((String::from_str(field), messages));
            assert(entry_views(errors@) =~= es.push((field@, seq![message@])));
            assert(forall|k: int| !first_entry_at(es, field@, k));
            assert(field_index(es, field@) == None::<int>);
            let ghost after = entry_views(errors@);
            assert(forall|j: int| 0 <= j < n ==> #[trigger] after[j].0 == es[j].0);
        }
        self.errors = errors;
    }

    /// The entries, in the order fields first failed; each field appears once.
    pub fn errors(&self) -> (r: &Vec<(String, Vec<String>)>)
        ensures
            entry_views(r@) == self@,
            distinct_fields(self@),
    {
        proof { use_type_invariant(self); }
        &self.errors
    }

    /// Whether any error was recorded.
    pub fn has_errors(&self) -> (b: bool)
        ensures
            b == (self@.len() > 0),
    {
        self.errors.len() != 0
    }
}

/// Rule names for each field of a request, such as `["required", "min:6"]`.
pub trait Rules {
    fn rules() -> Vec<(&'static str, Vec<&'static str>)>;
}

/// A request that checks itself and reports every failure.
pub trait Validator {
    fn validate(&self) -> Result<(), ValidationErrors>;
}

/// A login form: an e-mail address and a password of at least six bytes.
pub struct LoginRequest {
    pub email: String,
    pub password: String,
}

impl Rules for LoginRequest {
    fn rules() -> (r: Vec<(&'static str, Vec<&'static str>)>)
        ensures
            r@.len() == 2,
            r@[0].0@ == "email"@,
            r@[0].1@.len() == 2,
            r@[0].1@[0]@ == "required"@,
            r@[0].1@[1]@ == "email"@,
            r@[1].0@ == "password"@,
            r@[1].1@.len() == 2,
            r@[1].1@[0]@ == "required"@,
            r@[1].1@[1]@ == "min:6"@,
    {
        let mut rules: Vec<(&'static str, Vec<&'static str>)> = Vec::new();
        let mut email: Vec<&'static str> = Vec::new();
        email.push("required");
        email.push("email");
        rules.push(("email", email));
        let mut password: Vec<&'static str> = Vec::new();
        password.push("required");
        password.push("min:6");
        rules.push(("password", password));
        rules
    }
}

proof fn lemma_first_entry_unique(entries: ErrorEntries, field: Seq<char>, a: int, b: int)
    requires
        first_entry_at(entries, field, a),
        first_entry_at(entries, field, b),
    ensures
        a == b,
{
    if a < b {
        assert(entries[a].0 != field);
    } else if b < a {
        assert(entries[b].0 != field);
    }
}

proof fn lemma_field_index_at(entries: ErrorEntries, field: Seq<char>, i: int)
    requires
        first_entry_at(entries, field, i),
    ensures
        field_index(entries, field) == Some(i),
{
    let k = choose|k: int| #[trigger] first_entry_at(entries, field, k);
    lemma_first_entry_unique(entries, field, k, i);
}

proof fn lemma_same_names_same_index(a: ErrorEntries, b: ErrorEntries, field: Seq<char>)
    requires
        a.len() <= b.len(),
        forall|j: int| 0 <= j < a.len() ==> #[trigger] a[j].0 == b[j].0,
        forall|j: int| a.len() <= j < b.len() ==> #[trigger] b[j].0 != field,
    ensures
        field_index(a, field) == field_index(b, field),
{
    if exists|k: int| #[trigger] first_entry_at(a, field, k) {
        let k = choose|k: int| #[trigger] first_entry_at(a, field, k);
        assert(a[k].0 == b[k].0);
        assert forall|j: int| 0 <= j < k implies b[j].0 != field by {
            assert(a[j].0 == b[j].0);
        }
        assert(first_entry_at(b, field, k));
        lemma_field_index_at(a, field, k);
        lemma_field_index_at(b, field, k);
    } else {
        assert forall|k: int| !first_entry_at(b, field, k) by {
            if first_entry_at(b, field, k) {
                if k < a.len() {
                    assert(a[k].0 == b[k].0);
                    assert forall|j: int| 0 <= j < k implies a[j].0 != field by {
                        assert(a[j].0 == b[j].0);
                    }
                    assert(first_entry_at(a, field, k));
                }
            }
        }
    }
}

/// Recording a message against a field appends it to that field's messages and leaves
/// every other field's messages as they were.
pub proof fn add_appends_to_field(entries: ErrorEntries, field: Seq<char>, message: Seq<char>, other: Seq<char>)
    requires
        distinct_fields(entries),
    ensures
        messages_of(with_message(entries, field, message), field) == messages_of(entries, field).push(message),
        other != field ==> messages_of(with_message(entries, field, message), other) == messages_of(entries, other),
{
    let after = with_message(entries, field, message);
    match field_index(entries, field) {
        Some(i) => {
            let k = choose|k: int| #[trigger] first_entry_at(entries, field, k);
            assert(first_entry_at(entries, field, k));
            assert(k == i);
            assert(first_entry_at(after, field, i));
            lemma_field_index_at(after, field, i);
            assert(forall|j: int| 0 <= j < entries.len() ==> #[trigger] after[j].0 == entries[j].0);
            lemma_same_names_same_index(entries, after, other);
            if other != field {
                if let Some(o) = field_index(entries, other) {
                    assert(first_entry_at(entries, other, o));
                    assert(o != i);
                }
            }
        },
        None => {
            let n = entries.len() as int;
            assert forall|j: int| 0 <= j < n implies entries[j].0 != field by {
                if entries[j].0 == field {
                    assert forall|m: int| 0 <= m < j implies entries[m].0 != field by {
                        assert(entries[m].0 != entries[j].0);
                    }
                    assert(first_entry_at(entries, field, j));
                }
            }
            assert(first_entry_at(after, field, n));
            lemma_field_index_at(after, field, n);
            assert(seq![message] =~= Seq::<Seq<char>>::empty().push(message));
            if other != field {
                assert(forall|j: int| 0 <= j < n ==> #[trigger] after[j].0 == entries[j].0);
                lemma_same_names_same_index(entries, after, other);
                if let Some(o) = field_index(entries, other) {
                    assert(first_entry_at(entries, other, o));
                }
            }
        },
    }
}

} // verus!
