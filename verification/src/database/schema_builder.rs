//! Builds SQLite `CREATE TABLE` / `DROP TABLE` statements from a fluent
//! description of tables, columns and foreign keys.
use vstd::prelude::*;
use vstd::string::*;
use crate::text::{join, join_strings, views};

verus! {

/// What a column is made of: its name, its SQL type and its constraints in order.
pub struct ColumnView {
    pub name: Seq<char>,
    pub sql_type: Seq<char>,
    pub constraints: Seq<Seq<char>>,
}

/// A column of a table under construction.
#[derive(Debug)]
pub struct Column {
    name: String,
    sql_type: String,
    constraints: Vec<String>,
}

impl View for Column {
    type V = ColumnView;

    closed spec fn view(&self) -> ColumnView {
        ColumnView { name: self.name@, sql_type: self.sql_type@, constraints: views(self.constraints@) }
    }
}

/// The column definition as it stands inside `CREATE TABLE`.
pub open spec fn column_sql(c: ColumnView) -> Seq<char> {
    if c.constraints.len() == 0 {
        c.name + " "@ + c.sql_type
    } else {
        c.name + " "@ + c.sql_type + " "@ + join(c.constraints, " "@)
    }
}

/// A fresh column with no constraints.
pub open spec fn bare_column(name: Seq<char>, sql_type: Seq<char>) -> ColumnView {
    ColumnView { name, sql_type, constraints: Seq::empty() }
}

/// `s` without its first occurrence of `x` (unchanged when `x` does not occur).
pub open spec fn remove_first(s: Seq<Seq<char>>, x: Seq<char>) -> Seq<Seq<char>>
    decreases s.len(),
{
    if s.len() == 0 {
        s
    } else if s[0] == x {
        s.drop_first()
    } else {
        seq![s[0]] + remove_first(s.drop_first(), x)
    }
}

proof fn lemma_remove_first_at(s: Seq<Seq<char>>, x: Seq<char>, i: int)
    requires
        0 <= i < s.len(),
        s[i] == x,
        forall|j: int| 0 <= j < i ==> s[j] != x,
    ensures
        remove_first(s, x) == s.remove(i),
    decreases i,
{
    if i == 0 {
        assert(s.drop_first() =~= s.remove(0));
    } else {
        lemma_remove_first_at(s.drop_first(), x, i - 1);
        assert(seq![s[0]] + s.drop_first().remove(i - 1) =~= s.remove(i));
    }
}

proof fn lemma_remove_first_absent(s: Seq<Seq<char>>, x: Seq<char>)
    requires
        forall|j: int| 0 <= j < s.len() ==> s[j] != x,
    ensures
        remove_first(s, x) == s,
    decreases s.len(),
{
    if s.len() > 0 {
        lemma_remove_first_absent(s.drop_first(), x);
        assert(seq![s[0]] + s.drop_first() =~= s);
    }
}

impl Column {
    fn plain(name: &str, sql_type: &str) -> (c: Column)
        ensures
            c@ == bare_column(name@, sql_type@),
    {
        let c = Column { name: String::from_str(name), sql_type: String::from_str(sql_type), constraints: Vec::new() };
        assert(c@.constraints =~= Seq::<Seq<char>>::empty());
        c
    }

    fn push_constraint(&mut self, constraint: String)
        ensures
            final(self)@ == (ColumnView { constraints: old(self)@.constraints.push(constraint@), ..old(self)@ }),
    {
        self.constraints.push(constraint);
        assert(views(self.constraints@) =~= views(old(self).constraints@).push(constraint@));
    }

    /// Adds the `NOT NULL` constraint.
    pub fn not_null(&mut self) -> (r: &mut Self)
        ensures
            r@ == (ColumnView { constraints: old(self)@.constraints.push("NOT NULL"@), ..old(self)@ }),
            *final(self) == *final(r),
    {
        self.push_constraint(String::from_str("NOT NULL"));
        self
    }

    /// Adds the `UNIQUE` constraint.
    pub fn unique(&mut self) -> (r: &mut Self)
        ensures
            r@ == (ColumnView { constraints: old(self)@.constraints.push("UNIQUE"@), ..old(self)@ }),
            *final(self) == *final(r),
    {
        self.push_constraint(String::from_str("UNIQUE"));
        self
    }

    /// Adds a `DEFAULT <value>` constraint.
    pub fn default(&mut self, value: &str) -> (r: &mut Self)
        ensures
            r@ == (ColumnView { constraints: old(self)@.constraints.push("DEFAULT "@ + value@), ..old(self)@ }),
            *final(self) == *final(r),
    {
        let c = String::from_str("DEFAULT ").concat(value);
        self.push_constraint(c);
        self
    }

    /// Removes the first `NOT NULL` constraint, if there is one.
    pub fn nullable(&mut self) -> (r: &mut Self)
        ensures
            r@ == (ColumnView { constraints: remove_first(old(self)@.constraints, "NOT NULL"@), ..old(self)@ }),
            *final(self) == *final(r),
    {
        let not_null = String::from_str("NOT NULL");
        let mut i: usize = 0;
        let ghost cs = self@.constraints;
        while i < self.constraints.len()
            invariant
                i <= self.constraints.len(),
                cs == views(self.constraints@),
                cs.len() == self.constraints.len(),
                forall|j: int| 0 <= j < i ==> cs[j] != not_null@,
                not_null@ == "NOT NULL"@,
            ensures
                i < self.constraints.len() ==> cs[i as int] == not_null@,
            decreases self.constraints.len() - i,
        {
            if self.constraints[i] == not_null {
                break;
            }
            i = i + 1;
        }
        if i < self.constraints.len() {
            proof { lemma_remove_first_at(cs, not_null@, i as int); }
            self.constraints.remove(i);
            assert(views(self.constraints@) =~= cs.remove(i as int));
        } else {
            proof { lemma_remove_first_absent(cs, not_null@); }
        }
        self
    }

    /// Renders the column definition.
    pub fn to_sql(&self) -> (s: String)
        ensures
            s@ == column_sql(self@),
    {
        let mut s = String::from_str(self.name.as_str());
        s.append(" ");
        s.append(self.sql_type.as_str());
        if self.constraints.len() != 0 {
            s.append(" ");
            let rest = join_strings(&self.constraints, " ");
            s.append(rest.as_str());
        }
        s
    }
}


/// What a foreign key is made of.
pub struct ForeignKeyView {
    pub column: Seq<char>,
    pub references_table: Seq<char>,
    pub references_column: Seq<char>,
    pub on_delete: Option<Seq<char>>,
    pub on_update: Option<Seq<char>>,
}

/// A foreign key constraint of a table.
pub struct ForeignKey {
    column: String,
    references_table: String,
    references_column: String,
    on_delete: Option<String>,
    on_update: Option<String>,
}

/// The view of an optional string.
pub open spec fn opt_view(o: Option<String>) -> Option<Seq<char>> {
    match o {
        Some(s) => Some(s@),
        None => None,
    }
}

impl View for ForeignKey {
    type V = ForeignKeyView;

    closed spec fn view(&self) -> ForeignKeyView {
        ForeignKeyView {
            column: self.column@,
            references_table: self.references_table@,
            references_column: self.references_column@,
            on_delete: opt_view(self.on_delete),
            on_update: opt_view(self.on_update),
        }
    }
}

/// The foreign key clause as it stands inside `CREATE TABLE`.
pub open spec fn foreign_key_sql(f: ForeignKeyView) -> Seq<char> {
    let base = "FOREIGN KEY ("@ + f.column + ") REFERENCES "@ + f.references_table + "("@
        + f.references_column + ")"@;
    let with_delete = match f.on_delete {
        Some(a) => base + " ON DELETE "@ + a,
        None => base,
    };
    match f.on_update {
        Some(a) => with_delete + " ON UPDATE "@ + a,
        None => with_delete,
    }
}

impl ForeignKey {
    /// Renders the foreign key clause.
    pub fn to_sql(&self) -> (s: String)
        ensures
            s@ == foreign_key_sql(self@),
    {
        let mut sql = String::from_str("FOREIGN KEY (");
        sql.append(self.column.as_str());
        sql.append(") REFERENCES ");
        sql.append(self.references_table.as_str());
        sql.append("(");
        sql.append(self.references_column.as_str());
        sql.append(")");
        match &self.on_delete {
            Some(on_delete) => {
                sql.append(" ON DELETE ");
                sql.append(on_delete.as_str());
            },
            None => {},
        }
        match &self.on_update {
            Some(on_update) => {
                sql.append(" ON UPDATE ");
                sql.append(on_update.as_str());
            },
            None => {},
        }
        sql
    }
}

/// What a table is made of: its name, its columns and its foreign keys, in order.
pub struct TableView {
    pub name: Seq<char>,
    pub columns: Seq<ColumnView>,
    pub foreign_keys: Seq<ForeignKeyView>,
}

/// A table under construction.
pub struct Table {
    name: String,
    columns: Vec<Column>,
    foreign_keys: Vec<ForeignKey>,
}

pub open spec fn column_views(v: Seq<Column>) -> Seq<ColumnView> {
    v.map_values(|c: Column| c@)
}

pub open spec fn foreign_key_views(v: Seq<ForeignKey>) -> Seq<ForeignKeyView> {
    v.map_values(|f: ForeignKey| f@)
}

impl View for Table {
    type V = TableView;

    closed spec fn view(&self) -> TableView {
        TableView {
            name: self.name@,
            columns: column_views(self.columns@),
            foreign_keys: foreign_key_views(self.foreign_keys@),
        }
    }
}

/// The lines of the body of `CREATE TABLE`: one per column, then one per foreign key.
pub open spec fn table_lines(t: TableView) -> Seq<Seq<char>> {
    t.columns.map_values(|c: ColumnView| "    "@ + column_sql(c))
        + t.foreign_keys.map_values(|f: ForeignKeyView| "    "@ + foreign_key_sql(f))
}

/// The `CREATE TABLE` statement of a table.
pub open spec fn table_sql(t: TableView) -> Seq<char> {
    "CREATE TABLE "@ + t.name + " (\n"@ + join(table_lines(t), ",\n"@) + "\n)"@
}

/// A table with the given name, no columns and no foreign keys.
pub open spec fn empty_table(name: Seq<char>) -> TableView {
    TableView { name, columns: Seq::empty(), foreign_keys: Seq::empty() }
}

proof fn lemma_column_views_set_last(s: Seq<Column>)
    requires
        s.len() > 0,
    ensures
        forall|x: Column| #[trigger] column_views(s.update(s.len() - 1, x)) == column_views(s.drop_last()).push(x@),
{
    assert forall|x: Column| #[trigger] column_views(s.update(s.len() - 1, x)) == column_views(s.drop_last()).push(x@) by {
        assert(column_views(s.update(s.len() - 1, x)) =~= column_views(s.drop_last()).push(x@));
    }
}

/// The primary key column that `Table::id` adds.
pub open spec fn id_column() -> ColumnView {
    ColumnView { name: "id"@, sql_type: "INTEGER"@, constraints: seq!["PRIMARY KEY AUTOINCREMENT"@] }
}

/// An integer timestamp column as `Table::timestamps` adds it.
pub open spec fn timestamp_column(name: Seq<char>) -> ColumnView {
    ColumnView { name, sql_type: "INTEGER"@, constraints: seq!["NOT NULL"@, "DEFAULT "@ + "CURRENT_TIMESTAMP"@] }
}

/// A text timestamp column as `Table::timestamp_iso_strings` adds it.
pub open spec fn iso_timestamp_column(name: Seq<char>) -> ColumnView {
    ColumnView { name, sql_type: "TEXT"@, constraints: seq!["NOT NULL"@, "DEFAULT (datetime('now'))"@] }
}

/// A foreign key on `column` that references nothing yet.
pub open spec fn unset_foreign_key(column: Seq<char>) -> ForeignKeyView {
    ForeignKeyView {
        column,
        references_table: Seq::empty(),
        references_column: Seq::empty(),
        on_delete: None,
        on_update: None,
    }
}

/// A foreign key under construction, attached to the table it will be added to.
pub struct ForeignKeyBuilder<'a> {
    /// The table the key will be added to.
    pub table: &'a mut Table,
    /// The foreign key being built.
    pub foreign_key: ForeignKey,
}

impl<'a> ForeignKeyBuilder<'a> {
    /// The foreign key being built.
    pub open spec fn pending(&self) -> ForeignKeyView {
        self.foreign_key@
    }

    fn new(table: &'a mut Table, column: &str) -> (b: Self)
        ensures
            b.table@ == old(table)@,
            b.pending() == unset_foreign_key(column@),
            *final(table) == *final(b.table),
    {
        ForeignKeyBuilder {
            table,
            foreign_key: ForeignKey {
                column: String::from_str(column),
                references_table: String::new(),
                references_column: String::new(),
                on_delete: None,
                on_update: None,
            },
        }
    }

    /// Sets the referenced table and column.
    pub fn references(self, table: &str, column: &str) -> (b: Self)
        ensures
            b.table == self.table,
            b.pending() == (ForeignKeyView { references_table: table@, references_column: column@, ..self.pending() }),
    {
        let mut b = self;
        b.foreign_key.references_table = String::from_str(table);
        b.foreign_key.references_column = String::from_str(column);
        b
    }

    /// Sets the `ON DELETE` action.
    pub fn on_delete(self, action: &str) -> (b: Self)
        ensures
            b.table == self.table,
            b.pending() == (ForeignKeyView { on_delete: Some(action@), ..self.pending() }),
    {
        let mut b = self;
        b.foreign_key.on_delete = Some(String::from_str(action));
        b
    }

    /// Sets the `ON UPDATE` action.
    pub fn on_update(self, action: &str) -> (b: Self)
        ensures
            b.table == self.table,
            b.pending() == (ForeignKeyView { on_update: Some(action@), ..self.pending() }),
    {
        let mut b = self;
        b.foreign_key.on_update = Some(String::from_str(action));
        b
    }

    /// Adds the foreign key to the table and hands the table back.
    pub fn build(self) -> (r: &'a mut Table)
        ensures
            r@ == (TableView { foreign_keys: old(self.table)@.foreign_keys.push(self.pending()), ..old(self.table)@ }),
            *final(r) == *final(self.table),
    {
        let ForeignKeyBuilder { table, foreign_key } = self;
        let ghost fk = foreign_key@;
        let ghost before = table.foreign_keys@;
        table.foreign_keys.push(foreign_key);
        assert(foreign_key_views(table.foreign_keys@) =~= foreign_key_views(before).push(fk));
        table
    }
}

impl Table {
    /// A new table with no columns.
    pub fn new(name: &str) -> (t: Table)
        ensures
            t@ == empty_table(name@),
    {
        let t = Table { name: String::from_str(name), columns: Vec::new(), foreign_keys: Vec::new() };
        assert(t@.columns =~= Seq::<ColumnView>::empty());
        assert(t@.foreign_keys =~= Seq::<ForeignKeyView>::empty());
        t
    }

    fn push_column(&mut self, column: Column)
        ensures
            final(self)@ == (TableView { columns: old(self)@.columns.push(column@), ..old(self)@ }),
    {
        self.columns.push(column);
        assert(column_views(self.columns@) =~= column_views(old(self).columns@).push(column@));
    }

    fn add_column(&mut self, name: &str, sql_type: &str) -> (r: &mut Column)
        ensures
            r@ == bare_column(name@, sql_type@),
            final(self)@ == (TableView { columns: old(self)@.columns.push(final(r)@), ..old(self)@ }),
    {
        let column = Column::plain(name, sql_type);
        self.columns.push(column);
        let ghost pushed = self.columns@;
        assert(pushed.len() == old(self).columns@.len() + 1);
        proof { lemma_column_views_set_last(pushed); }
        assert(pushed.drop_last() =~= old(self).columns@);
        self.columns.last_mut().unwrap()
    }

    /// Adds an `INTEGER` column and hands it back for further constraints.
    pub fn integer(&mut self, name: &str) -> (r: &mut Column)
        ensures
            r@ == bare_column(name@, "INTEGER"@),
            final(self)@ == (TableView { columns: old(self)@.columns.push(final(r)@), ..old(self)@ }),
    {
        self.add_column(name, "INTEGER")
    }

    /// Adds a `TEXT` column and hands it back for further constraints.
    pub fn text(&mut self, name: &str) -> (r: &mut Column)
        ensures
            r@ == bare_column(name@, "TEXT"@),
            final(self)@ == (TableView { columns: old(self)@.columns.push(final(r)@), ..old(self)@ }),
    {
        self.add_column(name, "TEXT")
    }

    /// Adds a `REAL` column and hands it back for further constraints.
    pub fn real_number(&mut self, name: &str) -> (r: &mut Column)
        ensures
            r@ == bare_column(name@, "REAL"@),
            final(self)@ == (TableView { columns: old(self)@.columns.push(final(r)@), ..old(self)@ }),
    {
        self.add_column(name, "REAL")
    }

    /// Adds a `BOOLEAN` column and hands it back for further constraints.
    pub fn boolean(&mut self, name: &str) -> (r: &mut Column)
        ensures
            r@ == bare_column(name@, "BOOLEAN"@),
            final(self)@ == (TableView { columns: old(self)@.columns.push(final(r)@), ..old(self)@ }),
    {
        self.add_column(name, "BOOLEAN")
    }

    /// Adds the auto-incrementing integer primary key `id`.
    pub fn id(&mut self) -> (r: &mut Self)
        ensures
            r@ == (TableView { columns: old(self)@.columns.push(id_column()), ..old(self)@ }),
            *final(self) == *final(r),
    {
        let mut column = Column::plain("id", "INTEGER");
        column.push_constraint(String::from_str("PRIMARY KEY AUTOINCREMENT"));
        self.push_column(column);
        assert(column@.constraints =~= id_column().constraints);
        self
    }

    fn timestamp_integer(name: &str) -> (c: Column)
        ensures
            c@ == timestamp_column(name@),
    {
        let mut c = Column::plain(name, "INTEGER");
        c.not_null();
        c.default("CURRENT_TIMESTAMP");
        assert(c@.constraints =~= timestamp_column(name@).constraints);
        c
    }

    fn timestamp_text(name: &str) -> (c: Column)
        ensures
            c@ == iso_timestamp_column(name@),
    {
        let mut c = Column::plain(name, "TEXT");
        c.push_constraint(String::from_str("NOT NULL"));
        c.push_constraint(String::from_str("DEFAULT (datetime('now'))"));
        assert(c@.constraints =~= iso_timestamp_column(name@).constraints);
        c
    }

    /// Adds `created_at` and `updated_at` integer columns, not null, defaulting to
    /// `CURRENT_TIMESTAMP`.
    pub fn timestamps(&mut self) -> (r: &mut Self)
        ensures
            r@ == (TableView {
                columns: old(self)@.columns.push(timestamp_column("created_at"@)).push(timestamp_column("updated_at"@)),
                ..old(self)@
            }),
            *final(self) == *final(r),
    {
        let created_at = Self::timestamp_integer("created_at");
        self.push_column(created_at);
        let updated_at = Self::timestamp_integer("updated_at");
        self.push_column(updated_at);
        self
    }

    /// Adds `created_at` and `updated_at` text columns, not null, defaulting to the
    /// current date and time.
    pub fn timestamp_iso_strings(&mut self) -> (r: &mut Self)
        ensures
            r@ == (TableView {
                columns: old(self)@.columns.push(iso_timestamp_column("created_at"@)).push(iso_timestamp_column("updated_at"@)),
                ..old(self)@
            }),
            *final(self) == *final(r),
    {
        let created_at = Self::timestamp_text("created_at");
        self.push_column(created_at);
        let updated_at = Self::timestamp_text("updated_at");
        self.push_column(updated_at);
        self
    }

    /// Starts a foreign key on `column`; `build` adds it to this table.
    pub fn foreign(&mut self, column: &str) -> (b: ForeignKeyBuilder)
        ensures
            b.table@ == old(self)@,
            b.pending() == unset_foreign_key(column@),
            *final(self) == *final(b.table),
    {
        ForeignKeyBuilder::new(self, column)
    }

    /// Renders the `CREATE TABLE` statement.
    pub fn to_sql(&self) -> (s: String)
        ensures
            s@ == table_sql(self@),
    {
        let mut parts: Vec<String> = Vec::new();
        let mut i: usize = 0;
        while i < self.columns.len()
            invariant
                i <= self.columns.len(),
                views(parts@) =~= table_lines(self@).take(i as int),
            decreases self.columns.len() - i,
        {
            let mut line = String::from_str("    ");
            let c = self.columns[i].to_sql();
            line.append(c.as_str());
            let ghost before = views(parts@);
            parts.push(line);
            assert(table_lines(self@)[i as int] == "    "@ + column_sql(self.columns@[i as int]@));
            assert(views(parts@) =~= before.push(line@));
            assert(table_lines(self@).take(i + 1) =~= table_lines(self@).take(i as int).push(table_lines(self@)[i as int]));
            i = i + 1;
        }
        let mut j: usize = 0;
        while j < self.foreign_keys.len()
            invariant
                i == self.columns.len(),
                j <= self.foreign_keys.len(),
                views(parts@) =~= table_lines(self@).take(i + j),
            decreases self.foreign_keys.len() - j,
        {
            let mut line = String::from_str("    ");
            let f = self.foreign_keys[j].to_sql();
            line.append(f.as_str());
            let ghost before = views(parts@);
            parts.push(line);
            assert(table_lines(self@)[i + j] == "    "@ + foreign_key_sql(self.foreign_keys@[j as int]@));
            assert(views(parts@) =~= before.push(line@));
            assert(table_lines(self@).take(i + j + 1) =~= table_lines(self@).take(i + j).push(table_lines(self@)[i + j]));
            j = j + 1;
        }
        assert(table_lines(self@).take(i + j) =~= table_lines(self@));
        let mut sql = String::from_str("CREATE TABLE ");
        sql.append(self.name.as_str());
        sql.append(" (\n");
        let body = join_strings(&parts, ",\n");
        sql.append(body.as_str());
        sql.append("\n)");
        sql
    }
}

/// Collects schema statements in the order they are declared.
pub struct SchemaBuilder {
    statements: Vec<String>,
}

impl View for SchemaBuilder {
    type V = Seq<Seq<char>>;

    closed spec fn view(&self) -> Seq<Seq<char>> {
        views(self.statements@)
    }
}

impl SchemaBuilder {
    /// A builder with no statements.
    pub fn new() -> (b: Self)
        ensures
            b@ == Seq::<Seq<char>>::empty(),
    {
        let b = SchemaBuilder { statements: Vec::new() };
        assert(b@ =~= Seq::<Seq<char>>::empty());
        b
    }

    fn push_statement(&mut self, statement: String)
        ensures
            final(self)@ == old(self)@.push(statement@),
    {
        self.statements.push(statement);
        assert(views(self.statements@) =~= views(old(self).statements@).push(statement@));
    }

    /// Describes a table with `callback` and adds its `CREATE TABLE` statement.
    pub fn create_table<F: FnOnce(&mut Table)>(&mut self, table_name: &str, callback: F) -> (r: &mut Self)
        requires
            forall|t: &mut Table| #[trigger] callback.requires((t,)),
        ensures
            exists|t: &mut Table| {
                &&& (*t)@ == empty_table(table_name@)
                &&& #[trigger] callback.ensures((t,), ())
                &&& r@ == old(self)@.push(table_sql((*final(t))@))
            },
            *final(self) == *final(r),
    {
        let mut table = Table::new(table_name);
        callback(&mut table);
        let sql = table.to_sql();
        self.push_statement(sql);
        self
    }

    /// Adds a `DROP TABLE IF EXISTS` statement for `table_name`.
    pub fn drop_table(&mut self, table_name: &str) -> (r: &mut Self)
        ensures
            r@ == old(self)@.push("DROP TABLE IF EXISTS "@ + table_name@),
            *final(self) == *final(r),
    {
        let sql = String::from_str("DROP TABLE IF EXISTS ").concat(table_name);
        self.push_statement(sql);
        self
    }

    /// All statements, separated by `;` and a newline.
    pub fn to_sql(&self) -> (s: String)
        ensures
            s@ == join(self@, ";\n"@),
    {
        join_strings(&self.statements, ";\n")
    }
}

/// `nullable` undoes `not_null` on a column that had no `NOT NULL` constraint.
pub proof fn nullable_undoes_not_null(constraints: Seq<Seq<char>>)
    requires
        !constraints.contains("NOT NULL"@),
    ensures
        remove_first(constraints.push("NOT NULL"@), "NOT NULL"@) == constraints,
{
    let s = constraints.push("NOT NULL"@);
    assert forall|j: int| 0 <= j < constraints.len() implies s[j] != "NOT NULL"@ by {
        assert(s[j] == constraints[j]);
    }
    lemma_remove_first_at(s, "NOT NULL"@, constraints.len() as int);
    assert(s.remove(constraints.len() as int) =~= constraints);
}

/// A foreign-key clause names the column and what it references, then carries the
/// `ON DELETE` action if one was set, then the `ON UPDATE` action if one was set; each
/// action appears under its own keyword, and a clause with an update action ends with it.
pub proof fn foreign_key_clause_actions(f: ForeignKeyView)
    ensures
        foreign_key_sql(f) == "FOREIGN KEY ("@ + f.column + ") REFERENCES "@ + f.references_table + "("@
            + f.references_column + ")"@
            + (match f.on_delete { Some(d) => " ON DELETE "@ + d, None => Seq::<char>::empty() })
            + (match f.on_update { Some(u) => " ON UPDATE "@ + u, None => Seq::<char>::empty() }),
        f.on_update matches Some(u) ==> (" ON UPDATE "@ + u).is_suffix_of(foreign_key_sql(f)),
        f.on_update is None ==> (f.on_delete matches Some(d) ==> (" ON DELETE "@ + d).is_suffix_of(foreign_key_sql(f))),
{
    let base = "FOREIGN KEY ("@ + f.column + ") REFERENCES "@ + f.references_table + "("@
        + f.references_column + ")"@;
    let del = match f.on_delete { Some(d) => " ON DELETE "@ + d, None => Seq::<char>::empty() };
    let upd = match f.on_update { Some(u) => " ON UPDATE "@ + u, None => Seq::<char>::empty() };
    assert(foreign_key_sql(f) =~= base + del + upd);
    let s = foreign_key_sql(f);
    if let Some(u) = f.on_update {
        assert(upd =~= " ON UPDATE "@ + u);
        assert(s.subrange(s.len() - upd.len(), s.len() as int) =~= upd);
    } else {
        if let Some(d) = f.on_delete {
            assert(s.subrange(s.len() - del.len(), s.len() as int) =~= del);
        }
    }
}

} // verus!
