//! Schema definitions as plain data: cell values, columns, tables,
//! foreign-key edges, secondary indexes and enumerated-type objects.
//!
//! Tables are identified by their position in the declared catalog order,
//! and well-formedness ties every edge and index back to that order: a
//! foreign-key edge always points from a later (child) table to an earlier
//! (parent) table, so creating tables in declaration order never leaves a
//! dangling reference and a single forward pass resolves cascades.

use vstd::prelude::*;

verus! {

/// A single cell of a row, as stored by the engine. Enumeration values,
/// decimals (as scaled integers), timestamps (as epoch seconds) and opaque
/// payloads are all carried by these four shapes.
pub enum Value {
    Int(i64),
    Text(String),
    Bool(bool),
    Null,
}

/// Mathematical image of a [`Value`].
pub enum Val {
    Int(int),
    Text(Seq<char>),
    Bool(bool),
    Null,
}

impl View for Value {
    type V = Val;

    open spec fn view(&self) -> Val {
        match self {
            Value::Int(x) => Val::Int(*x as int),
            Value::Text(s) => Val::Text(s@),
            Value::Bool(b) => Val::Bool(*b),
            Value::Null => Val::Null,
        }
    }
}

impl DeepView for Value {
    type V = Val;

    open spec fn deep_view(&self) -> Val {
        self.view()
    }
}

impl Clone for Value {
    fn clone(&self) -> (r: Self)
        ensures
            r@ == self@,
    {
        match self {
            Value::Int(x) => Value::Int(*x),
            Value::Text(s) => Value::Text(s.clone()),
            Value::Bool(b) => Value::Bool(*b),
            Value::Null => Value::Null,
        }
    }
}

/// Whether two cells hold the same value.
pub fn value_eq(a: &Value, b: &Value) -> (r: bool)
    ensures
        r == (a@ == b@),
{
    match a {
        Value::Int(x) => match b {
            Value::Int(y) => *x == *y,
            _ => false,
        },
        Value::Text(x) => match b {
            Value::Text(y) => *x == *y,
            _ => false,
        },
        Value::Bool(x) => match b {
            Value::Bool(y) => *x == *y,
            _ => false,
        },
        Value::Null => match b {
            Value::Null => true,
            _ => false,
        },
    }
}

/// Storage type of a column.
pub enum ColumnKind {
    Integer,
    BigInteger,
    SmallInteger,
    TinyInteger,
    /// Variable-length string, with an optional length limit.
    StringCol(Option<u32>),
    /// Fixed-length character string.
    CharCol(u32),
    TextCol,
    Boolean,
    TimestampTz,
    /// Decimal with the given precision and scale.
    Decimal(u32, u32),
    Json,
    /// A value of the enumerated type at this position in the type catalog.
    /// Stored as a native enum type where the backend has them, and as the
    /// textual identifier in a plain string column everywhere else.
    Enumeration(usize),
}

/// Default applied by the storage engine when a row is created without an
/// explicit value for the column.
pub enum DefaultRule {
    NoDefault,
    DefaultBool(bool),
    DefaultInt(i64),
    /// Textual identifier of an enumeration member.
    DefaultText(&'static str),
    DefaultCurrentTimestamp,
}

/// One column of a table.
pub struct ColumnDef {
    pub name: &'static str,
    pub kind: ColumnKind,
    pub nullable: bool,
    /// Column-level uniqueness constraint (for columns outside the primary key).
    pub unique: bool,
    pub auto_increment: bool,
    pub default: DefaultRule,
}

/// One table: its columns in declared order and the column positions that
/// form the primary key (a single auto-increment column, or a composite of
/// foreign-key columns with no auto-increment).
pub struct TableDef {
    pub name: &'static str,
    pub columns: Vec<ColumnDef>,
    pub pk: Vec<usize>,
}

/// Action propagated to dependent rows when a parent row changes.
pub enum FkAction {
    Cascade,
    Restrict,
    SetNull,
    NoAction,
}

/// A declared foreign-key edge: child column referencing a parent column,
/// with an update and a delete action. Tables are named by catalog position.
pub struct ForeignKeyDef {
    pub name: &'static str,
    pub child_table: usize,
    pub child_col: usize,
    pub parent_table: usize,
    pub parent_col: usize,
    pub on_update: FkAction,
    pub on_delete: FkAction,
}

/// A secondary index, declared independently of any foreign key.
pub struct IndexDef {
    pub name: &'static str,
    pub table: usize,
    pub cols: Vec<usize>,
    pub unique: bool,
}

/// A native enumerated-type object, with its member identifiers in order.
pub struct EnumTypeDef {
    pub name: &'static str,
    pub values: Vec<&'static str>,
}

/// Well-formedness of one column against a catalog of `n_types` enumerated
/// types.
pub open spec fn column_wf(c: ColumnDef, n_types: int) -> bool {
    c.kind matches ColumnKind::Enumeration(t) ==> (t as int) < n_types
}

/// Well-formedness of a table's primary key: non-empty, made of distinct,
/// in-range column positions.
pub open spec fn pk_wf(t: TableDef) -> bool {
    &&& 1 <= t.pk@.len() <= 5
    &&& forall|j: int| 0 <= j < t.pk@.len() ==> (#[trigger] t.pk@[j] as int) < t.columns@.len()
    &&& forall|j: int, k: int| 0 <= j < k < t.pk@.len() ==> t.pk@[j] != t.pk@[k]
}

/// Well-formedness of one table: a well-formed primary key, and columns
/// that only mention declared enumerated types.
pub open spec fn table_wf(t: TableDef, n_types: int) -> bool {
    &&& pk_wf(t)
    &&& forall|j: int| 0 <= j < t.columns@.len() ==> column_wf(#[trigger] t.columns@[j], n_types)
}

/// Whether the column at position `c` identifies a row of `t` on its own:
/// it is the whole primary key, or carries a uniqueness constraint.
pub open spec fn identifying_col(t: TableDef, c: int) -> bool {
    ||| (t.pk@.len() == 1 && t.pk@[0] == c)
    ||| (0 <= c < t.columns@.len() && t.columns@[c].unique)
}

/// Well-formedness of a foreign-key edge against the table catalog: the
/// parent stands earlier in declaration order than the child, the columns
/// are in range, and the parent column identifies its row, so a child cell
/// references at most one parent row.
pub open spec fn fk_wf(f: ForeignKeyDef, tables: Seq<TableDef>) -> bool {
    &&& f.parent_table < f.child_table < tables.len()
    &&& (f.child_col as int) < tables[f.child_table as int].columns@.len()
    &&& (f.parent_col as int) < tables[f.parent_table as int].columns@.len()
    &&& identifying_col(tables[f.parent_table as int], f.parent_col as int)
}

/// Well-formedness of an index against the table catalog.
pub open spec fn index_wf(ix: IndexDef, tables: Seq<TableDef>) -> bool {
    &&& (ix.table as int) < tables.len()
    &&& ix.cols@.len() >= 1
    &&& forall|j: int| 0 <= j < ix.cols@.len()
        ==> (#[trigger] ix.cols@[j] as int) < tables[ix.table as int].columns@.len()
}

/// A full schema catalog: enumerated types, tables, foreign-key edges and
/// secondary indexes, each in declared creation order.
pub struct Catalog {
    pub types: Vec<EnumTypeDef>,
    pub tables: Vec<TableDef>,
    pub fks: Vec<ForeignKeyDef>,
    pub indexes: Vec<IndexDef>,
}

/// Well-formedness of a whole catalog: every table, edge and index is
/// well-formed against the declared orders.
pub open spec fn catalog_wf(c: Catalog) -> bool {
    &&& forall|i: int| 0 <= i < c.tables@.len()
        ==> table_wf(#[trigger] c.tables@[i], c.types@.len() as int)
    &&& forall|i: int| 0 <= i < c.fks@.len() ==> fk_wf(#[trigger] c.fks@[i], c.tables@)
    &&& forall|i: int| 0 <= i < c.indexes@.len() ==> index_wf(#[trigger] c.indexes@[i], c.tables@)
}

/// The primary-key projection of a row of table `t`.
pub open spec fn pk_of(t: TableDef, r: Seq<Val>) -> Seq<Val> {
    Seq::new(t.pk@.len(), |j: int| r[t.pk@[j] as int])
}


/// The cell the storage engine fills for a column left unspecified at row
/// creation: the column's declared default, null for a nullable column
/// without one, and nothing for a required column without one.
pub open spec fn default_cell(c: ColumnDef, now: int) -> Option<Val> {
    match c.default {
        DefaultRule::DefaultBool(b) => Some(Val::Bool(b)),
        DefaultRule::DefaultInt(i) => Some(Val::Int(i as int)),
        DefaultRule::DefaultText(s) => Some(Val::Text(s@)),
        DefaultRule::DefaultCurrentTimestamp => Some(Val::Int(now)),
        DefaultRule::NoDefault => if c.nullable {
            Some(Val::Null)
        } else {
            None
        },
    }
}

/// Copies a row cell by cell.
pub fn clone_row(r: &Vec<Value>) -> (c: Vec<Value>)
    ensures
        c.deep_view() == r.deep_view(),
{
    let mut out: Vec<Value> = Vec::new();
    let mut i: usize = 0;
    while i < r.len()
        invariant
            i <= r.len(),
            out.deep_view() == r.deep_view().take(i as int),
        decreases r.len() - i,
    {
        assert(out.deep_view().len() == i);
        assert(out@.len() == i);
        out.push(r[i].clone());
        i += 1;
        assert(out.deep_view() =~= r.deep_view().take(i as int));
    }
    assert(out.deep_view() =~= r.deep_view());
    out
}

/// Whether two rows hold the same values, cell for cell.
pub fn row_eq(a: &Vec<Value>, b: &Vec<Value>) -> (r: bool)
    ensures
        r == (a.deep_view() == b.deep_view()),
{
    if a.len() != b.len() {
        assert(a.deep_view().len() == a@.len());
        assert(b.deep_view().len() == b@.len());
        return false;
    }
    let mut i: usize = 0;
    while i < a.len()
        invariant
            i <= a.len(),
            a@.len() == b@.len(),
            forall|j: int| 0 <= j < i ==> a.deep_view()[j] == b.deep_view()[j],
        decreases a.len() - i,
    {
        if !value_eq(&a[i], &b[i]) {
            assert(a.deep_view()[i as int] != b.deep_view()[i as int]);
            return false;
        }
        i += 1;
    }
    assert(a.deep_view() =~= b.deep_view());
    true
}

/// The primary-key projection of `row` for table `t`.
pub fn pk_project(t: &TableDef, row: &Vec<Value>) -> (k: Vec<Value>)
    requires
        forall|j: int| 0 <= j < t.pk@.len() ==> (#[trigger] t.pk@[j] as int) < row@.len(),
    ensures
        k.deep_view() == pk_of(*t, row.deep_view()),
{
    let mut out: Vec<Value> = Vec::new();
    let mut i: usize = 0;
    while i < t.pk.len()
        invariant
            i <= t.pk@.len(),
            forall|j: int| 0 <= j < t.pk@.len() ==> (#[trigger] t.pk@[j] as int) < row@.len(),
            out.deep_view() == pk_of(*t, row.deep_view()).take(i as int),
        decreases t.pk@.len() - i,
    {
        assert(out.deep_view().len() == i);
        assert(out@.len() == i);
        let c = t.pk[i];
        out.push(row[c].clone());
        i += 1;
        assert(out.deep_view() =~= pk_of(*t, row.deep_view()).take(i as int));
    }
    assert(out.deep_view() =~= pk_of(*t, row.deep_view()));
    out
}

} // verus!
