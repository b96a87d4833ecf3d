//! Definition of the `privileges` table.

use vstd::prelude::*;

use crate::catalog::{PRIVILEGES, NUM_TYPES};
use crate::schema::{ColumnDef, ColumnKind, DefaultRule, IndexDef, TableDef, table_wf};

verus! {

/// The declared content of the `privileges` table: its name, primary-key
/// shape, and every column with its type, nullability, uniqueness,
/// auto-increment flag and default rule.
pub open spec fn declared(t: TableDef) -> bool {
    &&& t.name@ == "privileges"@
    &&& t.pk@ == seq![0usize]
    &&& t.columns@.len() == 6
    &&& t.columns@[0].name@ == "id"@
    &&& t.columns@[0].kind == ColumnKind::BigInteger
    &&& !t.columns@[0].nullable
    &&& !t.columns@[0].unique
    &&& t.columns@[0].auto_increment
    &&& t.columns@[0].default == DefaultRule::NoDefault
    &&& t.columns@[1].name@ == "name"@
    &&& t.columns@[1].kind == ColumnKind::StringCol(None)
    &&& !t.columns@[1].nullable
    &&& t.columns@[1].unique
    &&& !t.columns@[1].auto_increment
    &&& t.columns@[1].default == DefaultRule::NoDefault
    &&& t.columns@[2].name@ == "description"@
    &&& t.columns@[2].kind == ColumnKind::StringCol(None)
    &&& t.columns@[2].nullable
    &&& !t.columns@[2].unique
    &&& !t.columns@[2].auto_increment
    &&& t.columns@[2].default == DefaultRule::NoDefault
    &&& t.columns@[3].name@ == "priority"@
    &&& t.columns@[3].kind == ColumnKind::SmallInteger
    &&& !t.columns@[3].nullable
    &&& !t.columns@[3].unique
    &&& !t.columns@[3].auto_increment
    &&& t.columns@[3].default == DefaultRule::DefaultInt(1000)
    &&& t.columns@[4].name@ == "creator_id"@
    &&& t.columns@[4].kind == ColumnKind::Integer
    &&& t.columns@[4].nullable
    &&& !t.columns@[4].unique
    &&& !t.columns@[4].auto_increment
    &&& t.columns@[4].default == DefaultRule::NoDefault
    &&& t.columns@[5].name@ == "created_at"@
    &&& t.columns@[5].kind == ColumnKind::TimestampTz
    &&& !t.columns@[5].nullable
    &&& !t.columns@[5].unique
    &&& !t.columns@[5].auto_increment
    &&& t.columns@[5].default == DefaultRule::DefaultCurrentTimestamp
}

/// Creates the table definition: columns in declared order, then the
/// primary-key shape.
pub fn create() -> (t: TableDef)
    ensures
        declared(t),
        table_wf(t, NUM_TYPES as int),
{
    let mut columns: Vec<ColumnDef> = Vec::new();
    columns.push(ColumnDef {
        name: "id",
        kind: ColumnKind::BigInteger,
        nullable: false,
        unique: false,
        auto_increment: true,
        default: DefaultRule::NoDefault,
    });
    columns.push(ColumnDef {
        name: "name",
        kind: ColumnKind::StringCol(None),
        nullable: false,
        unique: true,
        auto_increment: false,
        default: DefaultRule::NoDefault,
    });
    columns.push(ColumnDef {
        name: "description",
        kind: ColumnKind::StringCol(None),
        nullable: true,
        unique: false,
        auto_increment: false,
        default: DefaultRule::NoDefault,
    });
    columns.push(ColumnDef {
        name: "priority",
        kind: ColumnKind::SmallInteger,
        nullable: false,
        unique: false,
        auto_increment: false,
        default: DefaultRule::DefaultInt(1000),
    });
    columns.push(ColumnDef {
        name: "creator_id",
        kind: ColumnKind::Integer,
        nullable: true,
        unique: false,
        auto_increment: false,
        default: DefaultRule::NoDefault,
    });
    columns.push(ColumnDef {
        name: "created_at",
        kind: ColumnKind::TimestampTz,
        nullable: false,
        unique: false,
        auto_increment: false,
        default: DefaultRule::DefaultCurrentTimestamp,
    });
    let mut pk: Vec<usize> = Vec::new();
    pk.push(0);
    let t = TableDef { name: "privileges", columns, pk };
    assert(t.pk@ =~= seq![0usize]);
    assert(table_wf(t, NUM_TYPES as int));
    t
}

/// The declared secondary indexes of the table: name, columns, and
/// whether each enforces uniqueness.
pub open spec fn declared_indexes(v: Seq<IndexDef>) -> bool {
    &&& v.len() == 1
    &&& v[0].name@ == "IDX_privileges_name"@
    &&& v[0].table == PRIVILEGES
    &&& v[0].cols@ == seq![1usize]
    &&& v[0].unique
}

/// Creates the table's secondary indexes.
pub fn create_indexes() -> (v: Vec<IndexDef>)
    ensures
        declared_indexes(v@),
{
    let mut v: Vec<IndexDef> = Vec::new();
    let mut cols0: Vec<usize> = Vec::new();
    cols0.push(1);
    v.push(IndexDef {
        name: "IDX_privileges_name",
        table: PRIVILEGES,
        cols: cols0,
        unique: true,
    });
    assert(v@[0].cols@ =~= seq![1usize]);
    v
}

} // verus!
