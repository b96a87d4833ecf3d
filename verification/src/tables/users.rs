//! Definition of the `users` table.

use vstd::prelude::*;

use crate::catalog::{USERS, NUM_TYPES};
use crate::schema::{ColumnDef, ColumnKind, DefaultRule, IndexDef, TableDef, table_wf};

verus! {

/// The declared content of the `users` table: its name, primary-key
/// shape, and every column with its type, nullability, uniqueness,
/// auto-increment flag and default rule.
pub open spec fn declared(t: TableDef) -> bool {
    &&& t.name@ == "users"@
    &&& t.pk@ == seq![0usize]
    &&& t.columns@.len() == 10
    &&& t.columns@[0].name@ == "id"@
    &&& t.columns@[0].kind == ColumnKind::Integer
    &&& !t.columns@[0].nullable
    &&& !t.columns@[0].unique
    &&& t.columns@[0].auto_increment
    &&& t.columns@[0].default == DefaultRule::NoDefault
    &&& t.columns@[1].name@ == "name"@
    &&& t.columns@[1].kind == ColumnKind::StringCol(Some(16))
    &&& !t.columns@[1].nullable
    &&& t.columns@[1].unique
    &&& !t.columns@[1].auto_increment
    &&& t.columns@[1].default == DefaultRule::NoDefault
    &&& t.columns@[2].name@ == "name_safe"@
    &&& t.columns@[2].kind == ColumnKind::StringCol(Some(16))
    &&& !t.columns@[2].nullable
    &&& t.columns@[2].unique
    &&& !t.columns@[2].auto_increment
    &&& t.columns@[2].default == DefaultRule::NoDefault
    &&& t.columns@[3].name@ == "name_unicode"@
    &&& t.columns@[3].kind == ColumnKind::StringCol(Some(10))
    &&& t.columns@[3].nullable
    &&& t.columns@[3].unique
    &&& !t.columns@[3].auto_increment
    &&& t.columns@[3].default == DefaultRule::NoDefault
    &&& t.columns@[4].name@ == "name_unicode_safe"@
    &&& t.columns@[4].kind == ColumnKind::StringCol(Some(10))
    &&& t.columns@[4].nullable
    &&& t.columns@[4].unique
    &&& !t.columns@[4].auto_increment
    &&& t.columns@[4].default == DefaultRule::NoDefault
    &&& t.columns@[5].name@ == "password"@
    &&& t.columns@[5].kind == ColumnKind::StringCol(None)
    &&& !t.columns@[5].nullable
    &&& !t.columns@[5].unique
    &&& !t.columns@[5].auto_increment
    &&& t.columns@[5].default == DefaultRule::NoDefault
    &&& t.columns@[6].name@ == "email"@
    &&& t.columns@[6].kind == ColumnKind::StringCol(Some(64))
    &&& !t.columns@[6].nullable
    &&& t.columns@[6].unique
    &&& !t.columns@[6].auto_increment
    &&& t.columns@[6].default == DefaultRule::NoDefault
    &&& t.columns@[7].name@ == "country"@
    &&& t.columns@[7].kind == ColumnKind::StringCol(Some(8))
    &&& t.columns@[7].nullable
    &&& !t.columns@[7].unique
    &&& !t.columns@[7].auto_increment
    &&& t.columns@[7].default == DefaultRule::NoDefault
    &&& t.columns@[8].name@ == "created_at"@
    &&& t.columns@[8].kind == ColumnKind::TimestampTz
    &&& !t.columns@[8].nullable
    &&& !t.columns@[8].unique
    &&& !t.columns@[8].auto_increment
    &&& t.columns@[8].default == DefaultRule::DefaultCurrentTimestamp
    &&& t.columns@[9].name@ == "updated_at"@
    &&& t.columns@[9].kind == ColumnKind::TimestampTz
    &&& !t.columns@[9].nullable
    &&& !t.columns@[9].unique
    &&& !t.columns@[9].auto_increment
    &&& t.columns@[9].default == DefaultRule::DefaultCurrentTimestamp
}

/// Creates the table definition: columns in declared order, then the
/// primary-key shape.
pub fn create() -> (t: TableDef)
    ensures
        declared(t),
        table_wf(t, NUM_TYPES as int),
{
    let mut columns: Vec<ColumnDef> = Vec::new();
    columns.push(ColumnDef {
        name: "id",
        kind: ColumnKind::Integer,
        nullable: false,
        unique: false,
        auto_increment: true,
        default: DefaultRule::NoDefault,
    });
    columns.push(ColumnDef {
        name: "name",
        kind: ColumnKind::StringCol(Some(16)),
        nullable: false,
        unique: true,
        auto_increment: false,
        default: DefaultRule::NoDefault,
    });
    columns.push(ColumnDef {
        name: "name_safe",
        kind: ColumnKind::StringCol(Some(16)),
        nullable: false,
        unique: true,
        auto_increment: false,
        default: DefaultRule::NoDefault,
    });
    columns.push(ColumnDef {
        name: "name_unicode",
        kind: ColumnKind::StringCol(Some(10)),
        nullable: true,
        unique: true,
        auto_increment: false,
        default: DefaultRule::NoDefault,
    });
    columns.push(ColumnDef {
        name: "name_unicode_safe",
        kind: ColumnKind::StringCol(Some(10)),
        nullable: true,
        unique: true,
        auto_increment: false,
        default: DefaultRule::NoDefault,
    });
    columns.push(ColumnDef {
        name: "password",
        kind: ColumnKind::StringCol(None),
        nullable: false,
        unique: false,
        auto_increment: false,
        default: DefaultRule::NoDefault,
    });
    columns.push(ColumnDef {
        name: "email",
        kind: ColumnKind::StringCol(Some(64)),
        nullable: false,
        unique: true,
        auto_increment: false,
        default: DefaultRule::NoDefault,
    });
    columns.push(ColumnDef {
        name: "country",
        kind: ColumnKind::StringCol(Some(8)),
        nullable: true,
        unique: false,
        auto_increment: false,
        default: DefaultRule::NoDefault,
    });
    columns.push(ColumnDef {
        name: "created_at",
        kind: ColumnKind::TimestampTz,
        nullable: false,
        unique: false,
        auto_increment: false,
        default: DefaultRule::DefaultCurrentTimestamp,
    });
    columns.push(ColumnDef {
        name: "updated_at",
        kind: ColumnKind::TimestampTz,
        nullable: false,
        unique: false,
        auto_increment: false,
        default: DefaultRule::DefaultCurrentTimestamp,
    });
    let mut pk: Vec<usize> = Vec::new();
    pk.push(0);
    let t = TableDef { name: "users", columns, pk };
    assert(t.pk@ =~= seq![0usize]);
    assert(table_wf(t, NUM_TYPES as int));
    t
}

/// The declared secondary indexes of the table: name, columns, and
/// whether each enforces uniqueness.
pub open spec fn declared_indexes(v: Seq<IndexDef>) -> bool {
    &&& v.len() == 3
    &&& v[0].name@ == "IDX_users_name_safe"@
    &&& v[0].table == USERS
    &&& v[0].cols@ == seq![2usize]
    &&& v[0].unique
    &&& v[1].name@ == "IDX_users_name_unicode_safe"@
    &&& v[1].table == USERS
    &&& v[1].cols@ == seq![4usize]
    &&& v[1].unique
    &&& v[2].name@ == "IDX_users_email"@
    &&& v[2].table == USERS
    &&& v[2].cols@ == seq![6usize]
    &&& v[2].unique
}

/// Creates the table's secondary indexes.
pub fn create_indexes() -> (v: Vec<IndexDef>)
    ensures
        declared_indexes(v@),
{
    let mut v: Vec<IndexDef> = Vec::new();
    let mut cols0: Vec<usize> = Vec::new();
    cols0.push(2);
    v.push(IndexDef {
        name: "IDX_users_name_safe",
        table: USERS,
        cols: cols0,
        unique: true,
    });
    let mut cols1: Vec<usize> = Vec::new();
    cols1.push(4);
    v.push(IndexDef {
        name: "IDX_users_name_unicode_safe",
        table: USERS,
        cols: cols1,
        unique: true,
    });
    let mut cols2: Vec<usize> = Vec::new();
    cols2.push(6);
    v.push(IndexDef {
        name: "IDX_users_email",
        table: USERS,
        cols: cols2,
        unique: true,
    });
    assert(v@[0].cols@ =~= seq![2usize]);
    assert(v@[1].cols@ =~= seq![4usize]);
    assert(v@[2].cols@ =~= seq![6usize]);
    v
}

} // verus!
