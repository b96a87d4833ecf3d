//! Definition of the `favourite_beatmaps` table.

use vstd::prelude::*;

use crate::catalog::{USERS, FAVOURITE_BEATMAPS, NUM_TYPES};
use crate::schema::{ColumnDef, ColumnKind, DefaultRule, FkAction, ForeignKeyDef, IndexDef, TableDef, table_wf};

verus! {

/// The declared content of the `favourite_beatmaps` table: its name, primary-key
/// shape, and every column with its type, nullability, uniqueness,
/// auto-increment flag and default rule.
pub open spec fn declared(t: TableDef) -> bool {
    &&& t.name@ == "favourite_beatmaps"@
    &&& t.pk@ == seq![0usize, 1usize]
    &&& t.columns@.len() == 4
    &&& t.columns@[0].name@ == "user_id"@
    &&& t.columns@[0].kind == ColumnKind::Integer
    &&& !t.columns@[0].nullable
    &&& !t.columns@[0].unique
    &&& !t.columns@[0].auto_increment
    &&& t.columns@[0].default == DefaultRule::NoDefault
    &&& t.columns@[1].name@ == "beatmapset_id"@
    &&& t.columns@[1].kind == ColumnKind::Integer
    &&& !t.columns@[1].nullable
    &&& !t.columns@[1].unique
    &&& !t.columns@[1].auto_increment
    &&& t.columns@[1].default == DefaultRule::NoDefault
    &&& t.columns@[2].name@ == "comment"@
    &&& t.columns@[2].kind == ColumnKind::StringCol(Some(15))
    &&& t.columns@[2].nullable
    &&& !t.columns@[2].unique
    &&& !t.columns@[2].auto_increment
    &&& t.columns@[2].default == DefaultRule::NoDefault
    &&& t.columns@[3].name@ == "created_at"@
    &&& t.columns@[3].kind == ColumnKind::TimestampTz
    &&& !t.columns@[3].nullable
    &&& !t.columns@[3].unique
    &&& !t.columns@[3].auto_increment
    &&& t.columns@[3].default == DefaultRule::DefaultCurrentTimestamp
}

/// Creates the table definition: columns in declared order, then the
/// primary-key shape.
pub fn create() -> (t: TableDef)
    ensures
        declared(t),
        table_wf(t, NUM_TYPES as int),
{
    let mut columns: Vec<ColumnDef> = Vec::new();
    columns.push(ColumnDef {
        name: "user_id",
        kind: ColumnKind::Integer,
        nullable: false,
        unique: false,
        auto_increment: false,
        default: DefaultRule::NoDefault,
    });
    columns.push(ColumnDef {
        name: "beatmapset_id",
        kind: ColumnKind::Integer,
        nullable: false,
        unique: false,
        auto_increment: false,
        default: DefaultRule::NoDefault,
    });
    columns.push(ColumnDef {
        name: "comment",
        kind: ColumnKind::StringCol(Some(15)),
        nullable: true,
        unique: false,
        auto_increment: false,
        default: DefaultRule::NoDefault,
    });
    columns.push(ColumnDef {
        name: "created_at",
        kind: ColumnKind::TimestampTz,
        nullable: false,
        unique: false,
        auto_increment: false,
        default: DefaultRule::DefaultCurrentTimestamp,
    });
    let mut pk: Vec<usize> = Vec::new();
    pk.push(0);
    pk.push(1);
    let t = TableDef { name: "favourite_beatmaps", columns, pk };
    assert(t.pk@ =~= seq![0usize, 1usize]);
    assert(table_wf(t, NUM_TYPES as int));
    t
}

/// The declared foreign-key edges of the table, every one cascading
/// on update and on delete.
pub open spec fn declared_fks(v: Seq<ForeignKeyDef>) -> bool {
    &&& v.len() == 1
    &&& v[0].name@ == "FK_favourite_beatmaps_user_id"@
    &&& v[0].child_table == FAVOURITE_BEATMAPS
    &&& v[0].child_col == 0
    &&& v[0].parent_table == USERS
    &&& v[0].parent_col == 0
    &&& v[0].on_update == FkAction::Cascade
    &&& v[0].on_delete == FkAction::Cascade
}

/// Creates the table's declared foreign-key edges.
pub fn create_foreign_keys() -> (v: Vec<ForeignKeyDef>)
    ensures
        declared_fks(v@),
{
    let mut v: Vec<ForeignKeyDef> = Vec::new();
    v.push(ForeignKeyDef {
        name: "FK_favourite_beatmaps_user_id",
        child_table: FAVOURITE_BEATMAPS,
        child_col: 0,
        parent_table: USERS,
        parent_col: 0,
        on_update: FkAction::Cascade,
        on_delete: FkAction::Cascade,
    });
    v
}

/// The declared secondary indexes of the table: name, columns, and
/// whether each enforces uniqueness.
pub open spec fn declared_indexes(v: Seq<IndexDef>) -> bool {
    &&& v.len() == 1
    &&& v[0].name@ == "IDX_favourite_beatmaps_user_id"@
    &&& v[0].table == FAVOURITE_BEATMAPS
    &&& v[0].cols@ == seq![0usize]
    &&& !v[0].unique
}

/// Creates the table's secondary indexes.
pub fn create_indexes() -> (v: Vec<IndexDef>)
    ensures
        declared_indexes(v@),
{
    let mut v: Vec<IndexDef> = Vec::new();
    let mut cols0: Vec<usize> = Vec::new();
    cols0.push(0);
    v.push(IndexDef {
        name: "IDX_favourite_beatmaps_user_id",
        table: FAVOURITE_BEATMAPS,
        cols: cols0,
        unique: false,
    });
    assert(v@[0].cols@ =~= seq![0usize]);
    v
}

} // verus!
