//! Definition of the `channel_users` table.

use vstd::prelude::*;

use crate::catalog::{USERS, CHANNELS, CHANNEL_USERS, NUM_TYPES};
use crate::schema::{ColumnDef, ColumnKind, DefaultRule, FkAction, ForeignKeyDef, IndexDef, TableDef, table_wf};

verus! {

/// The declared content of the `channel_users` table: its name, primary-key
/// shape, and every column with its type, nullability, uniqueness,
/// auto-increment flag and default rule.
pub open spec fn declared(t: TableDef) -> bool {
    &&& t.name@ == "channel_users"@
    &&& t.pk@ == seq![0usize, 1usize]
    &&& t.columns@.len() == 2
    &&& t.columns@[0].name@ == "channel_id"@
    &&& t.columns@[0].kind == ColumnKind::BigInteger
    &&& !t.columns@[0].nullable
    &&& !t.columns@[0].unique
    &&& !t.columns@[0].auto_increment
    &&& t.columns@[0].default == DefaultRule::NoDefault
    &&& t.columns@[1].name@ == "user_id"@
    &&& t.columns@[1].kind == ColumnKind::Integer
    &&& !t.columns@[1].nullable
    &&& !t.columns@[1].unique
    &&& !t.columns@[1].auto_increment
    &&& t.columns@[1].default == DefaultRule::NoDefault
}

/// Creates the table definition: columns in declared order, then the
/// primary-key shape.
pub fn create() -> (t: TableDef)
    ensures
        declared(t),
        table_wf(t, NUM_TYPES as int),
{
    let mut columns: Vec<ColumnDef> = Vec::new();
    columns.push(ColumnDef {
        name: "channel_id",
        kind: ColumnKind::BigInteger,
        nullable: false,
        unique: false,
        auto_increment: false,
        default: DefaultRule::NoDefault,
    });
    columns.push(ColumnDef {
        name: "user_id",
        kind: ColumnKind::Integer,
        nullable: false,
        unique: false,
        auto_increment: false,
        default: DefaultRule::NoDefault,
    });
    let mut pk: Vec<usize> = Vec::new();
    pk.push(0);
    pk.push(1);
    let t = TableDef { name: "channel_users", columns, pk };
    assert(t.pk@ =~= seq![0usize, 1usize]);
    assert(table_wf(t, NUM_TYPES as int));
    t
}

/// The declared foreign-key edges of the table, every one cascading
/// on update and on delete.
pub open spec fn declared_fks(v: Seq<ForeignKeyDef>) -> bool {
    &&& v.len() == 2
    &&& v[0].name@ == "FK_channel_users_channel_id"@
    &&& v[0].child_table == CHANNEL_USERS
    &&& v[0].child_col == 0
    &&& v[0].parent_table == CHANNELS
    &&& v[0].parent_col == 0
    &&& v[0].on_update == FkAction::Cascade
    &&& v[0].on_delete == FkAction::Cascade
    &&& v[1].name@ == "FK_channel_users_user_id"@
    &&& v[1].child_table == CHANNEL_USERS
    &&& v[1].child_col == 1
    &&& v[1].parent_table == USERS
    &&& v[1].parent_col == 0
    &&& v[1].on_update == FkAction::Cascade
    &&& v[1].on_delete == FkAction::Cascade
}

/// Creates the table's declared foreign-key edges.
pub fn create_foreign_keys() -> (v: Vec<ForeignKeyDef>)
    ensures
        declared_fks(v@),
{
    let mut v: Vec<ForeignKeyDef> = Vec::new();
    v.push(ForeignKeyDef {
        name: "FK_channel_users_channel_id",
        child_table: CHANNEL_USERS,
        child_col: 0,
        parent_table: CHANNELS,
        parent_col: 0,
        on_update: FkAction::Cascade,
        on_delete: FkAction::Cascade,
    });
    v.push(ForeignKeyDef {
        name: "FK_channel_users_user_id",
        child_table: CHANNEL_USERS,
        child_col: 1,
        parent_table: USERS,
        parent_col: 0,
        on_update: FkAction::Cascade,
        on_delete: FkAction::Cascade,
    });
    v
}

/// The declared secondary indexes of the table: name, columns, and
/// whether each enforces uniqueness.
pub open spec fn declared_indexes(v: Seq<IndexDef>) -> bool {
    &&& v.len() == 1
    &&& v[0].name@ == "IDX_channel_users_user_id"@
    &&& v[0].table == CHANNEL_USERS
    &&& v[0].cols@ == seq![1usize]
    &&& !v[0].unique
}

/// Creates the table's secondary indexes.
pub fn create_indexes() -> (v: Vec<IndexDef>)
    ensures
        declared_indexes(v@),
{
    let mut v: Vec<IndexDef> = Vec::new();
    let mut cols0: Vec<usize> = Vec::new();
    cols0.push(1);
    v.push(IndexDef {
        name: "IDX_channel_users_user_id",
        table: CHANNEL_USERS,
        cols: cols0,
        unique: false,
    });
    assert(v@[0].cols@ =~= seq![1usize]);
    v
}

} // verus!
