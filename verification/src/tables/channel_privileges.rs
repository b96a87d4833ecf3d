//! Definition of the `channel_privileges` table.

use vstd::prelude::*;

use crate::catalog::{PRIVILEGES, CHANNELS, CHANNEL_PRIVILEGES, CHANNEL_HANDLE_TYPE_TYPE, NUM_TYPES};
use crate::schema::{ColumnDef, ColumnKind, DefaultRule, FkAction, ForeignKeyDef, IndexDef, TableDef, table_wf};

verus! {

/// The declared content of the `channel_privileges` table: its name, primary-key
/// shape, and every column with its type, nullability, uniqueness,
/// auto-increment flag and default rule.
pub open spec fn declared(t: TableDef) -> bool {
    &&& t.name@ == "channel_privileges"@
    &&& t.pk@ == seq![0usize, 1usize]
    &&& t.columns@.len() == 3
    &&& t.columns@[0].name@ == "channel_id"@
    &&& t.columns@[0].kind == ColumnKind::BigInteger
    &&& !t.columns@[0].nullable
    &&& !t.columns@[0].unique
    &&& !t.columns@[0].auto_increment
    &&& t.columns@[0].default == DefaultRule::NoDefault
    &&& t.columns@[1].name@ == "handle"@
    &&& t.columns@[1].kind == ColumnKind::Enumeration(CHANNEL_HANDLE_TYPE_TYPE)
    &&& !t.columns@[1].nullable
    &&& !t.columns@[1].unique
    &&& !t.columns@[1].auto_increment
    &&& t.columns@[1].default == DefaultRule::NoDefault
    &&& t.columns@[2].name@ == "required_privilege_id"@
    &&& t.columns@[2].kind == ColumnKind::BigInteger
    &&& !t.columns@[2].nullable
    &&& !t.columns@[2].unique
    &&& !t.columns@[2].auto_increment
    &&& t.columns@[2].default == DefaultRule::NoDefault
}

/// Creates the table definition: columns in declared order, then the
/// primary-key shape.
pub fn create() -> (t: TableDef)
    ensures
        declared(t),
        table_wf(t, NUM_TYPES as int),
{
    let mut columns: Vec<ColumnDef> = Vec::new();
    columns.push(ColumnDef {
        name: "channel_id",
        kind: ColumnKind::BigInteger,
        nullable: false,
        unique: false,
        auto_increment: false,
        default: DefaultRule::NoDefault,
    });
    columns.push(ColumnDef {
        name: "handle",
        kind: ColumnKind::Enumeration(CHANNEL_HANDLE_TYPE_TYPE),
        nullable: false,
        unique: false,
        auto_increment: false,
        default: DefaultRule::NoDefault,
    });
    columns.push(ColumnDef {
        name: "required_privilege_id",
        kind: ColumnKind::BigInteger,
        nullable: false,
        unique: false,
        auto_increment: false,
        default: DefaultRule::NoDefault,
    });
    let mut pk: Vec<usize> = Vec::new();
    pk.push(0);
    pk.push(1);
    let t = TableDef { name: "channel_privileges", columns, pk };
    assert(t.pk@ =~= seq![0usize, 1usize]);
    assert(table_wf(t, NUM_TYPES as int));
    t
}

/// The declared foreign-key edges of the table, every one cascading
/// on update and on delete.
pub open spec fn declared_fks(v: Seq<ForeignKeyDef>) -> bool {
    &&& v.len() == 2
    &&& v[0].name@ == "FK_channel_priv_channel_id"@
    &&& v[0].child_table == CHANNEL_PRIVILEGES
    &&& v[0].child_col == 0
    &&& v[0].parent_table == CHANNELS
    &&& v[0].parent_col == 0
    &&& v[0].on_update == FkAction::Cascade
    &&& v[0].on_delete == FkAction::Cascade
    &&& v[1].name@ == "FK_channel_priv_priv_id"@
    &&& v[1].child_table == CHANNEL_PRIVILEGES
    &&& v[1].child_col == 2
    &&& v[1].parent_table == PRIVILEGES
    &&& v[1].parent_col == 0
    &&& v[1].on_update == FkAction::Cascade
    &&& v[1].on_delete == FkAction::Cascade
}

/// Creates the table's declared foreign-key edges.
pub fn create_foreign_keys() -> (v: Vec<ForeignKeyDef>)
    ensures
        declared_fks(v@),
{
    let mut v: Vec<ForeignKeyDef> = Vec::new();
    v.push(ForeignKeyDef {
        name: "FK_channel_priv_channel_id",
        child_table: CHANNEL_PRIVILEGES,
        child_col: 0,
        parent_table: CHANNELS,
        parent_col: 0,
        on_update: FkAction::Cascade,
        on_delete: FkAction::Cascade,
    });
    v.push(ForeignKeyDef {
        name: "FK_channel_priv_priv_id",
        child_table: CHANNEL_PRIVILEGES,
        child_col: 2,
        parent_table: PRIVILEGES,
        parent_col: 0,
        on_update: FkAction::Cascade,
        on_delete: FkAction::Cascade,
    });
    v
}

/// The declared secondary indexes of the table: name, columns, and
/// whether each enforces uniqueness.
pub open spec fn declared_indexes(v: Seq<IndexDef>) -> bool {
    &&& v.len() == 1
    &&& v[0].name@ == "IDX_channel_priv_priv_id"@
    &&& v[0].table == CHANNEL_PRIVILEGES
    &&& v[0].cols@ == seq![2usize]
    &&& !v[0].unique
}

/// Creates the table's secondary indexes.
pub fn create_indexes() -> (v: Vec<IndexDef>)
    ensures
        declared_indexes(v@),
{
    let mut v: Vec<IndexDef> = Vec::new();
    let mut cols0: Vec<usize> = Vec::new();
    cols0.push(2);
    v.push(IndexDef {
        name: "IDX_channel_priv_priv_id",
        table: CHANNEL_PRIVILEGES,
        cols: cols0,
        unique: false,
    });
    assert(v@[0].cols@ =~= seq![2usize]);
    v
}

} // verus!
