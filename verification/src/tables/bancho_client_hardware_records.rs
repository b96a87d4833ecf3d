//! Definition of the `bancho_client_hardware_records` table.

use vstd::prelude::*;

use crate::catalog::{USERS, BANCHO_CLIENT_HARDWARE_RECORDS, NUM_TYPES};
use crate::schema::{ColumnDef, ColumnKind, DefaultRule, FkAction, ForeignKeyDef, TableDef, table_wf};

verus! {

/// The declared content of the `bancho_client_hardware_records` table: its name, primary-key
/// shape, and every column with its type, nullability, uniqueness,
/// auto-increment flag and default rule.
pub open spec fn declared(t: TableDef) -> bool {
    &&& t.name@ == "bancho_client_hardware_records"@
    &&& t.pk@ == seq![0usize, 2usize, 4usize, 5usize, 6usize]
    &&& t.columns@.len() == 10
    &&& t.columns@[0].name@ == "user_id"@
    &&& t.columns@[0].kind == ColumnKind::Integer
    &&& !t.columns@[0].nullable
    &&& !t.columns@[0].unique
    &&& !t.columns@[0].auto_increment
    &&& t.columns@[0].default == DefaultRule::NoDefault
    &&& t.columns@[1].name@ == "time_offset"@
    &&& t.columns@[1].kind == ColumnKind::Integer
    &&& !t.columns@[1].nullable
    &&& !t.columns@[1].unique
    &&& !t.columns@[1].auto_increment
    &&& t.columns@[1].default == DefaultRule::NoDefault
    &&& t.columns@[2].name@ == "path_hash"@
    &&& t.columns@[2].kind == ColumnKind::CharCol(32)
    &&& !t.columns@[2].nullable
    &&& !t.columns@[2].unique
    &&& !t.columns@[2].auto_increment
    &&& t.columns@[2].default == DefaultRule::NoDefault
    &&& t.columns@[3].name@ == "adapters"@
    &&& t.columns@[3].kind == ColumnKind::StringCol(None)
    &&& !t.columns@[3].nullable
    &&& !t.columns@[3].unique
    &&& !t.columns@[3].auto_increment
    &&& t.columns@[3].default == DefaultRule::NoDefault
    &&& t.columns@[4].name@ == "adapters_hash"@
    &&& t.columns@[4].kind == ColumnKind::CharCol(32)
    &&& !t.columns@[4].nullable
    &&& !t.columns@[4].unique
    &&& !t.columns@[4].auto_increment
    &&& t.columns@[4].default == DefaultRule::NoDefault
    &&& t.columns@[5].name@ == "uninstall_id"@
    &&& t.columns@[5].kind == ColumnKind::CharCol(32)
    &&& !t.columns@[5].nullable
    &&& !t.columns@[5].unique
    &&& !t.columns@[5].auto_increment
    &&& t.columns@[5].default == DefaultRule::NoDefault
    &&& t.columns@[6].name@ == "disk_id"@
    &&& t.columns@[6].kind == ColumnKind::CharCol(32)
    &&& !t.columns@[6].nullable
    &&& !t.columns@[6].unique
    &&& !t.columns@[6].auto_increment
    &&& t.columns@[6].default == DefaultRule::NoDefault
    &&& t.columns@[7].name@ == "used_times"@
    &&& t.columns@[7].kind == ColumnKind::Integer
    &&& !t.columns@[7].nullable
    &&& !t.columns@[7].unique
    &&& !t.columns@[7].auto_increment
    &&& t.columns@[7].default == DefaultRule::DefaultInt(1)
    &&& t.columns@[8].name@ == "created_at"@
    &&& t.columns@[8].kind == ColumnKind::TimestampTz
    &&& !t.columns@[8].nullable
    &&& !t.columns@[8].unique
    &&& !t.columns@[8].auto_increment
    &&& t.columns@[8].default == DefaultRule::DefaultCurrentTimestamp
    &&& t.columns@[9].name@ == "updated_at"@
    &&& t.columns@[9].kind == ColumnKind::TimestampTz
    &&& !t.columns@[9].nullable
    &&& !t.columns@[9].unique
    &&& !t.columns@[9].auto_increment
    &&& t.columns@[9].default == DefaultRule::DefaultCurrentTimestamp
}

/// Creates the table definition: columns in declared order, then the
/// primary-key shape.
pub fn create() -> (t: TableDef)
    ensures
        declared(t),
        table_wf(t, NUM_TYPES as int),
{
    let mut columns: Vec<ColumnDef> = Vec::new();
    columns.push(ColumnDef {
        name: "user_id",
        kind: ColumnKind::Integer,
        nullable: false,
        unique: false,
        auto_increment: false,
        default: DefaultRule::NoDefault,
    });
    columns.push(ColumnDef {
        name: "time_offset",
        kind: ColumnKind::Integer,
        nullable: false,
        unique: false,
        auto_increment: false,
        default: DefaultRule::NoDefault,
    });
    columns.push(ColumnDef {
        name: "path_hash",
        kind: ColumnKind::CharCol(32),
        nullable: false,
        unique: false,
        auto_increment: false,
        default: DefaultRule::NoDefault,
    });
    columns.push(ColumnDef {
        name: "adapters",
        kind: ColumnKind::StringCol(None),
        nullable: false,
        unique: false,
        auto_increment: false,
        default: DefaultRule::NoDefault,
    });
    columns.push(ColumnDef {
        name: "adapters_hash",
        kind: ColumnKind::CharCol(32),
        nullable: false,
        unique: false,
        auto_increment: false,
        default: DefaultRule::NoDefault,
    });
    columns.push(ColumnDef {
        name: "uninstall_id",
        kind: ColumnKind::CharCol(32),
        nullable: false,
        unique: false,
        auto_increment: false,
        default: DefaultRule::NoDefault,
    });
    columns.push(ColumnDef {
        name: "disk_id",
        kind: ColumnKind::CharCol(32),
        nullable: false,
        unique: false,
        auto_increment: false,
        default: DefaultRule::NoDefault,
    });
    columns.push(ColumnDef {
        name: "used_times",
        kind: ColumnKind::Integer,
        nullable: false,
        unique: false,
        auto_increment: false,
        default: DefaultRule::DefaultInt(1),
    });
    columns.push(ColumnDef {
        name: "created_at",
        kind: ColumnKind::TimestampTz,
        nullable: false,
        unique: false,
        auto_increment: false,
        default: DefaultRule::DefaultCurrentTimestamp,
    });
    columns.push(ColumnDef {
        name: "updated_at",
        kind: ColumnKind::TimestampTz,
        nullable: false,
        unique: false,
        auto_increment: false,
        default: DefaultRule::DefaultCurrentTimestamp,
    });
    let mut pk: Vec<usize> = Vec::new();
    pk.push(0);
    pk.push(2);
    pk.push(4);
    pk.push(5);
    pk.push(6);
    let t = TableDef { name: "bancho_client_hardware_records", columns, pk };
    assert(t.pk@ =~= seq![0usize, 2usize, 4usize, 5usize, 6usize]);
    assert(table_wf(t, NUM_TYPES as int));
    t
}

/// The declared foreign-key edges of the table, every one cascading
/// on update and on delete.
pub open spec fn declared_fks(v: Seq<ForeignKeyDef>) -> bool {
    &&& v.len() == 1
    &&& v[0].name@ == "FK_bancho_client_hardware_records_user_id"@
    &&& v[0].child_table == BANCHO_CLIENT_HARDWARE_RECORDS
    &&& v[0].child_col == 0
    &&& v[0].parent_table == USERS
    &&& v[0].parent_col == 0
    &&& v[0].on_update == FkAction::Cascade
    &&& v[0].on_delete == FkAction::Cascade
}

/// Creates the table's declared foreign-key edges.
pub fn create_foreign_keys() -> (v: Vec<ForeignKeyDef>)
    ensures
        declared_fks(v@),
{
    let mut v: Vec<ForeignKeyDef> = Vec::new();
    v.push(ForeignKeyDef {
        name: "FK_bancho_client_hardware_records_user_id",
        child_table: BANCHO_CLIENT_HARDWARE_RECORDS,
        child_col: 0,
        parent_table: USERS,
        parent_col: 0,
        on_update: FkAction::Cascade,
        on_delete: FkAction::Cascade,
    });
    v
}

} // verus!
