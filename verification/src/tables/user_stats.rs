//! Definition of the `user_stats` table.

use vstd::prelude::*;

use crate::catalog::{USERS, USER_STATS, NUM_TYPES};
use crate::schema::{ColumnDef, ColumnKind, DefaultRule, FkAction, ForeignKeyDef, IndexDef, TableDef, table_wf};

verus! {

/// The declared content of the `user_stats` table: its name, primary-key
/// shape, and every column with its type, nullability, uniqueness,
/// auto-increment flag and default rule.
pub open spec fn declared(t: TableDef) -> bool {
    &&& t.name@ == "user_stats"@
    &&& t.pk@ == seq![0usize, 1usize]
    &&& t.columns@.len() == 16
    &&& t.columns@[0].name@ == "user_id"@
    &&& t.columns@[0].kind == ColumnKind::Integer
    &&& !t.columns@[0].nullable
    &&& !t.columns@[0].unique
    &&& !t.columns@[0].auto_increment
    &&& t.columns@[0].default == DefaultRule::NoDefault
    &&& t.columns@[1].name@ == "mode"@
    &&& t.columns@[1].kind == ColumnKind::StringCol(None)
    &&& !t.columns@[1].nullable
    &&& !t.columns@[1].unique
    &&& !t.columns@[1].auto_increment
    &&& t.columns@[1].default == DefaultRule::NoDefault
    &&& t.columns@[2].name@ == "total_score"@
    &&& t.columns@[2].kind == ColumnKind::BigInteger
    &&& !t.columns@[2].nullable
    &&& !t.columns@[2].unique
    &&& !t.columns@[2].auto_increment
    &&& t.columns@[2].default == DefaultRule::NoDefault
    &&& t.columns@[3].name@ == "ranked_score"@
    &&& t.columns@[3].kind == ColumnKind::BigInteger
    &&& !t.columns@[3].nullable
    &&& !t.columns@[3].unique
    &&& !t.columns@[3].auto_increment
    &&& t.columns@[3].default == DefaultRule::NoDefault
    &&& t.columns@[4].name@ == "playcount"@
    &&& t.columns@[4].kind == ColumnKind::Integer
    &&& !t.columns@[4].nullable
    &&& !t.columns@[4].unique
    &&& !t.columns@[4].auto_increment
    &&& t.columns@[4].default == DefaultRule::NoDefault
    &&& t.columns@[5].name@ == "total_hits"@
    &&& t.columns@[5].kind == ColumnKind::Integer
    &&& !t.columns@[5].nullable
    &&& !t.columns@[5].unique
    &&& !t.columns@[5].auto_increment
    &&& t.columns@[5].default == DefaultRule::NoDefault
    &&& t.columns@[6].name@ == "accuracy"@
    &&& t.columns@[6].kind == ColumnKind::Decimal(6, 2)
    &&& !t.columns@[6].nullable
    &&& !t.columns@[6].unique
    &&& !t.columns@[6].auto_increment
    &&& t.columns@[6].default == DefaultRule::NoDefault
    &&& t.columns@[7].name@ == "max_combo"@
    &&& t.columns@[7].kind == ColumnKind::Integer
    &&& !t.columns@[7].nullable
    &&& !t.columns@[7].unique
    &&& !t.columns@[7].auto_increment
    &&& t.columns@[7].default == DefaultRule::NoDefault
    &&& t.columns@[8].name@ == "total_seconds_played"@
    &&& t.columns@[8].kind == ColumnKind::Integer
    &&& !t.columns@[8].nullable
    &&& !t.columns@[8].unique
    &&& !t.columns@[8].auto_increment
    &&& t.columns@[8].default == DefaultRule::NoDefault
    &&& t.columns@[9].name@ == "count300"@
    &&& t.columns@[9].kind == ColumnKind::Integer
    &&& !t.columns@[9].nullable
    &&& !t.columns@[9].unique
    &&& !t.columns@[9].auto_increment
    &&& t.columns@[9].default == DefaultRule::NoDefault
    &&& t.columns@[10].name@ == "count100"@
    &&& t.columns@[10].kind == ColumnKind::Integer
    &&& !t.columns@[10].nullable
    &&& !t.columns@[10].unique
    &&& !t.columns@[10].auto_increment
    &&& t.columns@[10].default == DefaultRule::NoDefault
    &&& t.columns@[11].name@ == "count50"@
    &&& t.columns@[11].kind == ColumnKind::Integer
    &&& !t.columns@[11].nullable
    &&& !t.columns@[11].unique
    &&& !t.columns@[11].auto_increment
    &&& t.columns@[11].default == DefaultRule::NoDefault
    &&& t.columns@[12].name@ == "count_miss"@
    &&& t.columns@[12].kind == ColumnKind::Integer
    &&& !t.columns@[12].nullable
    &&& !t.columns@[12].unique
    &&& !t.columns@[12].auto_increment
    &&& t.columns@[12].default == DefaultRule::NoDefault
    &&& t.columns@[13].name@ == "count_failed"@
    &&& t.columns@[13].kind == ColumnKind::Integer
    &&& !t.columns@[13].nullable
    &&& !t.columns@[13].unique
    &&& !t.columns@[13].auto_increment
    &&& t.columns@[13].default == DefaultRule::NoDefault
    &&& t.columns@[14].name@ == "count_quit"@
    &&& t.columns@[14].kind == ColumnKind::Integer
    &&& !t.columns@[14].nullable
    &&& !t.columns@[14].unique
    &&& !t.columns@[14].auto_increment
    &&& t.columns@[14].default == DefaultRule::NoDefault
    &&& t.columns@[15].name@ == "updated_at"@
    &&& t.columns@[15].kind == ColumnKind::TimestampTz
    &&& !t.columns@[15].nullable
    &&& !t.columns@[15].unique
    &&& !t.columns@[15].auto_increment
    &&& t.columns@[15].default == DefaultRule::DefaultCurrentTimestamp
}

/// Creates the table definition: columns in declared order, then the
/// primary-key shape.
pub fn create() -> (t: TableDef)
    ensures
        declared(t),
        table_wf(t, NUM_TYPES as int),
{
    let mut columns: Vec<ColumnDef> = Vec::new();
    columns.push(ColumnDef {
        name: "user_id",
        kind: ColumnKind::Integer,
        nullable: false,
        unique: false,
        auto_increment: false,
        default: DefaultRule::NoDefault,
    });
    columns.push(ColumnDef {
        name: "mode",
        kind: ColumnKind::StringCol(None),
        nullable: false,
        unique: false,
        auto_increment: false,
        default: DefaultRule::NoDefault,
    });
    columns.push(ColumnDef {
        name: "total_score",
        kind: ColumnKind::BigInteger,
        nullable: false,
        unique: false,
        auto_increment: false,
        default: DefaultRule::NoDefault,
    });
    columns.push(ColumnDef {
        name: "ranked_score",
        kind: ColumnKind::BigInteger,
        nullable: false,
        unique: false,
        auto_increment: false,
        default: DefaultRule::NoDefault,
    });
    columns.push(ColumnDef {
        name: "playcount",
        kind: ColumnKind::Integer,
        nullable: false,
        unique: false,
        auto_increment: false,
        default: DefaultRule::NoDefault,
    });
    columns.push(ColumnDef {
        name: "total_hits",
        kind: ColumnKind::Integer,
        nullable: false,
        unique: false,
        auto_increment: false,
        default: DefaultRule::NoDefault,
    });
    columns.push(ColumnDef {
        name: "accuracy",
        kind: ColumnKind::Decimal(6, 2),
        nullable: false,
        unique: false,
        auto_increment: false,
        default: DefaultRule::NoDefault,
    });
    columns.push(ColumnDef {
        name: "max_combo",
        kind: ColumnKind::Integer,
        nullable: false,
        unique: false,
        auto_increment: false,
        default: DefaultRule::NoDefault,
    });
    columns.push(ColumnDef {
        name: "total_seconds_played",
        kind: ColumnKind::Integer,
        nullable: false,
        unique: false,
        auto_increment: false,
        default: DefaultRule::NoDefault,
    });
    columns.push(ColumnDef {
        name: "count300",
        kind: ColumnKind::Integer,
        nullable: false,
        unique: false,
        auto_increment: false,
        default: DefaultRule::NoDefault,
    });
    columns.push(ColumnDef {
        name: "count100",
        kind: ColumnKind::Integer,
        nullable: false,
        unique: false,
        auto_increment: false,
        default: DefaultRule::NoDefault,
    });
    columns.push(ColumnDef {
        name: "count50",
        kind: ColumnKind::Integer,
        nullable: false,
        unique: false,
        auto_increment: false,
        default: DefaultRule::NoDefault,
    });
    columns.push(ColumnDef {
        name: "count_miss",
        kind: ColumnKind::Integer,
        nullable: false,
        unique: false,
        auto_increment: false,
        default: DefaultRule::NoDefault,
    });
    columns.push(ColumnDef {
        name: "count_failed",
        kind: ColumnKind::Integer,
        nullable: false,
        unique: false,
        auto_increment: false,
        default: DefaultRule::NoDefault,
    });
    columns.push(ColumnDef {
        name: "count_quit",
        kind: ColumnKind::Integer,
        nullable: false,
        unique: false,
        auto_increment: false,
        default: DefaultRule::NoDefault,
    });
    columns.push(ColumnDef {
        name: "updated_at",
        kind: ColumnKind::TimestampTz,
        nullable: false,
        unique: false,
        auto_increment: false,
        default: DefaultRule::DefaultCurrentTimestamp,
    });
    let mut pk: Vec<usize> = Vec::new();
    pk.push(0);
    pk.push(1);
    let t = TableDef { name: "user_stats", columns, pk };
    assert(t.pk@ =~= seq![0usize, 1usize]);
    assert(table_wf(t, NUM_TYPES as int));
    t
}

/// The declared foreign-key edges of the table, every one cascading
/// on update and on delete.
pub open spec fn declared_fks(v: Seq<ForeignKeyDef>) -> bool {
    &&& v.len() == 1
    &&& v[0].name@ == "FK_user_stats_user_id"@
    &&& v[0].child_table == USER_STATS
    &&& v[0].child_col == 0
    &&& v[0].parent_table == USERS
    &&& v[0].parent_col == 0
    &&& v[0].on_update == FkAction::Cascade
    &&& v[0].on_delete == FkAction::Cascade
}

/// Creates the table's declared foreign-key edges.
pub fn create_foreign_keys() -> (v: Vec<ForeignKeyDef>)
    ensures
        declared_fks(v@),
{
    let mut v: Vec<ForeignKeyDef> = Vec::new();
    v.push(ForeignKeyDef {
        name: "FK_user_stats_user_id",
        child_table: USER_STATS,
        child_col: 0,
        parent_table: USERS,
        parent_col: 0,
        on_update: FkAction::Cascade,
        on_delete: FkAction::Cascade,
    });
    v
}

/// The declared secondary indexes of the table: name, columns, and
/// whether each enforces uniqueness.
pub open spec fn declared_indexes(v: Seq<IndexDef>) -> bool {
    &&& v.len() == 0
}

/// Creates the table's secondary indexes.
pub fn create_indexes() -> (v: Vec<IndexDef>)
    ensures
        declared_indexes(v@),
{
    let mut v: Vec<IndexDef> = Vec::new();
    v
}

} // verus!
