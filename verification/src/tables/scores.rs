//! Definition of the `scores` table.

use vstd::prelude::*;

use crate::catalog::{USERS, SCORES, NUM_TYPES};
use crate::schema::{ColumnDef, ColumnKind, DefaultRule, FkAction, ForeignKeyDef, IndexDef, TableDef, table_wf};

verus! {

/// The declared content of the `scores` table: its name, primary-key
/// shape, and every column with its type, nullability, uniqueness,
/// auto-increment flag and default rule.
pub open spec fn declared(t: TableDef) -> bool {
    &&& t.name@ == "scores"@
    &&& t.pk@ == seq![0usize]
    &&& t.columns@.len() == 11
    &&& t.columns@[0].name@ == "id"@
    &&& t.columns@[0].kind == ColumnKind::BigInteger
    &&& !t.columns@[0].nullable
    &&& !t.columns@[0].unique
    &&& t.columns@[0].auto_increment
    &&& t.columns@[0].default == DefaultRule::NoDefault
    &&& t.columns@[1].name@ == "map_hash"@
    &&& t.columns@[1].kind == ColumnKind::CharCol(32)
    &&& !t.columns@[1].nullable
    &&& !t.columns@[1].unique
    &&& !t.columns@[1].auto_increment
    &&& t.columns@[1].default == DefaultRule::NoDefault
    &&& t.columns@[2].name@ == "user_id"@
    &&& t.columns@[2].kind == ColumnKind::Integer
    &&& !t.columns@[2].nullable
    &&& !t.columns@[2].unique
    &&& !t.columns@[2].auto_increment
    &&& t.columns@[2].default == DefaultRule::NoDefault
    &&& t.columns@[3].name@ == "cksm"@
    &&& t.columns@[3].kind == ColumnKind::StringCol(None)
    &&& !t.columns@[3].nullable
    &&& t.columns@[3].unique
    &&& !t.columns@[3].auto_increment
    &&& t.columns@[3].default == DefaultRule::NoDefault
    &&& t.columns@[4].name@ == "kind"@
    &&& t.columns@[4].kind == ColumnKind::StringCol(None)
    &&& !t.columns@[4].nullable
    &&& !t.columns@[4].unique
    &&& !t.columns@[4].auto_increment
    &&& t.columns@[4].default == DefaultRule::NoDefault
    &&& t.columns@[5].name@ == "playtime"@
    &&& t.columns@[5].kind == ColumnKind::Integer
    &&& !t.columns@[5].nullable
    &&& !t.columns@[5].unique
    &&& !t.columns@[5].auto_increment
    &&& t.columns@[5].default == DefaultRule::NoDefault
    &&& t.columns@[6].name@ == "completed"@
    &&& t.columns@[6].kind == ColumnKind::Boolean
    &&& !t.columns@[6].nullable
    &&& !t.columns@[6].unique
    &&& !t.columns@[6].auto_increment
    &&& t.columns@[6].default == DefaultRule::DefaultBool(false)
    &&& t.columns@[7].name@ == "invisible"@
    &&& t.columns@[7].kind == ColumnKind::Boolean
    &&& !t.columns@[7].nullable
    &&& !t.columns@[7].unique
    &&& !t.columns@[7].auto_increment
    &&& t.columns@[7].default == DefaultRule::DefaultBool(false)
    &&& t.columns@[8].name@ == "verified_at"@
    &&& t.columns@[8].kind == ColumnKind::TimestampTz
    &&& t.columns@[8].nullable
    &&& !t.columns@[8].unique
    &&& !t.columns@[8].auto_increment
    &&& t.columns@[8].default == DefaultRule::NoDefault
    &&& t.columns@[9].name@ == "created_at"@
    &&& t.columns@[9].kind == ColumnKind::TimestampTz
    &&& !t.columns@[9].nullable
    &&& !t.columns@[9].unique
    &&& !t.columns@[9].auto_increment
    &&& t.columns@[9].default == DefaultRule::DefaultCurrentTimestamp
    &&& t.columns@[10].name@ == "updated_at"@
    &&& t.columns@[10].kind == ColumnKind::TimestampTz
    &&& !t.columns@[10].nullable
    &&& !t.columns@[10].unique
    &&& !t.columns@[10].auto_increment
    &&& t.columns@[10].default == DefaultRule::DefaultCurrentTimestamp
}

/// Creates the table definition: columns in declared order, then the
/// primary-key shape.
pub fn create() -> (t: TableDef)
    ensures
        declared(t),
        table_wf(t, NUM_TYPES as int),
{
    let mut columns: Vec<ColumnDef> = Vec::new();
    columns.push(ColumnDef {
        name: "id",
        kind: ColumnKind::BigInteger,
        nullable: false,
        unique: false,
        auto_increment: true,
        default: DefaultRule::NoDefault,
    });
    columns.push(ColumnDef {
        name: "map_hash",
        kind: ColumnKind::CharCol(32),
        nullable: false,
        unique: false,
        auto_increment: false,
        default: DefaultRule::NoDefault,
    });
    columns.push(ColumnDef {
        name: "user_id",
        kind: ColumnKind::Integer,
        nullable: false,
        unique: false,
        auto_increment: false,
        default: DefaultRule::NoDefault,
    });
    columns.push(ColumnDef {
        name: "cksm",
        kind: ColumnKind::StringCol(None),
        nullable: false,
        unique: true,
        auto_increment: false,
        default: DefaultRule::NoDefault,
    });
    columns.push(ColumnDef {
        name: "kind",
        kind: ColumnKind::StringCol(None),
        nullable: false,
        unique: false,
        auto_increment: false,
        default: DefaultRule::NoDefault,
    });
    columns.push(ColumnDef {
        name: "playtime",
        kind: ColumnKind::Integer,
        nullable: false,
        unique: false,
        auto_increment: false,
        default: DefaultRule::NoDefault,
    });
    columns.push(ColumnDef {
        name: "completed",
        kind: ColumnKind::Boolean,
        nullable: false,
        unique: false,
        auto_increment: false,
        default: DefaultRule::DefaultBool(false),
    });
    columns.push(ColumnDef {
        name: "invisible",
        kind: ColumnKind::Boolean,
        nullable: false,
        unique: false,
        auto_increment: false,
        default: DefaultRule::DefaultBool(false),
    });
    columns.push(ColumnDef {
        name: "verified_at",
        kind: ColumnKind::TimestampTz,
        nullable: true,
        unique: false,
        auto_increment: false,
        default: DefaultRule::NoDefault,
    });
    columns.push(ColumnDef {
        name: "created_at",
        kind: ColumnKind::TimestampTz,
        nullable: false,
        unique: false,
        auto_increment: false,
        default: DefaultRule::DefaultCurrentTimestamp,
    });
    columns.push(ColumnDef {
        name: "updated_at",
        kind: ColumnKind::TimestampTz,
        nullable: false,
        unique: false,
        auto_increment: false,
        default: DefaultRule::DefaultCurrentTimestamp,
    });
    let mut pk: Vec<usize> = Vec::new();
    pk.push(0);
    let t = TableDef { name: "scores", columns, pk };
    assert(t.pk@ =~= seq![0usize]);
    assert(table_wf(t, NUM_TYPES as int));
    t
}

/// The declared foreign-key edges of the table, every one cascading
/// on update and on delete.
pub open spec fn declared_fks(v: Seq<ForeignKeyDef>) -> bool {
    &&& v.len() == 1
    &&& v[0].name@ == "FK_scores_user_id"@
    &&& v[0].child_table == SCORES
    &&& v[0].child_col == 2
    &&& v[0].parent_table == USERS
    &&& v[0].parent_col == 0
    &&& v[0].on_update == FkAction::Cascade
    &&& v[0].on_delete == FkAction::Cascade
}

/// Creates the table's declared foreign-key edges.
pub fn create_foreign_keys() -> (v: Vec<ForeignKeyDef>)
    ensures
        declared_fks(v@),
{
    let mut v: Vec<ForeignKeyDef> = Vec::new();
    v.push(ForeignKeyDef {
        name: "FK_scores_user_id",
        child_table: SCORES,
        child_col: 2,
        parent_table: USERS,
        parent_col: 0,
        on_update: FkAction::Cascade,
        on_delete: FkAction::Cascade,
    });
    v
}

/// The declared secondary indexes of the table: name, columns, and
/// whether each enforces uniqueness.
pub open spec fn declared_indexes(v: Seq<IndexDef>) -> bool {
    &&& v.len() == 2
    &&& v[0].name@ == "IDX_scores_cksm"@
    &&& v[0].table == SCORES
    &&& v[0].cols@ == seq![3usize]
    &&& v[0].unique
    &&& v[1].name@ == "IDX_scores_user_id"@
    &&& v[1].table == SCORES
    &&& v[1].cols@ == seq![2usize]
    &&& !v[1].unique
}

/// Creates the table's secondary indexes.
pub fn create_indexes() -> (v: Vec<IndexDef>)
    ensures
        declared_indexes(v@),
{
    let mut v: Vec<IndexDef> = Vec::new();
    let mut cols0: Vec<usize> = Vec::new();
    cols0.push(3);
    v.push(IndexDef {
        name: "IDX_scores_cksm",
        table: SCORES,
        cols: cols0,
        unique: true,
    });
    let mut cols1: Vec<usize> = Vec::new();
    cols1.push(2);
    v.push(IndexDef {
        name: "IDX_scores_user_id",
        table: SCORES,
        cols: cols1,
        unique: false,
    });
    assert(v@[0].cols@ =~= seq![3usize]);
    assert(v@[1].cols@ =~= seq![2usize]);
    v
}

} // verus!
