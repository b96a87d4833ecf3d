//! Definition of the `leaderboard` table.

use vstd::prelude::*;

use crate::catalog::{USERS, BEATMAPS, SCORES, LEADERBOARD, NUM_TYPES};
use crate::schema::{ColumnDef, ColumnKind, DefaultRule, FkAction, ForeignKeyDef, IndexDef, TableDef, table_wf};

verus! {

/// The declared content of the `leaderboard` table: its name, primary-key
/// shape, and every column with its type, nullability, uniqueness,
/// auto-increment flag and default rule.
pub open spec fn declared(t: TableDef) -> bool {
    &&& t.name@ == "leaderboard"@
    &&& t.pk@ == seq![0usize, 1usize, 2usize]
    &&& t.columns@.len() == 5
    &&& t.columns@[0].name@ == "beatmap_id"@
    &&& t.columns@[0].kind == ColumnKind::Integer
    &&& !t.columns@[0].nullable
    &&& !t.columns@[0].unique
    &&& !t.columns@[0].auto_increment
    &&& t.columns@[0].default == DefaultRule::NoDefault
    &&& t.columns@[1].name@ == "mode"@
    &&& t.columns@[1].kind == ColumnKind::StringCol(None)
    &&& !t.columns@[1].nullable
    &&& !t.columns@[1].unique
    &&& !t.columns@[1].auto_increment
    &&& t.columns@[1].default == DefaultRule::NoDefault
    &&& t.columns@[2].name@ == "ranking_type"@
    &&& t.columns@[2].kind == ColumnKind::StringCol(None)
    &&& !t.columns@[2].nullable
    &&& !t.columns@[2].unique
    &&& !t.columns@[2].auto_increment
    &&& t.columns@[2].default == DefaultRule::NoDefault
    &&& t.columns@[3].name@ == "user_id"@
    &&& t.columns@[3].kind == ColumnKind::Integer
    &&& !t.columns@[3].nullable
    &&& !t.columns@[3].unique
    &&& !t.columns@[3].auto_increment
    &&& t.columns@[3].default == DefaultRule::NoDefault
    &&& t.columns@[4].name@ == "score_id"@
    &&& t.columns@[4].kind == ColumnKind::BigInteger
    &&& !t.columns@[4].nullable
    &&& !t.columns@[4].unique
    &&& !t.columns@[4].auto_increment
    &&& t.columns@[4].default == DefaultRule::NoDefault
}

/// Creates the table definition: columns in declared order, then the
/// primary-key shape.
pub fn create() -> (t: TableDef)
    ensures
        declared(t),
        table_wf(t, NUM_TYPES as int),
{
    let mut columns: Vec<ColumnDef> = Vec::new();
    columns.push(ColumnDef {
        name: "beatmap_id",
        kind: ColumnKind::Integer,
        nullable: false,
        unique: false,
        auto_increment: false,
        default: DefaultRule::NoDefault,
    });
    columns.push(ColumnDef {
        name: "mode",
        kind: ColumnKind::StringCol(None),
        nullable: false,
        unique: false,
        auto_increment: false,
        default: DefaultRule::NoDefault,
    });
    columns.push(ColumnDef {
        name: "ranking_type",
        kind: ColumnKind::StringCol(None),
        nullable: false,
        unique: false,
        auto_increment: false,
        default: DefaultRule::NoDefault,
    });
    columns.push(ColumnDef {
        name: "user_id",
        kind: ColumnKind::Integer,
        nullable: false,
        unique: false,
        auto_increment: false,
        default: DefaultRule::NoDefault,
    });
    columns.push(ColumnDef {
        name: "score_id",
        kind: ColumnKind::BigInteger,
        nullable: false,
        unique: false,
        auto_increment: false,
        default: DefaultRule::NoDefault,
    });
    let mut pk: Vec<usize> = Vec::new();
    pk.push(0);
    pk.push(1);
    pk.push(2);
    let t = TableDef { name: "leaderboard", columns, pk };
    assert(t.pk@ =~= seq![0usize, 1usize, 2usize]);
    assert(table_wf(t, NUM_TYPES as int));
    t
}

/// The declared foreign-key edges of the table, every one cascading
/// on update and on delete.
pub open spec fn declared_fks(v: Seq<ForeignKeyDef>) -> bool {
    &&& v.len() == 3
    &&& v[0].name@ == "FK_leaderboard_beatmap_id"@
    &&& v[0].child_table == LEADERBOARD
    &&& v[0].child_col == 0
    &&& v[0].parent_table == BEATMAPS
    &&& v[0].parent_col == 0
    &&& v[0].on_update == FkAction::Cascade
    &&& v[0].on_delete == FkAction::Cascade
    &&& v[1].name@ == "FK_leaderboard_score_id"@
    &&& v[1].child_table == LEADERBOARD
    &&& v[1].child_col == 4
    &&& v[1].parent_table == SCORES
    &&& v[1].parent_col == 0
    &&& v[1].on_update == FkAction::Cascade
    &&& v[1].on_delete == FkAction::Cascade
    &&& v[2].name@ == "FK_leaderboard_user_id"@
    &&& v[2].child_table == LEADERBOARD
    &&& v[2].child_col == 3
    &&& v[2].parent_table == USERS
    &&& v[2].parent_col == 0
    &&& v[2].on_update == FkAction::Cascade
    &&& v[2].on_delete == FkAction::Cascade
}

/// Creates the table's declared foreign-key edges.
pub fn create_foreign_keys() -> (v: Vec<ForeignKeyDef>)
    ensures
        declared_fks(v@),
{
    let mut v: Vec<ForeignKeyDef> = Vec::new();
    v.push(ForeignKeyDef {
        name: "FK_leaderboard_beatmap_id",
        child_table: LEADERBOARD,
        child_col: 0,
        parent_table: BEATMAPS,
        parent_col: 0,
        on_update: FkAction::Cascade,
        on_delete: FkAction::Cascade,
    });
    v.push(ForeignKeyDef {
        name: "FK_leaderboard_score_id",
        child_table: LEADERBOARD,
        child_col: 4,
        parent_table: SCORES,
        parent_col: 0,
        on_update: FkAction::Cascade,
        on_delete: FkAction::Cascade,
    });
    v.push(ForeignKeyDef {
        name: "FK_leaderboard_user_id",
        child_table: LEADERBOARD,
        child_col: 3,
        parent_table: USERS,
        parent_col: 0,
        on_update: FkAction::Cascade,
        on_delete: FkAction::Cascade,
    });
    v
}

/// The declared secondary indexes of the table: name, columns, and
/// whether each enforces uniqueness.
pub open spec fn declared_indexes(v: Seq<IndexDef>) -> bool {
    &&& v.len() == 0
}

/// Creates the table's secondary indexes.
pub fn create_indexes() -> (v: Vec<IndexDef>)
    ensures
        declared_indexes(v@),
{
    let mut v: Vec<IndexDef> = Vec::new();
    v
}

} // verus!
