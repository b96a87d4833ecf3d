//! Definition of the `scores_classic` table.

use vstd::prelude::*;

use crate::catalog::{SCORES, SCORES_CLASSIC, GAME_MODE_TYPE, SCORE_GRADE_TYPE, SCORE_VERSION_TYPE, NUM_TYPES};
use crate::schema::{ColumnDef, ColumnKind, DefaultRule, FkAction, ForeignKeyDef, IndexDef, TableDef, table_wf};

verus! {

/// The declared content of the `scores_classic` table: its name, primary-key
/// shape, and every column with its type, nullability, uniqueness,
/// auto-increment flag and default rule.
pub open spec fn declared(t: TableDef) -> bool {
    &&& t.name@ == "scores_classic"@
    &&& t.pk@ == seq![0usize]
    &&& t.columns@.len() == 17
    &&& t.columns@[0].name@ == "id"@
    &&& t.columns@[0].kind == ColumnKind::BigInteger
    &&& !t.columns@[0].nullable
    &&& !t.columns@[0].unique
    &&& !t.columns@[0].auto_increment
    &&& t.columns@[0].default == DefaultRule::NoDefault
    &&& t.columns@[1].name@ == "mode"@
    &&& t.columns@[1].kind == ColumnKind::Enumeration(GAME_MODE_TYPE)
    &&& !t.columns@[1].nullable
    &&& !t.columns@[1].unique
    &&& !t.columns@[1].auto_increment
    &&& t.columns@[1].default == DefaultRule::NoDefault
    &&& t.columns@[2].name@ == "score_version"@
    &&& t.columns@[2].kind == ColumnKind::Enumeration(SCORE_VERSION_TYPE)
    &&& !t.columns@[2].nullable
    &&& !t.columns@[2].unique
    &&& !t.columns@[2].auto_increment
    &&& t.columns@[2].default == DefaultRule::NoDefault
    &&& t.columns@[3].name@ == "score"@
    &&& t.columns@[3].kind == ColumnKind::Integer
    &&& !t.columns@[3].nullable
    &&& !t.columns@[3].unique
    &&& !t.columns@[3].auto_increment
    &&& t.columns@[3].default == DefaultRule::NoDefault
    &&& t.columns@[4].name@ == "accuracy"@
    &&& t.columns@[4].kind == ColumnKind::Decimal(6, 2)
    &&& !t.columns@[4].nullable
    &&& !t.columns@[4].unique
    &&& !t.columns@[4].auto_increment
    &&& t.columns@[4].default == DefaultRule::NoDefault
    &&& t.columns@[5].name@ == "combo"@
    &&& t.columns@[5].kind == ColumnKind::Integer
    &&& !t.columns@[5].nullable
    &&& !t.columns@[5].unique
    &&& !t.columns@[5].auto_increment
    &&& t.columns@[5].default == DefaultRule::NoDefault
    &&& t.columns@[6].name@ == "mods"@
    &&& t.columns@[6].kind == ColumnKind::Integer
    &&& !t.columns@[6].nullable
    &&& !t.columns@[6].unique
    &&& !t.columns@[6].auto_increment
    &&& t.columns@[6].default == DefaultRule::NoDefault
    &&& t.columns@[7].name@ == "n300"@
    &&& t.columns@[7].kind == ColumnKind::Integer
    &&& !t.columns@[7].nullable
    &&& !t.columns@[7].unique
    &&& !t.columns@[7].auto_increment
    &&& t.columns@[7].default == DefaultRule::NoDefault
    &&& t.columns@[8].name@ == "n100"@
    &&& t.columns@[8].kind == ColumnKind::Integer
    &&& !t.columns@[8].nullable
    &&& !t.columns@[8].unique
    &&& !t.columns@[8].auto_increment
    &&& t.columns@[8].default == DefaultRule::NoDefault
    &&& t.columns@[9].name@ == "n50"@
    &&& t.columns@[9].kind == ColumnKind::Integer
    &&& !t.columns@[9].nullable
    &&& !t.columns@[9].unique
    &&& !t.columns@[9].auto_increment
    &&& t.columns@[9].default == DefaultRule::NoDefault
    &&& t.columns@[10].name@ == "miss"@
    &&& t.columns@[10].kind == ColumnKind::Integer
    &&& !t.columns@[10].nullable
    &&& !t.columns@[10].unique
    &&& !t.columns@[10].auto_increment
    &&& t.columns@[10].default == DefaultRule::NoDefault
    &&& t.columns@[11].name@ == "geki"@
    &&& t.columns@[11].kind == ColumnKind::Integer
    &&& !t.columns@[11].nullable
    &&& !t.columns@[11].unique
    &&& !t.columns@[11].auto_increment
    &&& t.columns@[11].default == DefaultRule::NoDefault
    &&& t.columns@[12].name@ == "katu"@
    &&& t.columns@[12].kind == ColumnKind::Integer
    &&& !t.columns@[12].nullable
    &&& !t.columns@[12].unique
    &&& !t.columns@[12].auto_increment
    &&& t.columns@[12].default == DefaultRule::NoDefault
    &&& t.columns@[13].name@ == "perfect"@
    &&& t.columns@[13].kind == ColumnKind::Boolean
    &&& !t.columns@[13].nullable
    &&& !t.columns@[13].unique
    &&& !t.columns@[13].auto_increment
    &&& t.columns@[13].default == DefaultRule::DefaultBool(false)
    &&& t.columns@[14].name@ == "grade"@
    &&& t.columns@[14].kind == ColumnKind::Enumeration(SCORE_GRADE_TYPE)
    &&& !t.columns@[14].nullable
    &&& !t.columns@[14].unique
    &&& !t.columns@[14].auto_increment
    &&& t.columns@[14].default == DefaultRule::NoDefault
    &&& t.columns@[15].name@ == "client_flags"@
    &&& t.columns@[15].kind == ColumnKind::Integer
    &&& !t.columns@[15].nullable
    &&& !t.columns@[15].unique
    &&& !t.columns@[15].auto_increment
    &&& t.columns@[15].default == DefaultRule::NoDefault
    &&& t.columns@[16].name@ == "client_version"@
    &&& t.columns@[16].kind == ColumnKind::StringCol(None)
    &&& !t.columns@[16].nullable
    &&& !t.columns@[16].unique
    &&& !t.columns@[16].auto_increment
    &&& t.columns@[16].default == DefaultRule::NoDefault
}

/// Creates the table definition: columns in declared order, then the
/// primary-key shape.
pub fn create() -> (t: TableDef)
    ensures
        declared(t),
        table_wf(t, NUM_TYPES as int),
{
    let mut columns: Vec<ColumnDef> = Vec::new();
    columns.push(ColumnDef {
        name: "id",
        kind: ColumnKind::BigInteger,
        nullable: false,
        unique: false,
        auto_increment: false,
        default: DefaultRule::NoDefault,
    });
    columns.push(ColumnDef {
        name: "mode",
        kind: ColumnKind::Enumeration(GAME_MODE_TYPE),
        nullable: false,
        unique: false,
        auto_increment: false,
        default: DefaultRule::NoDefault,
    });
    columns.push(ColumnDef {
        name: "score_version",
        kind: ColumnKind::Enumeration(SCORE_VERSION_TYPE),
        nullable: false,
        unique: false,
        auto_increment: false,
        default: DefaultRule::NoDefault,
    });
    columns.push(ColumnDef {
        name: "score",
        kind: ColumnKind::Integer,
        nullable: false,
        unique: false,
        auto_increment: false,
        default: DefaultRule::NoDefault,
    });
    columns.push(ColumnDef {
        name: "accuracy",
        kind: ColumnKind::Decimal(6, 2),
        nullable: false,
        unique: false,
        auto_increment: false,
        default: DefaultRule::NoDefault,
    });
    columns.push(ColumnDef {
        name: "combo",
        kind: ColumnKind::Integer,
        nullable: false,
        unique: false,
        auto_increment: false,
        default: DefaultRule::NoDefault,
    });
    columns.push(ColumnDef {
        name: "mods",
        kind: ColumnKind::Integer,
        nullable: false,
        unique: false,
        auto_increment: false,
        default: DefaultRule::NoDefault,
    });
    columns.push(ColumnDef {
        name: "n300",
        kind: ColumnKind::Integer,
        nullable: false,
        unique: false,
        auto_increment: false,
        default: DefaultRule::NoDefault,
    });
    columns.push(ColumnDef {
        name: "n100",
        kind: ColumnKind::Integer,
        nullable: false,
        unique: false,
        auto_increment: false,
        default: DefaultRule::NoDefault,
    });
    columns.push(ColumnDef {
        name: "n50",
        kind: ColumnKind::Integer,
        nullable: false,
        unique: false,
        auto_increment: false,
        default: DefaultRule::NoDefault,
    });
    columns.push(ColumnDef {
        name: "miss",
        kind: ColumnKind::Integer,
        nullable: false,
        unique: false,
        auto_increment: false,
        default: DefaultRule::NoDefault,
    });
    columns.push(ColumnDef {
        name: "geki",
        kind: ColumnKind::Integer,
        nullable: false,
        unique: false,
        auto_increment: false,
        default: DefaultRule::NoDefault,
    });
    columns.push(ColumnDef {
        name: "katu",
        kind: ColumnKind::Integer,
        nullable: false,
        unique: false,
        auto_increment: false,
        default: DefaultRule::NoDefault,
    });
    columns.push(ColumnDef {
        name: "perfect",
        kind: ColumnKind::Boolean,
        nullable: false,
        unique: false,
        auto_increment: false,
        default: DefaultRule::DefaultBool(false),
    });
    columns.push(ColumnDef {
        name: "grade",
        kind: ColumnKind::Enumeration(SCORE_GRADE_TYPE),
        nullable: false,
        unique: false,
        auto_increment: false,
        default: DefaultRule::NoDefault,
    });
    columns.push(ColumnDef {
        name: "client_flags",
        kind: ColumnKind::Integer,
        nullable: false,
        unique: false,
        auto_increment: false,
        default: DefaultRule::NoDefault,
    });
    columns.push(ColumnDef {
        name: "client_version",
        kind: ColumnKind::StringCol(None),
        nullable: false,
        unique: false,
        auto_increment: false,
        default: DefaultRule::NoDefault,
    });
    let mut pk: Vec<usize> = Vec::new();
    pk.push(0);
    let t = TableDef { name: "scores_classic", columns, pk };
    assert(t.pk@ =~= seq![0usize]);
    assert(table_wf(t, NUM_TYPES as int));
    t
}

/// The declared foreign-key edges of the table, every one cascading
/// on update and on delete.
pub open spec fn declared_fks(v: Seq<ForeignKeyDef>) -> bool {
    &&& v.len() == 1
    &&& v[0].name@ == "FK_scores_classic_scores_id"@
    &&& v[0].child_table == SCORES_CLASSIC
    &&& v[0].child_col == 0
    &&& v[0].parent_table == SCORES
    &&& v[0].parent_col == 0
    &&& v[0].on_update == FkAction::Cascade
    &&& v[0].on_delete == FkAction::Cascade
}

/// Creates the table's declared foreign-key edges.
pub fn create_foreign_keys() -> (v: Vec<ForeignKeyDef>)
    ensures
        declared_fks(v@),
{
    let mut v: Vec<ForeignKeyDef> = Vec::new();
    v.push(ForeignKeyDef {
        name: "FK_scores_classic_scores_id",
        child_table: SCORES_CLASSIC,
        child_col: 0,
        parent_table: SCORES,
        parent_col: 0,
        on_update: FkAction::Cascade,
        on_delete: FkAction::Cascade,
    });
    v
}

/// The declared secondary indexes of the table: name, columns, and
/// whether each enforces uniqueness.
pub open spec fn declared_indexes(v: Seq<IndexDef>) -> bool {
    &&& v.len() == 0
}

/// Creates the table's secondary indexes.
pub fn create_indexes() -> (v: Vec<IndexDef>)
    ensures
        declared_indexes(v@),
{
    let mut v: Vec<IndexDef> = Vec::new();
    v
}

} // verus!
