//! Definition of the `beatmaps` table.

use vstd::prelude::*;

use crate::catalog::{BEATMAPS, GAME_MODE_TYPE, RANK_STATUS_TYPE, NUM_TYPES};
use crate::schema::{ColumnDef, ColumnKind, DefaultRule, IndexDef, TableDef, table_wf};

verus! {

/// The declared content of the `beatmaps` table: its name, primary-key
/// shape, and every column with its type, nullability, uniqueness,
/// auto-increment flag and default rule.
pub open spec fn declared(t: TableDef) -> bool {
    &&& t.name@ == "beatmaps"@
    &&& t.pk@ == seq![0usize]
    &&& t.columns@.len() == 35
    &&& t.columns@[0].name@ == "bid"@
    &&& t.columns@[0].kind == ColumnKind::Integer
    &&& !t.columns@[0].nullable
    &&& !t.columns@[0].unique
    &&& !t.columns@[0].auto_increment
    &&& t.columns@[0].default == DefaultRule::NoDefault
    &&& t.columns@[1].name@ == "sid"@
    &&& t.columns@[1].kind == ColumnKind::Integer
    &&& !t.columns@[1].nullable
    &&& !t.columns@[1].unique
    &&& !t.columns@[1].auto_increment
    &&& t.columns@[1].default == DefaultRule::NoDefault
    &&& t.columns@[2].name@ == "md5"@
    &&& t.columns@[2].kind == ColumnKind::CharCol(32)
    &&& !t.columns@[2].nullable
    &&& t.columns@[2].unique
    &&& !t.columns@[2].auto_increment
    &&& t.columns@[2].default == DefaultRule::NoDefault
    &&& t.columns@[3].name@ == "title"@
    &&& t.columns@[3].kind == ColumnKind::StringCol(None)
    &&& !t.columns@[3].nullable
    &&& !t.columns@[3].unique
    &&& !t.columns@[3].auto_increment
    &&& t.columns@[3].default == DefaultRule::NoDefault
    &&& t.columns@[4].name@ == "file_name"@
    &&& t.columns@[4].kind == ColumnKind::StringCol(None)
    &&& !t.columns@[4].nullable
    &&& !t.columns@[4].unique
    &&& !t.columns@[4].auto_increment
    &&& t.columns@[4].default == DefaultRule::NoDefault
    &&& t.columns@[5].name@ == "artist"@
    &&& t.columns@[5].kind == ColumnKind::StringCol(None)
    &&& !t.columns@[5].nullable
    &&& !t.columns@[5].unique
    &&& !t.columns@[5].auto_increment
    &&& t.columns@[5].default == DefaultRule::NoDefault
    &&& t.columns@[6].name@ == "diff_name"@
    &&& t.columns@[6].kind == ColumnKind::StringCol(None)
    &&& !t.columns@[6].nullable
    &&& !t.columns@[6].unique
    &&& !t.columns@[6].auto_increment
    &&& t.columns@[6].default == DefaultRule::NoDefault
    &&& t.columns@[7].name@ == "origin_server"@
    &&& t.columns@[7].kind == ColumnKind::StringCol(None)
    &&& !t.columns@[7].nullable
    &&& !t.columns@[7].unique
    &&& !t.columns@[7].auto_increment
    &&& t.columns@[7].default == DefaultRule::NoDefault
    &&& t.columns@[8].name@ == "mapper_name"@
    &&& t.columns@[8].kind == ColumnKind::StringCol(None)
    &&& !t.columns@[8].nullable
    &&& !t.columns@[8].unique
    &&& !t.columns@[8].auto_increment
    &&& t.columns@[8].default == DefaultRule::NoDefault
    &&& t.columns@[9].name@ == "mapper_id"@
    &&& t.columns@[9].kind == ColumnKind::StringCol(None)
    &&& !t.columns@[9].nullable
    &&& !t.columns@[9].unique
    &&& !t.columns@[9].auto_increment
    &&& t.columns@[9].default == DefaultRule::NoDefault
    &&& t.columns@[10].name@ == "rank_status"@
    &&& t.columns@[10].kind == ColumnKind::Enumeration(RANK_STATUS_TYPE)
    &&& !t.columns@[10].nullable
    &&& !t.columns@[10].unique
    &&& !t.columns@[10].auto_increment
    &&& t.columns@[10].default matches DefaultRule::DefaultText(s) && s@ == "Pending"@
    &&& t.columns@[11].name@ == "game_mode"@
    &&& t.columns@[11].kind == ColumnKind::Enumeration(GAME_MODE_TYPE)
    &&& !t.columns@[11].nullable
    &&& !t.columns@[11].unique
    &&& !t.columns@[11].auto_increment
    &&& t.columns@[11].default == DefaultRule::NoDefault
    &&& t.columns@[12].name@ == "stars"@
    &&& t.columns@[12].kind == ColumnKind::Decimal(16, 2)
    &&& !t.columns@[12].nullable
    &&& !t.columns@[12].unique
    &&& !t.columns@[12].auto_increment
    &&& t.columns@[12].default == DefaultRule::NoDefault
    &&& t.columns@[13].name@ == "bpm"@
    &&& t.columns@[13].kind == ColumnKind::Decimal(16, 2)
    &&& !t.columns@[13].nullable
    &&& !t.columns@[13].unique
    &&& !t.columns@[13].auto_increment
    &&& t.columns@[13].default == DefaultRule::NoDefault
    &&& t.columns@[14].name@ == "cs"@
    &&& t.columns@[14].kind == ColumnKind::Decimal(4, 2)
    &&& !t.columns@[14].nullable
    &&& !t.columns@[14].unique
    &&& !t.columns@[14].auto_increment
    &&& t.columns@[14].default == DefaultRule::NoDefault
    &&& t.columns@[15].name@ == "od"@
    &&& t.columns@[15].kind == ColumnKind::Decimal(4, 2)
    &&& !t.columns@[15].nullable
    &&& !t.columns@[15].unique
    &&& !t.columns@[15].auto_increment
    &&& t.columns@[15].default == DefaultRule::NoDefault
    &&& t.columns@[16].name@ == "ar"@
    &&& t.columns@[16].kind == ColumnKind::Decimal(4, 2)
    &&& !t.columns@[16].nullable
    &&& !t.columns@[16].unique
    &&& !t.columns@[16].auto_increment
    &&& t.columns@[16].default == DefaultRule::NoDefault
    &&& t.columns@[17].name@ == "hp"@
    &&& t.columns@[17].kind == ColumnKind::Decimal(4, 2)
    &&& !t.columns@[17].nullable
    &&& !t.columns@[17].unique
    &&& !t.columns@[17].auto_increment
    &&& t.columns@[17].default == DefaultRule::NoDefault
    &&& t.columns@[18].name@ == "length"@
    &&& t.columns@[18].kind == ColumnKind::Integer
    &&& !t.columns@[18].nullable
    &&& !t.columns@[18].unique
    &&& !t.columns@[18].auto_increment
    &&& t.columns@[18].default == DefaultRule::NoDefault
    &&& t.columns@[19].name@ == "length_drain"@
    &&& t.columns@[19].kind == ColumnKind::Integer
    &&& !t.columns@[19].nullable
    &&& !t.columns@[19].unique
    &&& !t.columns@[19].auto_increment
    &&& t.columns@[19].default == DefaultRule::NoDefault
    &&& t.columns@[20].name@ == "source"@
    &&& t.columns@[20].kind == ColumnKind::StringCol(None)
    &&& t.columns@[20].nullable
    &&& !t.columns@[20].unique
    &&& !t.columns@[20].auto_increment
    &&& t.columns@[20].default == DefaultRule::NoDefault
    &&& t.columns@[21].name@ == "tags"@
    &&& t.columns@[21].kind == ColumnKind::StringCol(None)
    &&& t.columns@[21].nullable
    &&& !t.columns@[21].unique
    &&& !t.columns@[21].auto_increment
    &&& t.columns@[21].default == DefaultRule::NoDefault
    &&& t.columns@[22].name@ == "genre_id"@
    &&& t.columns@[22].kind == ColumnKind::SmallInteger
    &&& t.columns@[22].nullable
    &&& !t.columns@[22].unique
    &&& !t.columns@[22].auto_increment
    &&& t.columns@[22].default == DefaultRule::NoDefault
    &&& t.columns@[23].name@ == "language_id"@
    &&& t.columns@[23].kind == ColumnKind::SmallInteger
    &&& t.columns@[23].nullable
    &&& !t.columns@[23].unique
    &&& !t.columns@[23].auto_increment
    &&& t.columns@[23].default == DefaultRule::NoDefault
    &&& t.columns@[24].name@ == "storyboard"@
    &&& t.columns@[24].kind == ColumnKind::Boolean
    &&& t.columns@[24].nullable
    &&& !t.columns@[24].unique
    &&& !t.columns@[24].auto_increment
    &&& t.columns@[24].default == DefaultRule::NoDefault
    &&& t.columns@[25].name@ == "video"@
    &&& t.columns@[25].kind == ColumnKind::Boolean
    &&& t.columns@[25].nullable
    &&& !t.columns@[25].unique
    &&& !t.columns@[25].auto_increment
    &&& t.columns@[25].default == DefaultRule::NoDefault
    &&& t.columns@[26].name@ == "object_count"@
    &&& t.columns@[26].kind == ColumnKind::Integer
    &&& t.columns@[26].nullable
    &&& !t.columns@[26].unique
    &&& !t.columns@[26].auto_increment
    &&& t.columns@[26].default == DefaultRule::NoDefault
    &&& t.columns@[27].name@ == "slider_count"@
    &&& t.columns@[27].kind == ColumnKind::Integer
    &&& t.columns@[27].nullable
    &&& !t.columns@[27].unique
    &&& !t.columns@[27].auto_increment
    &&& t.columns@[27].default == DefaultRule::NoDefault
    &&& t.columns@[28].name@ == "spinner_count"@
    &&& t.columns@[28].kind == ColumnKind::Integer
    &&& t.columns@[28].nullable
    &&& !t.columns@[28].unique
    &&& !t.columns@[28].auto_increment
    &&& t.columns@[28].default == DefaultRule::NoDefault
    &&& t.columns@[29].name@ == "max_combo"@
    &&& t.columns@[29].kind == ColumnKind::Integer
    &&& t.columns@[29].nullable
    &&& !t.columns@[29].unique
    &&& !t.columns@[29].auto_increment
    &&& t.columns@[29].default == DefaultRule::NoDefault
    &&& t.columns@[30].name@ == "immutable"@
    &&& t.columns@[30].kind == ColumnKind::Boolean
    &&& !t.columns@[30].nullable
    &&& !t.columns@[30].unique
    &&& !t.columns@[30].auto_increment
    &&& t.columns@[30].default == DefaultRule::DefaultBool(false)
    &&& t.columns@[31].name@ == "last_update"@
    &&& t.columns@[31].kind == ColumnKind::TimestampTz
    &&& !t.columns@[31].nullable
    &&& !t.columns@[31].unique
    &&& !t.columns@[31].auto_increment
    &&& t.columns@[31].default == DefaultRule::DefaultCurrentTimestamp
    &&& t.columns@[32].name@ == "upload_time"@
    &&& t.columns@[32].kind == ColumnKind::TimestampTz
    &&& !t.columns@[32].nullable
    &&& !t.columns@[32].unique
    &&& !t.columns@[32].auto_increment
    &&& t.columns@[32].default == DefaultRule::DefaultCurrentTimestamp
    &&& t.columns@[33].name@ == "approved_time"@
    &&& t.columns@[33].kind == ColumnKind::TimestampTz
    &&& t.columns@[33].nullable
    &&& !t.columns@[33].unique
    &&& !t.columns@[33].auto_increment
    &&& t.columns@[33].default == DefaultRule::DefaultCurrentTimestamp
    &&& t.columns@[34].name@ == "updated_at"@
    &&& t.columns@[34].kind == ColumnKind::TimestampTz
    &&& !t.columns@[34].nullable
    &&& !t.columns@[34].unique
    &&& !t.columns@[34].auto_increment
    &&& t.columns@[34].default == DefaultRule::DefaultCurrentTimestamp
}

/// Creates the table definition: columns in declared order, then the
/// primary-key shape.
pub fn create() -> (t: TableDef)
    ensures
        declared(t),
        table_wf(t, NUM_TYPES as int),
{
    let mut columns: Vec<ColumnDef> = Vec::new();
    columns.push(ColumnDef {
        name: "bid",
        kind: ColumnKind::Integer,
        nullable: false,
        unique: false,
        auto_increment: false,
        default: DefaultRule::NoDefault,
    });
    columns.push(ColumnDef {
        name: "sid",
        kind: ColumnKind::Integer,
        nullable: false,
        unique: false,
        auto_increment: false,
        default: DefaultRule::NoDefault,
    });
    columns.push(ColumnDef {
        name: "md5",
        kind: ColumnKind::CharCol(32),
        nullable: false,
        unique: true,
        auto_increment: false,
        default: DefaultRule::NoDefault,
    });
    columns.push(ColumnDef {
        name: "title",
        kind: ColumnKind::StringCol(None),
        nullable: false,
        unique: false,
        auto_increment: false,
        default: DefaultRule::NoDefault,
    });
    columns.push(ColumnDef {
        name: "file_name",
        kind: ColumnKind::StringCol(None),
        nullable: false,
        unique: false,
        auto_increment: false,
        default: DefaultRule::NoDefault,
    });
    columns.push(ColumnDef {
        name: "artist",
        kind: ColumnKind::StringCol(None),
        nullable: false,
        unique: false,
        auto_increment: false,
        default: DefaultRule::NoDefault,
    });
    columns.push(ColumnDef {
        name: "diff_name",
        kind: ColumnKind::StringCol(None),
        nullable: false,
        unique: false,
        auto_increment: false,
        default: DefaultRule::NoDefault,
    });
    columns.push(ColumnDef {
        name: "origin_server",
        kind: ColumnKind::StringCol(None),
        nullable: false,
        unique: false,
        auto_increment: false,
        default: DefaultRule::NoDefault,
    });
    columns.push(ColumnDef {
        name: "mapper_name",
        kind: ColumnKind::StringCol(None),
        nullable: false,
        unique: false,
        auto_increment: false,
        default: DefaultRule::NoDefault,
    });
    columns.push(ColumnDef {
        name: "mapper_id",
        kind: ColumnKind::StringCol(None),
        nullable: false,
        unique: false,
        auto_increment: false,
        default: DefaultRule::NoDefault,
    });
    columns.push(ColumnDef {
        name: "rank_status",
        kind: ColumnKind::Enumeration(RANK_STATUS_TYPE),
        nullable: false,
        unique: false,
        auto_increment: false,
        default: DefaultRule::DefaultText("Pending"),
    });
    columns.push(ColumnDef {
        name: "game_mode",
        kind: ColumnKind::Enumeration(GAME_MODE_TYPE),
        nullable: false,
        unique: false,
        auto_increment: false,
        default: DefaultRule::NoDefault,
    });
    columns.push(ColumnDef {
        name: "stars",
        kind: ColumnKind::Decimal(16, 2),
        nullable: false,
        unique: false,
        auto_increment: false,
        default: DefaultRule::NoDefault,
    });
    columns.push(ColumnDef {
        name: "bpm",
        kind: ColumnKind::Decimal(16, 2),
        nullable: false,
        unique: false,
        auto_increment: false,
        default: DefaultRule::NoDefault,
    });
    columns.push(ColumnDef {
        name: "cs",
        kind: ColumnKind::Decimal(4, 2),
        nullable: false,
        unique: false,
        auto_increment: false,
        default: DefaultRule::NoDefault,
    });
    columns.push(ColumnDef {
        name: "od",
        kind: ColumnKind::Decimal(4, 2),
        nullable: false,
        unique: false,
        auto_increment: false,
        default: DefaultRule::NoDefault,
    });
    columns.push(ColumnDef {
        name: "ar",
        kind: ColumnKind::Decimal(4, 2),
        nullable: false,
        unique: false,
        auto_increment: false,
        default: DefaultRule::NoDefault,
    });
    columns.push(ColumnDef {
        name: "hp",
        kind: ColumnKind::Decimal(4, 2),
        nullable: false,
        unique: false,
        auto_increment: false,
        default: DefaultRule::NoDefault,
    });
    columns.push(ColumnDef {
        name: "length",
        kind: ColumnKind::Integer,
        nullable: false,
        unique: false,
        auto_increment: false,
        default: DefaultRule::NoDefault,
    });
    columns.push(ColumnDef {
        name: "length_drain",
        kind: ColumnKind::Integer,
        nullable: false,
        unique: false,
        auto_increment: false,
        default: DefaultRule::NoDefault,
    });
    columns.push(ColumnDef {
        name: "source",
        kind: ColumnKind::StringCol(None),
        nullable: true,
        unique: false,
        auto_increment: false,
        default: DefaultRule::NoDefault,
    });
    columns.push(ColumnDef {
        name: "tags",
        kind: ColumnKind::StringCol(None),
        nullable: true,
        unique: false,
        auto_increment: false,
        default: DefaultRule::NoDefault,
    });
    columns.push(ColumnDef {
        name: "genre_id",
        kind: ColumnKind::SmallInteger,
        nullable: true,
        unique: false,
        auto_increment: false,
        default: DefaultRule::NoDefault,
    });
    columns.push(ColumnDef {
        name: "language_id",
        kind: ColumnKind::SmallInteger,
        nullable: true,
        unique: false,
        auto_increment: false,
        default: DefaultRule::NoDefault,
    });
    columns.push(ColumnDef {
        name: "storyboard",
        kind: ColumnKind::Boolean,
        nullable: true,
        unique: false,
        auto_increment: false,
        default: DefaultRule::NoDefault,
    });
    columns.push(ColumnDef {
        name: "video",
        kind: ColumnKind::Boolean,
        nullable: true,
        unique: false,
        auto_increment: false,
        default: DefaultRule::NoDefault,
    });
    columns.push(ColumnDef {
        name: "object_count",
        kind: ColumnKind::Integer,
        nullable: true,
        unique: false,
        auto_increment: false,
        default: DefaultRule::NoDefault,
    });
    columns.push(ColumnDef {
        name: "slider_count",
        kind: ColumnKind::Integer,
        nullable: true,
        unique: false,
        auto_increment: false,
        default: DefaultRule::NoDefault,
    });
    columns.push(ColumnDef {
        name: "spinner_count",
        kind: ColumnKind::Integer,
        nullable: true,
        unique: false,
        auto_increment: false,
        default: DefaultRule::NoDefault,
    });
    columns.push(ColumnDef {
        name: "max_combo",
        kind: ColumnKind::Integer,
        nullable: true,
        unique: false,
        auto_increment: false,
        default: DefaultRule::NoDefault,
    });
    columns.push(ColumnDef {
        name: "immutable",
        kind: ColumnKind::Boolean,
        nullable: false,
        unique: false,
        auto_increment: false,
        default: DefaultRule::DefaultBool(false),
    });
    columns.push(ColumnDef {
        name: "last_update",
        kind: ColumnKind::TimestampTz,
        nullable: false,
        unique: false,
        auto_increment: false,
        default: DefaultRule::DefaultCurrentTimestamp,
    });
    columns.push(ColumnDef {
        name: "upload_time",
        kind: ColumnKind::TimestampTz,
        nullable: false,
        unique: false,
        auto_increment: false,
        default: DefaultRule::DefaultCurrentTimestamp,
    });
    columns.push(ColumnDef {
        name: "approved_time",
        kind: ColumnKind::TimestampTz,
        nullable: true,
        unique: false,
        auto_increment: false,
        default: DefaultRule::DefaultCurrentTimestamp,
    });
    columns.push(ColumnDef {
        name: "updated_at",
        kind: ColumnKind::TimestampTz,
        nullable: false,
        unique: false,
        auto_increment: false,
        default: DefaultRule::DefaultCurrentTimestamp,
    });
    let mut pk: Vec<usize> = Vec::new();
    pk.push(0);
    let t = TableDef { name: "beatmaps", columns, pk };
    assert(t.pk@ =~= seq![0usize]);
    assert(table_wf(t, NUM_TYPES as int));
    t
}

/// The declared secondary indexes of the table: name, columns, and
/// whether each enforces uniqueness.
pub open spec fn declared_indexes(v: Seq<IndexDef>) -> bool {
    &&& v.len() == 4
    &&& v[0].name@ == "IDX_beatmaps_sid"@
    &&& v[0].table == BEATMAPS
    &&& v[0].cols@ == seq![1usize]
    &&& !v[0].unique
    &&& v[1].name@ == "IDX_beatmaps_md5"@
    &&& v[1].table == BEATMAPS
    &&& v[1].cols@ == seq![2usize]
    &&& v[1].unique
    &&& v[2].name@ == "IDX_beatmaps_file_name"@
    &&& v[2].table == BEATMAPS
    &&& v[2].cols@ == seq![4usize]
    &&& !v[2].unique
    &&& v[3].name@ == "IDX_beatmaps_rank_status"@
    &&& v[3].table == BEATMAPS
    &&& v[3].cols@ == seq![10usize]
    &&& !v[3].unique
}

/// Creates the table's secondary indexes.
pub fn create_indexes() -> (v: Vec<IndexDef>)
    ensures
        declared_indexes(v@),
{
    let mut v: Vec<IndexDef> = Vec::new();
    let mut cols0: Vec<usize> = Vec::new();
    cols0.push(1);
    v.push(IndexDef {
        name: "IDX_beatmaps_sid",
        table: BEATMAPS,
        cols: cols0,
        unique: false,
    });
    let mut cols1: Vec<usize> = Vec::new();
    cols1.push(2);
    v.push(IndexDef {
        name: "IDX_beatmaps_md5",
        table: BEATMAPS,
        cols: cols1,
        unique: true,
    });
    let mut cols2: Vec<usize> = Vec::new();
    cols2.push(4);
    v.push(IndexDef {
        name: "IDX_beatmaps_file_name",
        table: BEATMAPS,
        cols: cols2,
        unique: false,
    });
    let mut cols3: Vec<usize> = Vec::new();
    cols3.push(10);
    v.push(IndexDef {
        name: "IDX_beatmaps_rank_status",
        table: BEATMAPS,
        cols: cols3,
        unique: false,
    });
    assert(v@[0].cols@ =~= seq![1usize]);
    assert(v@[1].cols@ =~= seq![2usize]);
    assert(v@[2].cols@ =~= seq![4usize]);
    assert(v@[3].cols@ =~= seq![10usize]);
    v
}

} // verus!
