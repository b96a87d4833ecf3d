//! Definition of the `channels` table.

use vstd::prelude::*;

use crate::catalog::{CHANNELS, CHANNEL_TYPE_TYPE, NUM_TYPES};
use crate::schema::{ColumnDef, ColumnKind, DefaultRule, IndexDef, TableDef, table_wf};

verus! {

/// The declared content of the `channels` table: its name, primary-key
/// shape, and every column with its type, nullability, uniqueness,
/// auto-increment flag and default rule.
pub open spec fn declared(t: TableDef) -> bool {
    &&& t.name@ == "channels"@
    &&& t.pk@ == seq![0usize]
    &&& t.columns@.len() == 7
    &&& t.columns@[0].name@ == "id"@
    &&& t.columns@[0].kind == ColumnKind::BigInteger
    &&& !t.columns@[0].nullable
    &&& !t.columns@[0].unique
    &&& !t.columns@[0].auto_increment
    &&& t.columns@[0].default == DefaultRule::NoDefault
    &&& t.columns@[1].name@ == "channel_type"@
    &&& t.columns@[1].kind == ColumnKind::Enumeration(CHANNEL_TYPE_TYPE)
    &&& !t.columns@[1].nullable
    &&& !t.columns@[1].unique
    &&& !t.columns@[1].auto_increment
    &&& t.columns@[1].default == DefaultRule::NoDefault
    &&& t.columns@[2].name@ == "name"@
    &&& t.columns@[2].kind == ColumnKind::StringCol(None)
    &&& t.columns@[2].nullable
    &&& t.columns@[2].unique
    &&& !t.columns@[2].auto_increment
    &&& t.columns@[2].default == DefaultRule::NoDefault
    &&& t.columns@[3].name@ == "description"@
    &&& t.columns@[3].kind == ColumnKind::StringCol(None)
    &&& t.columns@[3].nullable
    &&& !t.columns@[3].unique
    &&& !t.columns@[3].auto_increment
    &&& t.columns@[3].default == DefaultRule::NoDefault
    &&& t.columns@[4].name@ == "icon"@
    &&& t.columns@[4].kind == ColumnKind::StringCol(None)
    &&& t.columns@[4].nullable
    &&& !t.columns@[4].unique
    &&& !t.columns@[4].auto_increment
    &&& t.columns@[4].default == DefaultRule::NoDefault
    &&& t.columns@[5].name@ == "auto_join"@
    &&& t.columns@[5].kind == ColumnKind::Boolean
    &&& !t.columns@[5].nullable
    &&& !t.columns@[5].unique
    &&& !t.columns@[5].auto_increment
    &&& t.columns@[5].default == DefaultRule::DefaultBool(false)
    &&& t.columns@[6].name@ == "creator_id"@
    &&& t.columns@[6].kind == ColumnKind::BigInteger
    &&& t.columns@[6].nullable
    &&& !t.columns@[6].unique
    &&& !t.columns@[6].auto_increment
    &&& t.columns@[6].default == DefaultRule::NoDefault
}

/// Creates the table definition: columns in declared order, then the
/// primary-key shape.
pub fn create() -> (t: TableDef)
    ensures
        declared(t),
        table_wf(t, NUM_TYPES as int),
{
    let mut columns: Vec<ColumnDef> = Vec::new();
    columns.push(ColumnDef {
        name: "id",
        kind: ColumnKind::BigInteger,
        nullable: false,
        unique: false,
        auto_increment: false,
        default: DefaultRule::NoDefault,
    });
    columns.push(ColumnDef {
        name: "channel_type",
        kind: ColumnKind::Enumeration(CHANNEL_TYPE_TYPE),
        nullable: false,
        unique: false,
        auto_increment: false,
        default: DefaultRule::NoDefault,
    });
    columns.push(ColumnDef {
        name: "name",
        kind: ColumnKind::StringCol(None),
        nullable: true,
        unique: true,
        auto_increment: false,
        default: DefaultRule::NoDefault,
    });
    columns.push(ColumnDef {
        name: "description",
        kind: ColumnKind::StringCol(None),
        nullable: true,
        unique: false,
        auto_increment: false,
        default: DefaultRule::NoDefault,
    });
    columns.push(ColumnDef {
        name: "icon",
        kind: ColumnKind::StringCol(None),
        nullable: true,
        unique: false,
        auto_increment: false,
        default: DefaultRule::NoDefault,
    });
    columns.push(ColumnDef {
        name: "auto_join",
        kind: ColumnKind::Boolean,
        nullable: false,
        unique: false,
        auto_increment: false,
        default: DefaultRule::DefaultBool(false),
    });
    columns.push(ColumnDef {
        name: "creator_id",
        kind: ColumnKind::BigInteger,
        nullable: true,
        unique: false,
        auto_increment: false,
        default: DefaultRule::NoDefault,
    });
    let mut pk: Vec<usize> = Vec::new();
    pk.push(0);
    let t = TableDef { name: "channels", columns, pk };
    assert(t.pk@ =~= seq![0usize]);
    assert(table_wf(t, NUM_TYPES as int));
    t
}

/// The declared secondary indexes of the table: name, columns, and
/// whether each enforces uniqueness.
pub open spec fn declared_indexes(v: Seq<IndexDef>) -> bool {
    &&& v.len() == 1
    &&& v[0].name@ == "IDX_channel_name"@
    &&& v[0].table == CHANNELS
    &&& v[0].cols@ == seq![2usize]
    &&& !v[0].unique
}

/// Creates the table's secondary indexes.
pub fn create_indexes() -> (v: Vec<IndexDef>)
    ensures
        declared_indexes(v@),
{
    let mut v: Vec<IndexDef> = Vec::new();
    let mut cols0: Vec<usize> = Vec::new();
    cols0.push(2);
    v.push(IndexDef {
        name: "IDX_channel_name",
        table: CHANNELS,
        cols: cols0,
        unique: false,
    });
    assert(v@[0].cols@ =~= seq![2usize]);
    v
}

} // verus!
