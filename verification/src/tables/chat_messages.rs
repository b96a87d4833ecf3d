//! Definition of the `chat_messages` table.

use vstd::prelude::*;

use crate::catalog::{USERS, CHANNELS, CHAT_MESSAGES, NUM_TYPES};
use crate::schema::{ColumnDef, ColumnKind, DefaultRule, FkAction, ForeignKeyDef, IndexDef, TableDef, table_wf};

verus! {

/// The declared content of the `chat_messages` table: its name, primary-key
/// shape, and every column with its type, nullability, uniqueness,
/// auto-increment flag and default rule.
pub open spec fn declared(t: TableDef) -> bool {
    &&& t.name@ == "chat_messages"@
    &&& t.pk@ == seq![0usize]
    &&& t.columns@.len() == 7
    &&& t.columns@[0].name@ == "id"@
    &&& t.columns@[0].kind == ColumnKind::BigInteger
    &&& !t.columns@[0].nullable
    &&& !t.columns@[0].unique
    &&& t.columns@[0].auto_increment
    &&& t.columns@[0].default == DefaultRule::NoDefault
    &&& t.columns@[1].name@ == "sender_id"@
    &&& t.columns@[1].kind == ColumnKind::Integer
    &&& !t.columns@[1].nullable
    &&& !t.columns@[1].unique
    &&& !t.columns@[1].auto_increment
    &&& t.columns@[1].default == DefaultRule::NoDefault
    &&& t.columns@[2].name@ == "channel_id"@
    &&& t.columns@[2].kind == ColumnKind::BigInteger
    &&& !t.columns@[2].nullable
    &&& !t.columns@[2].unique
    &&& !t.columns@[2].auto_increment
    &&& t.columns@[2].default == DefaultRule::NoDefault
    &&& t.columns@[3].name@ == "timestamp"@
    &&& t.columns@[3].kind == ColumnKind::TimestampTz
    &&& !t.columns@[3].nullable
    &&& !t.columns@[3].unique
    &&& !t.columns@[3].auto_increment
    &&& t.columns@[3].default == DefaultRule::DefaultCurrentTimestamp
    &&& t.columns@[4].name@ == "content_string"@
    &&& t.columns@[4].kind == ColumnKind::TextCol
    &&& !t.columns@[4].nullable
    &&& !t.columns@[4].unique
    &&& !t.columns@[4].auto_increment
    &&& t.columns@[4].default == DefaultRule::NoDefault
    &&& t.columns@[5].name@ == "content_html"@
    &&& t.columns@[5].kind == ColumnKind::TextCol
    &&& t.columns@[5].nullable
    &&& !t.columns@[5].unique
    &&& !t.columns@[5].auto_increment
    &&& t.columns@[5].default == DefaultRule::NoDefault
    &&& t.columns@[6].name@ == "is_action"@
    &&& t.columns@[6].kind == ColumnKind::Boolean
    &&& !t.columns@[6].nullable
    &&& !t.columns@[6].unique
    &&& !t.columns@[6].auto_increment
    &&& t.columns@[6].default == DefaultRule::DefaultBool(false)
}

/// Creates the table definition: columns in declared order, then the
/// primary-key shape.
pub fn create() -> (t: TableDef)
    ensures
        declared(t),
        table_wf(t, NUM_TYPES as int),
{
    let mut columns: Vec<ColumnDef> = Vec::new();
    columns.push(ColumnDef {
        name: "id",
        kind: ColumnKind::BigInteger,
        nullable: false,
        unique: false,
        auto_increment: true,
        default: DefaultRule::NoDefault,
    });
    columns.push(ColumnDef {
        name: "sender_id",
        kind: ColumnKind::Integer,
        nullable: false,
        unique: false,
        auto_increment: false,
        default: DefaultRule::NoDefault,
    });
    columns.push(ColumnDef {
        name: "channel_id",
        kind: ColumnKind::BigInteger,
        nullable: false,
        unique: false,
        auto_increment: false,
        default: DefaultRule::NoDefault,
    });
    columns.push(ColumnDef {
        name: "timestamp",
        kind: ColumnKind::TimestampTz,
        nullable: false,
        unique: false,
        auto_increment: false,
        default: DefaultRule::DefaultCurrentTimestamp,
    });
    columns.push(ColumnDef {
        name: "content_string",
        kind: ColumnKind::TextCol,
        nullable: false,
        unique: false,
        auto_increment: false,
        default: DefaultRule::NoDefault,
    });
    columns.push(ColumnDef {
        name: "content_html",
        kind: ColumnKind::TextCol,
        nullable: true,
        unique: false,
        auto_increment: false,
        default: DefaultRule::NoDefault,
    });
    columns.push(ColumnDef {
        name: "is_action",
        kind: ColumnKind::Boolean,
        nullable: false,
        unique: false,
        auto_increment: false,
        default: DefaultRule::DefaultBool(false),
    });
    let mut pk: Vec<usize> = Vec::new();
    pk.push(0);
    let t = TableDef { name: "chat_messages", columns, pk };
    assert(t.pk@ =~= seq![0usize]);
    assert(table_wf(t, NUM_TYPES as int));
    t
}

/// The declared foreign-key edges of the table, every one cascading
/// on update and on delete.
pub open spec fn declared_fks(v: Seq<ForeignKeyDef>) -> bool {
    &&& v.len() == 2
    &&& v[0].name@ == "FK_chat_msg_channel_id"@
    &&& v[0].child_table == CHAT_MESSAGES
    &&& v[0].child_col == 2
    &&& v[0].parent_table == CHANNELS
    &&& v[0].parent_col == 0
    &&& v[0].on_update == FkAction::Cascade
    &&& v[0].on_delete == FkAction::Cascade
    &&& v[1].name@ == "FK_chat_msg_user_id"@
    &&& v[1].child_table == CHAT_MESSAGES
    &&& v[1].child_col == 1
    &&& v[1].parent_table == USERS
    &&& v[1].parent_col == 0
    &&& v[1].on_update == FkAction::Cascade
    &&& v[1].on_delete == FkAction::Cascade
}

/// Creates the table's declared foreign-key edges.
pub fn create_foreign_keys() -> (v: Vec<ForeignKeyDef>)
    ensures
        declared_fks(v@),
{
    let mut v: Vec<ForeignKeyDef> = Vec::new();
    v.push(ForeignKeyDef {
        name: "FK_chat_msg_channel_id",
        child_table: CHAT_MESSAGES,
        child_col: 2,
        parent_table: CHANNELS,
        parent_col: 0,
        on_update: FkAction::Cascade,
        on_delete: FkAction::Cascade,
    });
    v.push(ForeignKeyDef {
        name: "FK_chat_msg_user_id",
        child_table: CHAT_MESSAGES,
        child_col: 1,
        parent_table: USERS,
        parent_col: 0,
        on_update: FkAction::Cascade,
        on_delete: FkAction::Cascade,
    });
    v
}

/// The declared secondary indexes of the table: name, columns, and
/// whether each enforces uniqueness.
pub open spec fn declared_indexes(v: Seq<IndexDef>) -> bool {
    &&& v.len() == 1
    &&& v[0].name@ == "IDX_chat_msg_channel_id"@
    &&& v[0].table == CHAT_MESSAGES
    &&& v[0].cols@ == seq![2usize]
    &&& !v[0].unique
}

/// Creates the table's secondary indexes.
pub fn create_indexes() -> (v: Vec<IndexDef>)
    ensures
        declared_indexes(v@),
{
    let mut v: Vec<IndexDef> = Vec::new();
    let mut cols0: Vec<usize> = Vec::new();
    cols0.push(2);
    v.push(IndexDef {
        name: "IDX_chat_msg_channel_id",
        table: CHAT_MESSAGES,
        cols: cols0,
        unique: false,
    });
    assert(v@[0].cols@ =~= seq![2usize]);
    v
}

} // verus!
