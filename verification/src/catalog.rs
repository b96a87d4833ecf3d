//! The declared schema catalog: every enumerated type, table, foreign-key
//! edge and index of the system, in their declared creation order.
//!
//! The declared table order places every parent before its children, so
//! creating tables in this order satisfies all dependencies, and the
//! migration engine reverses it for destruction. `catalog_wf` captures the
//! ordering invariant, and the `declared_*` predicates pin the complete
//! declared content — names, columns, keys, defaults, edges, actions and
//! indexes — so that holding a catalog value is holding the whole schema.

use vstd::prelude::*;

use crate::tables::{users, privileges, user_privileges, bancho_client_hardware_records, favourite_beatmaps, followers, user_settings, beatmaps, beatmap_ratings, channels, channel_users, channel_privileges, chat_messages, scores, scores_classic, scores_generic, leaderboard, score_pp, user_pp, user_stats};
use crate::schema::{Catalog, EnumTypeDef, ForeignKeyDef, IndexDef, TableDef, catalog_wf, fk_wf, index_wf, table_wf};

verus! {

/// Positions of the tables in the declared catalog order.
pub const USERS: usize = 0;
pub const PRIVILEGES: usize = 1;
pub const USER_PRIVILEGES: usize = 2;
pub const BANCHO_CLIENT_HARDWARE_RECORDS: usize = 3;
pub const FAVOURITE_BEATMAPS: usize = 4;
pub const FOLLOWERS: usize = 5;
pub const USER_SETTINGS: usize = 6;
pub const BEATMAPS: usize = 7;
pub const BEATMAP_RATINGS: usize = 8;
pub const CHANNELS: usize = 9;
pub const CHANNEL_USERS: usize = 10;
pub const CHANNEL_PRIVILEGES: usize = 11;
pub const CHAT_MESSAGES: usize = 12;
pub const SCORES: usize = 13;
pub const SCORES_CLASSIC: usize = 14;
pub const SCORES_GENERIC: usize = 15;
pub const LEADERBOARD: usize = 16;
pub const SCORE_PP: usize = 17;
pub const USER_PP: usize = 18;
pub const USER_STATS: usize = 19;

pub const NUM_TABLES: usize = 20;

/// Positions of the enumerated types in the declared creation order.
pub const RANK_STATUS_TYPE: usize = 0;
pub const GAME_MODE_TYPE: usize = 1;
pub const SCORE_GRADE_TYPE: usize = 2;
pub const PP_VERSION_TYPE: usize = 3;
pub const SCORE_VERSION_TYPE: usize = 4;
pub const RANKING_TYPE_TYPE: usize = 5;
pub const CHANNEL_TYPE_TYPE: usize = 6;
pub const CHANNEL_HANDLE_TYPE_TYPE: usize = 7;

pub const NUM_TYPES: usize = 8;

/// The declared enumerated types: each one's object name and the textual
/// identifiers of its members, in order.
pub open spec fn declared_types(types: Seq<EnumTypeDef>) -> bool {
    &&& types.len() == NUM_TYPES
    &&& types[RANK_STATUS_TYPE as int].name@ == "rank_status"@
    &&& types[RANK_STATUS_TYPE as int].values@.len() == 7
    &&& types[RANK_STATUS_TYPE as int].values@[0]@ == "Graveyard"@
    &&& types[RANK_STATUS_TYPE as int].values@[1]@ == "Wip"@
    &&& types[RANK_STATUS_TYPE as int].values@[2]@ == "Pending"@
    &&& types[RANK_STATUS_TYPE as int].values@[3]@ == "Ranked"@
    &&& types[RANK_STATUS_TYPE as int].values@[4]@ == "Approved"@
    &&& types[RANK_STATUS_TYPE as int].values@[5]@ == "Qualified"@
    &&& types[RANK_STATUS_TYPE as int].values@[6]@ == "Loved"@
    &&& types[GAME_MODE_TYPE as int].name@ == "game_mode"@
    &&& types[GAME_MODE_TYPE as int].values@.len() == 4
    &&& types[GAME_MODE_TYPE as int].values@[0]@ == "Standard"@
    &&& types[GAME_MODE_TYPE as int].values@[1]@ == "Taiko"@
    &&& types[GAME_MODE_TYPE as int].values@[2]@ == "Fruits"@
    &&& types[GAME_MODE_TYPE as int].values@[3]@ == "Mania"@
    &&& types[SCORE_GRADE_TYPE as int].name@ == "score_grade"@
    &&& types[SCORE_GRADE_TYPE as int].values@.len() == 9
    &&& types[SCORE_GRADE_TYPE as int].values@[0]@ == "A"@
    &&& types[SCORE_GRADE_TYPE as int].values@[1]@ == "B"@
    &&& types[SCORE_GRADE_TYPE as int].values@[2]@ == "C"@
    &&& types[SCORE_GRADE_TYPE as int].values@[3]@ == "D"@
    &&& types[SCORE_GRADE_TYPE as int].values@[4]@ == "S"@
    &&& types[SCORE_GRADE_TYPE as int].values@[5]@ == "SH"@
    &&& types[SCORE_GRADE_TYPE as int].values@[6]@ == "X"@
    &&& types[SCORE_GRADE_TYPE as int].values@[7]@ == "XH"@
    &&& types[SCORE_GRADE_TYPE as int].values@[8]@ == "F"@
    &&& types[PP_VERSION_TYPE as int].name@ == "pp_version"@
    &&& types[PP_VERSION_TYPE as int].values@.len() == 2
    &&& types[PP_VERSION_TYPE as int].values@[0]@ == "v1"@
    &&& types[PP_VERSION_TYPE as int].values@[1]@ == "v2"@
    &&& types[SCORE_VERSION_TYPE as int].name@ == "score_version"@
    &&& types[SCORE_VERSION_TYPE as int].values@.len() == 2
    &&& types[SCORE_VERSION_TYPE as int].values@[0]@ == "v1"@
    &&& types[SCORE_VERSION_TYPE as int].values@[1]@ == "v2"@
    &&& types[RANKING_TYPE_TYPE as int].name@ == "ranking_type"@
    &&& types[RANKING_TYPE_TYPE as int].values@.len() == 4
    &&& types[RANKING_TYPE_TYPE as int].values@[0]@ == "score_v1"@
    &&& types[RANKING_TYPE_TYPE as int].values@[1]@ == "score_v2"@
    &&& types[RANKING_TYPE_TYPE as int].values@[2]@ == "pp_v1"@
    &&& types[RANKING_TYPE_TYPE as int].values@[3]@ == "pp_v2"@
    &&& types[CHANNEL_TYPE_TYPE as int].name@ == "channel_type"@
    &&& types[CHANNEL_TYPE_TYPE as int].values@.len() == 5
    &&& types[CHANNEL_TYPE_TYPE as int].values@[0]@ == "private"@
    &&& types[CHANNEL_TYPE_TYPE as int].values@[1]@ == "public"@
    &&& types[CHANNEL_TYPE_TYPE as int].values@[2]@ == "group"@
    &&& types[CHANNEL_TYPE_TYPE as int].values@[3]@ == "multiplayer"@
    &&& types[CHANNEL_TYPE_TYPE as int].values@[4]@ == "spectator"@
    &&& types[CHANNEL_HANDLE_TYPE_TYPE as int].name@ == "channel_handle_type"@
    &&& types[CHANNEL_HANDLE_TYPE_TYPE as int].values@.len() == 4
    &&& types[CHANNEL_HANDLE_TYPE_TYPE as int].values@[0]@ == "join"@
    &&& types[CHANNEL_HANDLE_TYPE_TYPE as int].values@[1]@ == "send_message"@
    &&& types[CHANNEL_HANDLE_TYPE_TYPE as int].values@[2]@ == "kick_user"@
    &&& types[CHANNEL_HANDLE_TYPE_TYPE as int].values@[3]@ == "mute_user"@
}

/// The declared tables: each one's name, primary-key shape, and every
/// column with its type, nullability, uniqueness, auto-increment flag and
/// default rule, as its own module states them.
pub open spec fn declared_tables(tables: Seq<TableDef>) -> bool {
    &&& tables.len() == NUM_TABLES
    &&& users::declared(tables[USERS as int])
    &&& privileges::declared(tables[PRIVILEGES as int])
    &&& user_privileges::declared(tables[USER_PRIVILEGES as int])
    &&& bancho_client_hardware_records::declared(tables[BANCHO_CLIENT_HARDWARE_RECORDS as int])
    &&& favourite_beatmaps::declared(tables[FAVOURITE_BEATMAPS as int])
    &&& followers::declared(tables[FOLLOWERS as int])
    &&& user_settings::declared(tables[USER_SETTINGS as int])
    &&& beatmaps::declared(tables[BEATMAPS as int])
    &&& beatmap_ratings::declared(tables[BEATMAP_RATINGS as int])
    &&& channels::declared(tables[CHANNELS as int])
    &&& channel_users::declared(tables[CHANNEL_USERS as int])
    &&& channel_privileges::declared(tables[CHANNEL_PRIVILEGES as int])
    &&& chat_messages::declared(tables[CHAT_MESSAGES as int])
    &&& scores::declared(tables[SCORES as int])
    &&& scores_classic::declared(tables[SCORES_CLASSIC as int])
    &&& scores_generic::declared(tables[SCORES_GENERIC as int])
    &&& leaderboard::declared(tables[LEADERBOARD as int])
    &&& score_pp::declared(tables[SCORE_PP as int])
    &&& user_pp::declared(tables[USER_PP as int])
    &&& user_stats::declared(tables[USER_STATS as int])
}

/// The declared foreign-key edges, grouped by child table in declared
/// order, each group as its own module states it: constraint names,
/// endpoints, and cascade actions on update and on delete.
pub open spec fn declared_fks(fks: Seq<ForeignKeyDef>) -> bool {
    &&& fks.len() == 25
    &&& user_privileges::declared_fks(fks.subrange(0, 3))
    &&& bancho_client_hardware_records::declared_fks(fks.subrange(3, 4))
    &&& favourite_beatmaps::declared_fks(fks.subrange(4, 5))
    &&& followers::declared_fks(fks.subrange(5, 7))
    &&& user_settings::declared_fks(fks.subrange(7, 8))
    &&& beatmap_ratings::declared_fks(fks.subrange(8, 10))
    &&& channel_users::declared_fks(fks.subrange(10, 12))
    &&& channel_privileges::declared_fks(fks.subrange(12, 14))
    &&& chat_messages::declared_fks(fks.subrange(14, 16))
    &&& scores::declared_fks(fks.subrange(16, 17))
    &&& scores_classic::declared_fks(fks.subrange(17, 18))
    &&& scores_generic::declared_fks(fks.subrange(18, 19))
    &&& leaderboard::declared_fks(fks.subrange(19, 22))
    &&& score_pp::declared_fks(fks.subrange(22, 23))
    &&& user_pp::declared_fks(fks.subrange(23, 24))
    &&& user_stats::declared_fks(fks.subrange(24, 25))
}

/// The declared secondary indexes, grouped by table in declared order,
/// each group as its own module states it: names, columns, and which of
/// them enforce uniqueness.
pub open spec fn declared_indexes(indexes: Seq<IndexDef>) -> bool {
    &&& indexes.len() == 18
    &&& users::declared_indexes(indexes.subrange(0, 3))
    &&& privileges::declared_indexes(indexes.subrange(3, 4))
    &&& user_privileges::declared_indexes(indexes.subrange(4, 5))
    &&& favourite_beatmaps::declared_indexes(indexes.subrange(5, 6))
    &&& followers::declared_indexes(indexes.subrange(6, 7))
    &&& beatmaps::declared_indexes(indexes.subrange(7, 11))
    &&& beatmap_ratings::declared_indexes(indexes.subrange(11, 12))
    &&& channels::declared_indexes(indexes.subrange(12, 13))
    &&& channel_users::declared_indexes(indexes.subrange(13, 14))
    &&& channel_privileges::declared_indexes(indexes.subrange(14, 15))
    &&& chat_messages::declared_indexes(indexes.subrange(15, 16))
    &&& scores::declared_indexes(indexes.subrange(16, 18))
    &&& scores_classic::declared_indexes(indexes.subrange(18, 18))
    &&& scores_generic::declared_indexes(indexes.subrange(18, 18))
    &&& leaderboard::declared_indexes(indexes.subrange(18, 18))
    &&& score_pp::declared_indexes(indexes.subrange(18, 18))
    &&& user_pp::declared_indexes(indexes.subrange(18, 18))
    &&& user_stats::declared_indexes(indexes.subrange(18, 18))
}

/// The whole declared catalog, content and all.
pub open spec fn declared_catalog(c: Catalog) -> bool {
    &&& declared_types(c.types@)
    &&& declared_tables(c.tables@)
    &&& declared_fks(c.fks@)
    &&& declared_indexes(c.indexes@)
}

/// Creates the enumerated-type objects, each carrying the textual
/// identifiers of its members in order.
pub fn enum_types() -> (v: Vec<EnumTypeDef>)
    ensures
        declared_types(v@),
{
    let mut v: Vec<EnumTypeDef> = Vec::new();
    let mut values: Vec<&'static str> = Vec::new();
    values.push("Graveyard");
    values.push("Wip");
    values.push("Pending");
    values.push("Ranked");
    values.push("Approved");
    values.push("Qualified");
    values.push("Loved");
    v.push(EnumTypeDef { name: "rank_status", values });
    let mut values: Vec<&'static str> = Vec::new();
    values.push("Standard");
    values.push("Taiko");
    values.push("Fruits");
    values.push("Mania");
    v.push(EnumTypeDef { name: "game_mode", values });
    let mut values: Vec<&'static str> = Vec::new();
    values.push("A");
    values.push("B");
    values.push("C");
    values.push("D");
    values.push("S");
    values.push("SH");
    values.push("X");
    values.push("XH");
    values.push("F");
    v.push(EnumTypeDef { name: "score_grade", values });
    let mut values: Vec<&'static str> = Vec::new();
    values.push("v1");
    values.push("v2");
    v.push(EnumTypeDef { name: "pp_version", values });
    let mut values: Vec<&'static str> = Vec::new();
    values.push("v1");
    values.push("v2");
    v.push(EnumTypeDef { name: "score_version", values });
    let mut values: Vec<&'static str> = Vec::new();
    values.push("score_v1");
    values.push("score_v2");
    values.push("pp_v1");
    values.push("pp_v2");
    v.push(EnumTypeDef { name: "ranking_type", values });
    let mut values: Vec<&'static str> = Vec::new();
    values.push("private");
    values.push("public");
    values.push("group");
    values.push("multiplayer");
    values.push("spectator");
    v.push(EnumTypeDef { name: "channel_type", values });
    let mut values: Vec<&'static str> = Vec::new();
    values.push("join");
    values.push("send_message");
    values.push("kick_user");
    values.push("mute_user");
    v.push(EnumTypeDef { name: "channel_handle_type", values });
    v
}

/// Creates the table definitions in declared order.
pub fn tables() -> (v: Vec<TableDef>)
    ensures
        declared_tables(v@),
        forall|i: int| 0 <= i < v@.len() ==> table_wf(#[trigger] v@[i], NUM_TYPES as int),
{
    let mut v: Vec<TableDef> = Vec::new();
    v.push(users::create());
    v.push(privileges::create());
    v.push(user_privileges::create());
    v.push(bancho_client_hardware_records::create());
    v.push(favourite_beatmaps::create());
    v.push(followers::create());
    v.push(user_settings::create());
    v.push(beatmaps::create());
    v.push(beatmap_ratings::create());
    v.push(channels::create());
    v.push(channel_users::create());
    v.push(channel_privileges::create());
    v.push(chat_messages::create());
    v.push(scores::create());
    v.push(scores_classic::create());
    v.push(scores_generic::create());
    v.push(leaderboard::create());
    v.push(score_pp::create());
    v.push(user_pp::create());
    v.push(user_stats::create());
    v
}

/// Creates the foreign-key edges, grouped by child table in declared
/// order.
pub fn foreign_keys() -> (v: Vec<ForeignKeyDef>)
    ensures
        declared_fks(v@),
{
    let mut v: Vec<ForeignKeyDef> = Vec::new();
    let mut part = user_privileges::create_foreign_keys();
    let ghost part0 = part@;
    v.append(&mut part);
    let mut part = bancho_client_hardware_records::create_foreign_keys();
    let ghost part1 = part@;
    v.append(&mut part);
    let mut part = favourite_beatmaps::create_foreign_keys();
    let ghost part2 = part@;
    v.append(&mut part);
    let mut part = followers::create_foreign_keys();
    let ghost part3 = part@;
    v.append(&mut part);
    let mut part = user_settings::create_foreign_keys();
    let ghost part4 = part@;
    v.append(&mut part);
    let mut part = beatmap_ratings::create_foreign_keys();
    let ghost part5 = part@;
    v.append(&mut part);
    let mut part = channel_users::create_foreign_keys();
    let ghost part6 = part@;
    v.append(&mut part);
    let mut part = channel_privileges::create_foreign_keys();
    let ghost part7 = part@;
    v.append(&mut part);
    let mut part = chat_messages::create_foreign_keys();
    let ghost part8 = part@;
    v.append(&mut part);
    let mut part = scores::create_foreign_keys();
    let ghost part9 = part@;
    v.append(&mut part);
    let mut part = scores_classic::create_foreign_keys();
    let ghost part10 = part@;
    v.append(&mut part);
    let mut part = scores_generic::create_foreign_keys();
    let ghost part11 = part@;
    v.append(&mut part);
    let mut part = leaderboard::create_foreign_keys();
    let ghost part12 = part@;
    v.append(&mut part);
    let mut part = score_pp::create_foreign_keys();
    let ghost part13 = part@;
    v.append(&mut part);
    let mut part = user_pp::create_foreign_keys();
    let ghost part14 = part@;
    v.append(&mut part);
    let mut part = user_stats::create_foreign_keys();
    let ghost part15 = part@;
    v.append(&mut part);
    proof {
        assert(v@.subrange(0, 3) =~= part0);
        assert(v@.subrange(3, 4) =~= part1);
        assert(v@.subrange(4, 5) =~= part2);
        assert(v@.subrange(5, 7) =~= part3);
        assert(v@.subrange(7, 8) =~= part4);
        assert(v@.subrange(8, 10) =~= part5);
        assert(v@.subrange(10, 12) =~= part6);
        assert(v@.subrange(12, 14) =~= part7);
        assert(v@.subrange(14, 16) =~= part8);
        assert(v@.subrange(16, 17) =~= part9);
        assert(v@.subrange(17, 18) =~= part10);
        assert(v@.subrange(18, 19) =~= part11);
        assert(v@.subrange(19, 22) =~= part12);
        assert(v@.subrange(22, 23) =~= part13);
        assert(v@.subrange(23, 24) =~= part14);
        assert(v@.subrange(24, 25) =~= part15);
    }
    v
}

/// Creates the secondary indexes, grouped by table in declared order.
pub fn indexes() -> (v: Vec<IndexDef>)
    ensures
        declared_indexes(v@),
{
    let mut v: Vec<IndexDef> = Vec::new();
    let mut part = users::create_indexes();
    let ghost part0 = part@;
    v.append(&mut part);
    let mut part = privileges::create_indexes();
    let ghost part1 = part@;
    v.append(&mut part);
    let mut part = user_privileges::create_indexes();
    let ghost part2 = part@;
    v.append(&mut part);
    let mut part = favourite_beatmaps::create_indexes();
    let ghost part3 = part@;
    v.append(&mut part);
    let mut part = followers::create_indexes();
    let ghost part4 = part@;
    v.append(&mut part);
    let mut part = beatmaps::create_indexes();
    let ghost part5 = part@;
    v.append(&mut part);
    let mut part = beatmap_ratings::create_indexes();
    let ghost part6 = part@;
    v.append(&mut part);
    let mut part = channels::create_indexes();
    let ghost part7 = part@;
    v.append(&mut part);
    let mut part = channel_users::create_indexes();
    let ghost part8 = part@;
    v.append(&mut part);
    let mut part = channel_privileges::create_indexes();
    let ghost part9 = part@;
    v.append(&mut part);
    let mut part = chat_messages::create_indexes();
    let ghost part10 = part@;
    v.append(&mut part);
    let mut part = scores::create_indexes();
    let ghost part11 = part@;
    v.append(&mut part);
    let mut part = scores_classic::create_indexes();
    let ghost part12 = part@;
    v.append(&mut part);
    let mut part = scores_generic::create_indexes();
    let ghost part13 = part@;
    v.append(&mut part);
    let mut part = leaderboard::create_indexes();
    let ghost part14 = part@;
    v.append(&mut part);
    let mut part = score_pp::create_indexes();
    let ghost part15 = part@;
    v.append(&mut part);
    let mut part = user_pp::create_indexes();
    let ghost part16 = part@;
    v.append(&mut part);
    let mut part = user_stats::create_indexes();
    let ghost part17 = part@;
    v.append(&mut part);
    proof {
        assert(v@.subrange(0, 3) =~= part0);
        assert(v@.subrange(3, 4) =~= part1);
        assert(v@.subrange(4, 5) =~= part2);
        assert(v@.subrange(5, 6) =~= part3);
        assert(v@.subrange(6, 7) =~= part4);
        assert(v@.subrange(7, 11) =~= part5);
        assert(v@.subrange(11, 12) =~= part6);
        assert(v@.subrange(12, 13) =~= part7);
        assert(v@.subrange(13, 14) =~= part8);
        assert(v@.subrange(14, 15) =~= part9);
        assert(v@.subrange(15, 16) =~= part10);
        assert(v@.subrange(16, 18) =~= part11);
        assert(v@.subrange(18, 18) =~= part12);
        assert(v@.subrange(18, 18) =~= part13);
        assert(v@.subrange(18, 18) =~= part14);
        assert(v@.subrange(18, 18) =~= part15);
        assert(v@.subrange(18, 18) =~= part16);
        assert(v@.subrange(18, 18) =~= part17);
    }
    v
}

/// Creates the whole catalog and establishes its well-formedness: every
/// foreign-key edge points from a later child table to an earlier parent
/// table whose referenced column identifies its row, and every index and
/// primary key stays within its table's columns.
pub fn catalog() -> (c: Catalog)
    ensures
        catalog_wf(c),
        declared_catalog(c),
{
    let types = enum_types();
    let tables = tables();
    let fks = foreign_keys();
    let indexes = indexes();
    let c = Catalog { types, tables, fks, indexes };
    proof {
        assert forall|i: int| 0 <= i < c.fks@.len() implies fk_wf(#[trigger] c.fks@[i], c.tables@) by {
        }
        assert forall|i: int| 0 <= i < c.indexes@.len() implies index_wf(#[trigger] c.indexes@[i], c.tables@) by {
        }
    }
    c
}

} // verus!
