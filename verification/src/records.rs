//! Typed records for the score subsystem's tables, and the verified write
//! path over the store.
//!
//! A score and its mode-specific payload form a tagged pair persisted as
//! two physical rows sharing one id: the base row's `kind` discriminator
//! names the extension table that owns the payload. The schema cannot
//! enforce "exactly one matching extension row" structurally, so the write
//! path inserts both rows as one atomic unit, and the consistency lemmas
//! show that this discipline, together with cascading deletes, keeps the
//! pairing intact.

use vstd::prelude::*;

use crate::catalog::{LEADERBOARD, NUM_TABLES, SCORES, SCORES_CLASSIC, SCORES_GENERIC, SCORE_PP, USERS, USER_PP, USER_STATS};
use crate::enums::{GameMode, PpVersion, RankingType, ScoreGrade, ScoreKind, ScoreVersion};
use crate::schema::{Val, Value, pk_of};
use crate::store::{
    DataError, Database, db_inv, db_rows, condemned, culled, culled_upto, delete_check, dup_pk,
    extension_check, insert_check, is_doomed, lemma_culled_upto_at, lemma_retained_culled,
    retained, table_rows_wf, upsert_check,
};

verus! {

/// One score row in its common shape, shared by every mode and version; the payload names which extension table completes it.
#[derive(Clone)]
pub struct ScoreModel {
    pub id: i64,
    pub map_hash: String,
    pub user_id: i32,
    pub cksm: String,
    pub kind: ScoreKind,
    pub playtime: i32,
    pub completed: bool,
    pub invisible: bool,
    pub verified_at: Option<i64>,
    pub created_at: i64,
    pub updated_at: i64,
}

impl ScoreModel {
    /// The row this record stores, cell by cell in column order.
    pub open spec fn row_spec(self) -> Seq<Val> {
        seq![
            Val::Int(self.id as int),
            Val::Text(self.map_hash@),
            Val::Int(self.user_id as int),
            Val::Text(self.cksm@),
            Val::Text(self.kind.name_spec()),
            Val::Int(self.playtime as int),
            Val::Bool(self.completed),
            Val::Bool(self.invisible),
            (match self.verified_at { Some(v) => Val::Int(v as int), None => Val::Null }),
            Val::Int(self.created_at as int),
            Val::Int(self.updated_at as int),
        ]
    }

    /// Builds the stored row for this record.
    pub fn to_row(&self) -> (r: Vec<Value>)
        ensures
            r.deep_view() == self.row_spec(),
    {
        let mut r: Vec<Value> = Vec::new();
        r.push(Value::Int(self.id));
        r.push(Value::Text(self.map_hash.clone()));
        r.push(Value::Int(self.user_id as i64));
        r.push(Value::Text(self.cksm.clone()));
        r.push(Value::Text(String::from_str(self.kind.name())));
        r.push(Value::Int(self.playtime as i64));
        r.push(Value::Bool(self.completed));
        r.push(Value::Bool(self.invisible));
        match self.verified_at {
            Some(v) => r.push(Value::Int(v)),
            None => r.push(Value::Null),
        }
        r.push(Value::Int(self.created_at));
        r.push(Value::Int(self.updated_at));
        assert(r.deep_view() =~= self.row_spec());
        r
    }
}

/// The classic-mode extension of a score, sharing its id. Accuracy is a scaled decimal: hundredths of a percent.
#[derive(Clone)]
pub struct ScoreClassicModel {
    pub id: i64,
    pub mode: GameMode,
    pub score_version: ScoreVersion,
    pub score: i32,
    pub accuracy: i64,
    pub combo: i32,
    pub mods: i32,
    pub n300: i32,
    pub n100: i32,
    pub n50: i32,
    pub miss: i32,
    pub geki: i32,
    pub katu: i32,
    pub perfect: bool,
    pub grade: ScoreGrade,
    pub client_flags: i32,
    pub client_version: String,
}

impl ScoreClassicModel {
    /// The row this record stores, cell by cell in column order.
    pub open spec fn row_spec(self) -> Seq<Val> {
        seq![
            Val::Int(self.id as int),
            Val::Text(self.mode.name_spec()),
            Val::Text(self.score_version.name_spec()),
            Val::Int(self.score as int),
            Val::Int(self.accuracy as int),
            Val::Int(self.combo as int),
            Val::Int(self.mods as int),
            Val::Int(self.n300 as int),
            Val::Int(self.n100 as int),
            Val::Int(self.n50 as int),
            Val::Int(self.miss as int),
            Val::Int(self.geki as int),
            Val::Int(self.katu as int),
            Val::Bool(self.perfect),
            Val::Text(self.grade.name_spec()),
            Val::Int(self.client_flags as int),
            Val::Text(self.client_version@),
        ]
    }

    /// Builds the stored row for this record.
    pub fn to_row(&self) -> (r: Vec<Value>)
        ensures
            r.deep_view() == self.row_spec(),
    {
        let mut r: Vec<Value> = Vec::new();
        r.push(Value::Int(self.id));
        r.push(Value::Text(String::from_str(self.mode.name())));
        r.push(Value::Text(String::from_str(self.score_version.name())));
        r.push(Value::Int(self.score as i64));
        r.push(Value::Int(self.accuracy));
        r.push(Value::Int(self.combo as i64));
        r.push(Value::Int(self.mods as i64));
        r.push(Value::Int(self.n300 as i64));
        r.push(Value::Int(self.n100 as i64));
        r.push(Value::Int(self.n50 as i64));
        r.push(Value::Int(self.miss as i64));
        r.push(Value::Int(self.geki as i64));
        r.push(Value::Int(self.katu as i64));
        r.push(Value::Bool(self.perfect));
        r.push(Value::Text(String::from_str(self.grade.name())));
        r.push(Value::Int(self.client_flags as i64));
        r.push(Value::Text(self.client_version.clone()));
        assert(r.deep_view() =~= self.row_spec());
        r
    }
}

/// The generic extension of a score: an opaque structured payload plus a redundant score value for fast comparison.
#[derive(Clone)]
pub struct ScoreGenericModel {
    pub id: i64,
    pub score: i32,
    pub json: String,
}

impl ScoreGenericModel {
    /// The row this record stores, cell by cell in column order.
    pub open spec fn row_spec(self) -> Seq<Val> {
        seq![
            Val::Int(self.id as int),
            Val::Int(self.score as int),
            Val::Text(self.json@),
        ]
    }

    /// Builds the stored row for this record.
    pub fn to_row(&self) -> (r: Vec<Value>)
        ensures
            r.deep_view() == self.row_spec(),
    {
        let mut r: Vec<Value> = Vec::new();
        r.push(Value::Int(self.id));
        r.push(Value::Int(self.score as i64));
        r.push(Value::Text(self.json.clone()));
        assert(r.deep_view() =~= self.row_spec());
        r
    }
}

/// The current holder of one leaderboard slot, keyed by (beatmap, mode, ranking type).
#[derive(Clone)]
pub struct LeaderboardModel {
    pub beatmap_id: i32,
    pub mode: GameMode,
    pub ranking_type: RankingType,
    pub user_id: i32,
    pub score_id: i64,
}

impl LeaderboardModel {
    /// The row this record stores, cell by cell in column order.
    pub open spec fn row_spec(self) -> Seq<Val> {
        seq![
            Val::Int(self.beatmap_id as int),
            Val::Text(self.mode.name_spec()),
            Val::Text(self.ranking_type.name_spec()),
            Val::Int(self.user_id as int),
            Val::Int(self.score_id as int),
        ]
    }

    /// Builds the stored row for this record.
    pub fn to_row(&self) -> (r: Vec<Value>)
        ensures
            r.deep_view() == self.row_spec(),
    {
        let mut r: Vec<Value> = Vec::new();
        r.push(Value::Int(self.beatmap_id as i64));
        r.push(Value::Text(String::from_str(self.mode.name())));
        r.push(Value::Text(String::from_str(self.ranking_type.name())));
        r.push(Value::Int(self.user_id as i64));
        r.push(Value::Int(self.score_id));
        assert(r.deep_view() =~= self.row_spec());
        r
    }
}

/// A derived performance rating of one score under one formula version. `pp` is a scaled decimal: hundredths of a point.
#[derive(Clone)]
pub struct ScorePpModel {
    pub score_id: i64,
    pub mode: GameMode,
    pub pp_version: PpVersion,
    pub pp: i64,
    pub raw_pp: Option<String>,
}

impl ScorePpModel {
    /// The row this record stores, cell by cell in column order.
    pub open spec fn row_spec(self) -> Seq<Val> {
        seq![
            Val::Int(self.score_id as int),
            Val::Text(self.mode.name_spec()),
            Val::Text(self.pp_version.name_spec()),
            Val::Int(self.pp as int),
            (match self.raw_pp { Some(s) => Val::Text(s@), None => Val::Null }),
        ]
    }

    /// Builds the stored row for this record.
    pub fn to_row(&self) -> (r: Vec<Value>)
        ensures
            r.deep_view() == self.row_spec(),
    {
        let mut r: Vec<Value> = Vec::new();
        r.push(Value::Int(self.score_id));
        r.push(Value::Text(String::from_str(self.mode.name())));
        r.push(Value::Text(String::from_str(self.pp_version.name())));
        r.push(Value::Int(self.pp));
        match &self.raw_pp {
            Some(s) => r.push(Value::Text(s.clone())),
            None => r.push(Value::Null),
        }
        assert(r.deep_view() =~= self.row_spec());
        r
    }
}

/// A derived performance rating of one user under one formula version.
#[derive(Clone)]
pub struct UserPpModel {
    pub user_id: i32,
    pub mode: GameMode,
    pub pp_version: PpVersion,
    pub pp: i64,
    pub raw_pp: Option<String>,
}

impl UserPpModel {
    /// The row this record stores, cell by cell in column order.
    pub open spec fn row_spec(self) -> Seq<Val> {
        seq![
            Val::Int(self.user_id as int),
            Val::Text(self.mode.name_spec()),
            Val::Text(self.pp_version.name_spec()),
            Val::Int(self.pp as int),
            (match self.raw_pp { Some(s) => Val::Text(s@), None => Val::Null }),
        ]
    }

    /// Builds the stored row for this record.
    pub fn to_row(&self) -> (r: Vec<Value>)
        ensures
            r.deep_view() == self.row_spec(),
    {
        let mut r: Vec<Value> = Vec::new();
        r.push(Value::Int(self.user_id as i64));
        r.push(Value::Text(String::from_str(self.mode.name())));
        r.push(Value::Text(String::from_str(self.pp_version.name())));
        r.push(Value::Int(self.pp));
        match &self.raw_pp {
            Some(s) => r.push(Value::Text(s.clone())),
            None => r.push(Value::Null),
        }
        assert(r.deep_view() =~= self.row_spec());
        r
    }
}

/// Aggregate counters of one user in one mode.
#[derive(Clone)]
pub struct UserStatsModel {
    pub user_id: i32,
    pub mode: GameMode,
    pub total_score: i64,
    pub ranked_score: i64,
    pub playcount: i32,
    pub total_hits: i32,
    pub accuracy: i64,
    pub max_combo: i32,
    pub total_seconds_played: i32,
    pub count300: i32,
    pub count100: i32,
    pub count50: i32,
    pub count_miss: i32,
    pub count_failed: i32,
    pub count_quit: i32,
    pub updated_at: i64,
}

impl UserStatsModel {
    /// The row this record stores, cell by cell in column order.
    pub open spec fn row_spec(self) -> Seq<Val> {
        seq![
            Val::Int(self.user_id as int),
            Val::Text(self.mode.name_spec()),
            Val::Int(self.total_score as int),
            Val::Int(self.ranked_score as int),
            Val::Int(self.playcount as int),
            Val::Int(self.total_hits as int),
            Val::Int(self.accuracy as int),
            Val::Int(self.max_combo as int),
            Val::Int(self.total_seconds_played as int),
            Val::Int(self.count300 as int),
            Val::Int(self.count100 as int),
            Val::Int(self.count50 as int),
            Val::Int(self.count_miss as int),
            Val::Int(self.count_failed as int),
            Val::Int(self.count_quit as int),
            Val::Int(self.updated_at as int),
        ]
    }

    /// Builds the stored row for this record.
    pub fn to_row(&self) -> (r: Vec<Value>)
        ensures
            r.deep_view() == self.row_spec(),
    {
        let mut r: Vec<Value> = Vec::new();
        r.push(Value::Int(self.user_id as i64));
        r.push(Value::Text(String::from_str(self.mode.name())));
        r.push(Value::Int(self.total_score));
        r.push(Value::Int(self.ranked_score));
        r.push(Value::Int(self.playcount as i64));
        r.push(Value::Int(self.total_hits as i64));
        r.push(Value::Int(self.accuracy));
        r.push(Value::Int(self.max_combo as i64));
        r.push(Value::Int(self.total_seconds_played as i64));
        r.push(Value::Int(self.count300 as i64));
        r.push(Value::Int(self.count100 as i64));
        r.push(Value::Int(self.count50 as i64));
        r.push(Value::Int(self.count_miss as i64));
        r.push(Value::Int(self.count_failed as i64));
        r.push(Value::Int(self.count_quit as i64));
        r.push(Value::Int(self.updated_at));
        assert(r.deep_view() =~= self.row_spec());
        r
    }
}
/// The mode-specific payload of a score: which extension table owns the
/// rest of the row, and its contents.
#[derive(Clone)]
pub enum ScorePayload {
    Classic(ScoreClassicModel),
    Generic(ScoreGenericModel),
}

impl ScorePayload {
    /// The discriminator the base row must carry for this payload.
    pub open spec fn kind_spec(self) -> ScoreKind {
        match self {
            ScorePayload::Classic(_) => ScoreKind::Classic,
            ScorePayload::Generic(_) => ScoreKind::Generic,
        }
    }

    /// The catalog position of the extension table that owns this payload.
    pub open spec fn table_spec(self) -> int {
        match self {
            ScorePayload::Classic(_) => SCORES_CLASSIC as int,
            ScorePayload::Generic(_) => SCORES_GENERIC as int,
        }
    }

    /// The extension row this payload stores.
    pub open spec fn row_spec(self) -> Seq<Val> {
        match self {
            ScorePayload::Classic(c) => c.row_spec(),
            ScorePayload::Generic(g) => g.row_spec(),
        }
    }
}

/// Whether a payload belongs to a base score row: the discriminator names
/// the payload's table and both rows share one id.
pub open spec fn payload_matches(s: ScoreModel, p: ScorePayload) -> bool {
    &&& s.kind == p.kind_spec()
    &&& (match p {
        ScorePayload::Classic(c) => c.id == s.id,
        ScorePayload::Generic(g) => g.id == s.id,
    })
}

/// Inserts a score and its mode-specific payload as one atomic unit: the
/// base row into the scores table and the extension row into the table
/// the discriminator names. Either both rows are stored, or the store is
/// left exactly as it was and the first failed check is reported.
pub fn submit_score(db: &mut Database, score: &ScoreModel, payload: &ScorePayload) -> (r: Result<
    (),
    DataError,
>)
    requires
        db_inv(*old(db)),
        old(db).tables@.len() == NUM_TABLES,
        payload_matches(*score, *payload),
    ensures
        db_inv(*final(db)),
        final(db).tables == old(db).tables,
        final(db).fks == old(db).fks,
        final(db).enforce_fk == old(db).enforce_fk,
        final(db).rows@.len() == old(db).rows@.len(),
        match r {
            Ok(()) => insert_check(*old(db), SCORES as int, score.row_spec()) is None
                && extension_check(
                *old(db),
                SCORES as int,
                score.row_spec(),
                payload.table_spec(),
                payload.row_spec(),
            ) is None && db_rows(*final(db)) == db_rows(*old(db)).update(
                SCORES as int,
                db_rows(*old(db))[SCORES as int].push(score.row_spec()),
            ).update(
                payload.table_spec(),
                db_rows(*old(db))[payload.table_spec()].push(payload.row_spec()),
            ),
            Err(e) => db_rows(*final(db)) == db_rows(*old(db)) && (if insert_check(
                *old(db),
                SCORES as int,
                score.row_spec(),
            ) is Some {
                Some(e) == insert_check(*old(db), SCORES as int, score.row_spec())
            } else {
                Some(e) == extension_check(
                    *old(db),
                    SCORES as int,
                    score.row_spec(),
                    payload.table_spec(),
                    payload.row_spec(),
                )
            }),
        },
{
    let base = score.to_row();
    match payload {
        ScorePayload::Classic(c) => db.insert_pair(SCORES, base, SCORES_CLASSIC, c.to_row()),
        ScorePayload::Generic(g) => db.insert_pair(SCORES, base, SCORES_GENERIC, g.to_row()),
    }
}

/// Writes the current holder of a leaderboard slot: at most one row per
/// (beatmap, mode, ranking type) triple ever exists, so a second write for
/// an existing triple replaces the row instead of adding one.
pub fn set_leaderboard(db: &mut Database, entry: &LeaderboardModel) -> (r: Result<(), DataError>)
    requires
        db_inv(*old(db)),
        old(db).tables@.len() == NUM_TABLES,
    ensures
        db_inv(*final(db)),
        final(db).tables == old(db).tables,
        final(db).fks == old(db).fks,
        final(db).enforce_fk == old(db).enforce_fk,
        match r {
            Ok(()) => upsert_check(*old(db), LEADERBOARD as int, entry.row_spec()) is None && (
            if dup_pk(
                old(db).tables@[LEADERBOARD as int],
                db_rows(*old(db))[LEADERBOARD as int],
                entry.row_spec(),
            ) {
                exists|i: int|
                    0 <= i < db_rows(*old(db))[LEADERBOARD as int].len() && pk_of(
                        old(db).tables@[LEADERBOARD as int],
                        #[trigger] db_rows(*old(db))[LEADERBOARD as int][i],
                    ) == pk_of(old(db).tables@[LEADERBOARD as int], entry.row_spec()) && db_rows(
                        *final(db),
                    ) == db_rows(*old(db)).update(
                        LEADERBOARD as int,
                        db_rows(*old(db))[LEADERBOARD as int].update(i, entry.row_spec()),
                    )
            } else {
                db_rows(*final(db)) == db_rows(*old(db)).update(
                    LEADERBOARD as int,
                    db_rows(*old(db))[LEADERBOARD as int].push(entry.row_spec()),
                )
            }),
            Err(e) => Some(e) == upsert_check(*old(db), LEADERBOARD as int, entry.row_spec())
                && *final(db) == *old(db),
        },
{
    db.upsert(LEADERBOARD, entry.to_row())
}

/// Writes a score's derived rating for one formula version, replacing any
/// previous value for the same (score, mode, version) key.
pub fn upsert_score_pp(db: &mut Database, row: &ScorePpModel) -> (r: Result<(), DataError>)
    requires
        db_inv(*old(db)),
        old(db).tables@.len() == NUM_TABLES,
    ensures
        db_inv(*final(db)),
        final(db).tables == old(db).tables,
        final(db).fks == old(db).fks,
        final(db).enforce_fk == old(db).enforce_fk,
        match r {
            Ok(()) => upsert_check(*old(db), SCORE_PP as int, row.row_spec()) is None && (
            if dup_pk(
                old(db).tables@[SCORE_PP as int],
                db_rows(*old(db))[SCORE_PP as int],
                row.row_spec(),
            ) {
                exists|i: int|
                    0 <= i < db_rows(*old(db))[SCORE_PP as int].len() && pk_of(
                        old(db).tables@[SCORE_PP as int],
                        #[trigger] db_rows(*old(db))[SCORE_PP as int][i],
                    ) == pk_of(old(db).tables@[SCORE_PP as int], row.row_spec()) && db_rows(
                        *final(db),
                    ) == db_rows(*old(db)).update(
                        SCORE_PP as int,
                        db_rows(*old(db))[SCORE_PP as int].update(i, row.row_spec()),
                    )
            } else {
                db_rows(*final(db)) == db_rows(*old(db)).update(
                    SCORE_PP as int,
                    db_rows(*old(db))[SCORE_PP as int].push(row.row_spec()),
                )
            }),
            Err(e) => Some(e) == upsert_check(*old(db), SCORE_PP as int, row.row_spec()) && *final(db)
                == *old(db),
        },
{
    db.upsert(SCORE_PP, row.to_row())
}

/// Writes a user's derived rating for one formula version, replacing any
/// previous value for the same (user, mode, version) key.
pub fn upsert_user_pp(db: &mut Database, row: &UserPpModel) -> (r: Result<(), DataError>)
    requires
        db_inv(*old(db)),
        old(db).tables@.len() == NUM_TABLES,
    ensures
        db_inv(*final(db)),
        final(db).tables == old(db).tables,
        final(db).fks == old(db).fks,
        final(db).enforce_fk == old(db).enforce_fk,
        match r {
            Ok(()) => upsert_check(*old(db), USER_PP as int, row.row_spec()) is None && (
            if dup_pk(
                old(db).tables@[USER_PP as int],
                db_rows(*old(db))[USER_PP as int],
                row.row_spec(),
            ) {
                exists|i: int|
                    0 <= i < db_rows(*old(db))[USER_PP as int].len() && pk_of(
                        old(db).tables@[USER_PP as int],
                        #[trigger] db_rows(*old(db))[USER_PP as int][i],
                    ) == pk_of(old(db).tables@[USER_PP as int], row.row_spec()) && db_rows(
                        *final(db),
                    ) == db_rows(*old(db)).update(
                        USER_PP as int,
                        db_rows(*old(db))[USER_PP as int].update(i, row.row_spec()),
                    )
            } else {
                db_rows(*final(db)) == db_rows(*old(db)).update(
                    USER_PP as int,
                    db_rows(*old(db))[USER_PP as int].push(row.row_spec()),
                )
            }),
            Err(e) => Some(e) == upsert_check(*old(db), USER_PP as int, row.row_spec()) && *final(db)
                == *old(db),
        },
{
    db.upsert(USER_PP, row.to_row())
}

/// Writes a user's aggregate counters for one mode, replacing any
/// previous row for the same (user, mode) key.
pub fn upsert_user_stats(db: &mut Database, row: &UserStatsModel) -> (r: Result<(), DataError>)
    requires
        db_inv(*old(db)),
        old(db).tables@.len() == NUM_TABLES,
    ensures
        db_inv(*final(db)),
        final(db).tables == old(db).tables,
        final(db).fks == old(db).fks,
        final(db).enforce_fk == old(db).enforce_fk,
        match r {
            Ok(()) => upsert_check(*old(db), USER_STATS as int, row.row_spec()) is None && (
            if dup_pk(
                old(db).tables@[USER_STATS as int],
                db_rows(*old(db))[USER_STATS as int],
                row.row_spec(),
            ) {
                exists|i: int|
                    0 <= i < db_rows(*old(db))[USER_STATS as int].len() && pk_of(
                        old(db).tables@[USER_STATS as int],
                        #[trigger] db_rows(*old(db))[USER_STATS as int][i],
                    ) == pk_of(old(db).tables@[USER_STATS as int], row.row_spec()) && db_rows(
                        *final(db),
                    ) == db_rows(*old(db)).update(
                        USER_STATS as int,
                        db_rows(*old(db))[USER_STATS as int].update(i, row.row_spec()),
                    )
            } else {
                db_rows(*final(db)) == db_rows(*old(db)).update(
                    USER_STATS as int,
                    db_rows(*old(db))[USER_STATS as int].push(row.row_spec()),
                )
            }),
            Err(e) => Some(e) == upsert_check(*old(db), USER_STATS as int, row.row_spec()) && *final(db)
                == *old(db),
        },
{
    db.upsert(USER_STATS, row.to_row())
}

/// Deletes a user by id and cascades: the user's privileges, settings,
/// followers, ratings, scores (with their extension rows), leaderboard
/// slots, ratings and statistics all go with the row.
pub fn delete_user(db: &mut Database, id: i32) -> (r: Result<(), DataError>)
    requires
        db_inv(*old(db)),
        old(db).tables@.len() == NUM_TABLES,
    ensures
        db_inv(*final(db)),
        final(db).tables == old(db).tables,
        final(db).fks == old(db).fks,
        final(db).enforce_fk == old(db).enforce_fk,
        match r {
            Ok(()) => delete_check(*old(db), USERS as int, seq![Val::Int(id as int)]) is None
                && forall|t2: int|
                    0 <= t2 < old(db).tables@.len() ==> #[trigger] db_rows(*final(db))[t2]
                        == retained(
                        *old(db),
                        USERS as int,
                        seq![Val::Int(id as int)],
                        t2,
                        db_rows(*old(db))[t2],
                    ),
            Err(e) => Some(e) == delete_check(*old(db), USERS as int, seq![Val::Int(id as int)])
                && *final(db) == *old(db),
        },
{
    let mut key: Vec<Value> = Vec::new();
    key.push(Value::Int(id as i64));
    assert(key.deep_view() =~= seq![Val::Int(id as int)]);
    db.delete(USERS, &key)
}

/// Whether some row of `rows` carries `idv` in its id column.
pub open spec fn has_id(rows: Seq<Seq<Val>>, idv: Val) -> bool {
    exists|j: int| 0 <= j < rows.len() && (#[trigger] rows[j])[0] == idv
}

/// Whether the scores table holds a row with the given id whose
/// discriminator names `k`.
pub open spec fn base_has_kind(scores: Seq<Seq<Val>>, idv: Val, k: ScoreKind) -> bool {
    exists|i: int|
        0 <= i < scores.len() && (#[trigger] scores[i])[0] == idv && scores[i][4] == Val::Text(
            k.name_spec(),
        )
}

/// The pairing invariant of the discriminated extension tables: every
/// score row with a classic discriminator has a classic extension row
/// sharing its id and no generic one (and symmetrically); every extension
/// row belongs to a score row whose discriminator names its table; and
/// score ids are integers. Together with the store invariant — extension
/// ids are primary keys, so at most one extension row per id exists —
/// this says each score owns exactly one extension row, in the table its
/// `kind` names.
pub open spec fn score_extensions_consistent(db: Database) -> bool {
    let scores = db_rows(db)[SCORES as int];
    let classic = db_rows(db)[SCORES_CLASSIC as int];
    let generic = db_rows(db)[SCORES_GENERIC as int];
    &&& forall|i: int| 0 <= i < scores.len() ==> ((#[trigger] scores[i])[0] is Int)
    &&& forall|i: int|
        0 <= i < scores.len() ==> ((#[trigger] scores[i])[4] == Val::Text(
            ScoreKind::Classic.name_spec(),
        ) ==> has_id(classic, scores[i][0]) && !has_id(generic, scores[i][0]))
    &&& forall|i: int|
        0 <= i < scores.len() ==> ((#[trigger] scores[i])[4] == Val::Text(
            ScoreKind::Generic.name_spec(),
        ) ==> has_id(generic, scores[i][0]) && !has_id(classic, scores[i][0]))
    &&& forall|j: int|
        0 <= j < classic.len() ==> base_has_kind(
            scores,
            (#[trigger] classic[j])[0],
            ScoreKind::Classic,
        )
    &&& forall|j: int|
        0 <= j < generic.len() ==> base_has_kind(
            scores,
            (#[trigger] generic[j])[0],
            ScoreKind::Generic,
        )
}

/// A store with no score rows at all trivially satisfies the pairing
/// invariant.
pub proof fn lemma_empty_store_consistent(db: Database)
    requires
        db.tables@.len() == NUM_TABLES,
        db_rows(db).len() == db.tables@.len(),
        db_rows(db)[SCORES as int].len() == 0,
        db_rows(db)[SCORES_CLASSIC as int].len() == 0,
        db_rows(db)[SCORES_GENERIC as int].len() == 0,
    ensures
        score_extensions_consistent(db),
{
}

/// Exactly one extension row: a score row whose discriminator names a
/// kind has one and only one row in that kind's extension table sharing
/// its id, and none in the other extension table.
pub proof fn lemma_exactly_one_extension(db: Database, i: int, k: ScoreKind)
    requires
        db_inv(db),
        db.tables@.len() == NUM_TABLES,
        db.tables@[SCORES_CLASSIC as int].pk@ == seq![0usize],
        db.tables@[SCORES_GENERIC as int].pk@ == seq![0usize],
        score_extensions_consistent(db),
        0 <= i < db_rows(db)[SCORES as int].len(),
        db_rows(db)[SCORES as int][i][4] == Val::Text(k.name_spec()),
    ensures
        ({
            let ext_t = if k is Classic {
                SCORES_CLASSIC as int
            } else {
                SCORES_GENERIC as int
            };
            let other_t = if k is Classic {
                SCORES_GENERIC as int
            } else {
                SCORES_CLASSIC as int
            };
            let idv = db_rows(db)[SCORES as int][i][0];
            let ext = db_rows(db)[ext_t];
            &&& has_id(ext, idv)
            &&& forall|j1: int, j2: int|
                0 <= j1 < ext.len() && 0 <= j2 < ext.len() && (#[trigger] ext[j1])[0] == idv && (
                #[trigger] ext[j2])[0] == idv ==> j1 == j2
            &&& !has_id(db_rows(db)[other_t], idv)
        }),
{
    let ext_t = if k is Classic {
        SCORES_CLASSIC as int
    } else {
        SCORES_GENERIC as int
    };
    let idv = db_rows(db)[SCORES as int][i][0];
    let ext = db_rows(db)[ext_t];
    let etd = db.tables@[ext_t];
    assert(table_rows_wf(etd, ext));
    assert forall|j1: int, j2: int|
        0 <= j1 < ext.len() && 0 <= j2 < ext.len() && (#[trigger] ext[j1])[0] == idv && (
        #[trigger] ext[j2])[0] == idv implies j1 == j2 by {
        if j1 != j2 {
            assert(pk_of(etd, ext[j1]) =~= seq![ext[j1][0]]);
            assert(pk_of(etd, ext[j2]) =~= seq![ext[j2][0]]);
            assert(pk_of(etd, ext[j1]) == pk_of(etd, ext[j2]));
            if j1 < j2 {
                assert(false);
            } else {
                assert(false);
            }
        }
    }
}

/// Submitting a score through the atomic write path preserves the pairing
/// invariant: the base row and its extension row enter together, under a
/// fresh id.
pub proof fn lemma_submit_preserves_consistency(
    o: Database,
    n: Database,
    s: ScoreModel,
    p: ScorePayload,
)
    requires
        db_inv(o),
        o.tables@.len() == NUM_TABLES,
        o.tables@[SCORES as int].pk@ == seq![0usize],
        score_extensions_consistent(o),
        payload_matches(s, p),
        insert_check(o, SCORES as int, s.row_spec()) is None,
        db_rows(n).len() == db_rows(o).len(),
        db_rows(n) == db_rows(o).update(
            SCORES as int,
            db_rows(o)[SCORES as int].push(s.row_spec()),
        ).update(p.table_spec(), db_rows(o)[p.table_spec()].push(p.row_spec())),
    ensures
        score_extensions_consistent(n),
{
    let base = s.row_spec();
    let idv = Val::Int(s.id as int);
    let oscores = db_rows(o)[SCORES as int];
    let oclassic = db_rows(o)[SCORES_CLASSIC as int];
    let ogeneric = db_rows(o)[SCORES_GENERIC as int];
    let nscores = db_rows(n)[SCORES as int];
    let nclassic = db_rows(n)[SCORES_CLASSIC as int];
    let ngeneric = db_rows(n)[SCORES_GENERIC as int];
    let td = o.tables@[SCORES as int];
    assert(nscores == oscores.push(base));
    assert(base[0] == idv);
    assert(!dup_pk(td, oscores, base));
    assert forall|i: int| 0 <= i < oscores.len() implies (#[trigger] oscores[i])[0] != idv by {
        if oscores[i][0] == idv {
            assert(pk_of(td, oscores[i]) =~= seq![oscores[i][0]]);
            assert(pk_of(td, base) =~= seq![base[0]]);
            assert(pk_of(td, oscores[i]) == pk_of(td, base));
        }
    }
    match p {
        ScorePayload::Classic(c) => {
            let ext = c.row_spec();
            assert(nclassic == oclassic.push(ext));
            assert(ngeneric == ogeneric);
            assert(ext[0] == idv);
            assert(base[4] == Val::Text(ScoreKind::Classic.name_spec()));
            assert(!has_id(ogeneric, idv)) by {
                if has_id(ogeneric, idv) {
                    let j = choose|j: int|
                        0 <= j < ogeneric.len() && (#[trigger] ogeneric[j])[0] == idv;
                    assert(base_has_kind(oscores, idv, ScoreKind::Generic));
                    let i = choose|i: int|
                        0 <= i < oscores.len() && (#[trigger] oscores[i])[0] == idv && oscores[i][4]
                            == Val::Text(ScoreKind::Generic.name_spec());
                }
            }
            assert forall|i: int| 0 <= i < nscores.len() implies ((#[trigger] nscores[i])[4]
                == Val::Text(ScoreKind::Classic.name_spec()) ==> has_id(nclassic, nscores[i][0])
                && !has_id(ngeneric, nscores[i][0])) by {
                if i < oscores.len() {
                    assert(nscores[i] == oscores[i]);
                    if oscores[i][4] == Val::Text(ScoreKind::Classic.name_spec()) {
                        let j = choose|j: int|
                            0 <= j < oclassic.len() && (#[trigger] oclassic[j])[0] == oscores[i][0];
                        assert(nclassic[j] == oclassic[j]);
                        assert(has_id(nclassic, nscores[i][0]));
                    }
                } else {
                    assert(nscores[i] == base);
                    assert(nclassic[nclassic.len() - 1] == ext);
                    assert(has_id(nclassic, idv));
                }
            }
            assert forall|i: int| 0 <= i < nscores.len() implies ((#[trigger] nscores[i])[4]
                == Val::Text(ScoreKind::Generic.name_spec()) ==> has_id(ngeneric, nscores[i][0])
                && !has_id(nclassic, nscores[i][0])) by {
                if i < oscores.len() {
                    assert(nscores[i] == oscores[i]);
                    if oscores[i][4] == Val::Text(ScoreKind::Generic.name_spec()) {
                        let j = choose|j: int|
                            0 <= j < ogeneric.len() && (#[trigger] ogeneric[j])[0] == oscores[i][0];
                        assert(ngeneric[j] == ogeneric[j]);
                        assert(has_id(ngeneric, nscores[i][0]));
                        assert(!has_id(nclassic, nscores[i][0])) by {
                            if has_id(nclassic, oscores[i][0]) {
                                let k = choose|k: int|
                                    0 <= k < nclassic.len() && (#[trigger] nclassic[k])[0]
                                        == oscores[i][0];
                                if k < oclassic.len() {
                                    assert(oclassic[k][0] == oscores[i][0]);
                                } else {
                                    assert(nclassic[k] == ext);
                                    assert(oscores[i][0] == idv);
                                }
                            }
                        }
                    }
                } else {
                    assert(nscores[i] == base);
                    assert(base[4] == Val::Text(ScoreKind::Classic.name_spec()));
                    assert(ScoreKind::Classic.name_spec() != ScoreKind::Generic.name_spec()) by {
                        reveal_strlit("classic");
                        reveal_strlit("generic");
                        assert("classic"@[0] == 'c');
                        assert("generic"@[0] == 'g');
                    }
                }
            }
            assert forall|j: int| 0 <= j < nclassic.len() implies base_has_kind(
                nscores,
                (#[trigger] nclassic[j])[0],
                ScoreKind::Classic,
            ) by {
                if j < oclassic.len() {
                    assert(nclassic[j] == oclassic[j]);
                    let i = choose|i: int|
                        0 <= i < oscores.len() && (#[trigger] oscores[i])[0] == oclassic[j][0]
                            && oscores[i][4] == Val::Text(ScoreKind::Classic.name_spec());
                    assert(nscores[i] == oscores[i]);
                } else {
                    assert(nclassic[j] == ext);
                    assert(nscores[nscores.len() - 1] == base);
                }
            }
            assert forall|j: int| 0 <= j < ngeneric.len() implies base_has_kind(
                nscores,
                (#[trigger] ngeneric[j])[0],
                ScoreKind::Generic,
            ) by {
                assert(ngeneric[j] == ogeneric[j]);
                let i = choose|i: int|
                    0 <= i < oscores.len() && (#[trigger] oscores[i])[0] == ogeneric[j][0]
                        && oscores[i][4] == Val::Text(ScoreKind::Generic.name_spec());
                assert(nscores[i] == oscores[i]);
            }
            assert forall|i: int| 0 <= i < nscores.len() implies ((#[trigger] nscores[i])[0] is Int) by {
                if i < oscores.len() {
                    assert(nscores[i] == oscores[i]);
                } else {
                    assert(nscores[i] == base);
                }
            }
        },
        ScorePayload::Generic(g) => {
            let ext = g.row_spec();
            assert(ngeneric == ogeneric.push(ext));
            assert(nclassic == oclassic);
            assert(ext[0] == idv);
            assert(base[4] == Val::Text(ScoreKind::Generic.name_spec()));
            assert(!has_id(oclassic, idv)) by {
                if has_id(oclassic, idv) {
                    let j = choose|j: int|
                        0 <= j < oclassic.len() && (#[trigger] oclassic[j])[0] == idv;
                    assert(base_has_kind(oscores, idv, ScoreKind::Classic));
                    let i = choose|i: int|
                        0 <= i < oscores.len() && (#[trigger] oscores[i])[0] == idv && oscores[i][4]
                            == Val::Text(ScoreKind::Classic.name_spec());
                }
            }
            assert forall|i: int| 0 <= i < nscores.len() implies ((#[trigger] nscores[i])[4]
                == Val::Text(ScoreKind::Generic.name_spec()) ==> has_id(ngeneric, nscores[i][0])
                && !has_id(nclassic, nscores[i][0])) by {
                if i < oscores.len() {
                    assert(nscores[i] == oscores[i]);
                    if oscores[i][4] == Val::Text(ScoreKind::Generic.name_spec()) {
                        let j = choose|j: int|
                            0 <= j < ogeneric.len() && (#[trigger] ogeneric[j])[0] == oscores[i][0];
                        assert(ngeneric[j] == ogeneric[j]);
                        assert(has_id(ngeneric, nscores[i][0]));
                    }
                } else {
                    assert(nscores[i] == base);
                    assert(ngeneric[ngeneric.len() - 1] == ext);
                    assert(has_id(ngeneric, idv));
                }
            }
            assert forall|i: int| 0 <= i < nscores.len() implies ((#[trigger] nscores[i])[4]
                == Val::Text(ScoreKind::Classic.name_spec()) ==> has_id(nclassic, nscores[i][0])
                && !has_id(ngeneric, nscores[i][0])) by {
                if i < oscores.len() {
                    assert(nscores[i] == oscores[i]);
                    if oscores[i][4] == Val::Text(ScoreKind::Classic.name_spec()) {
                        let j = choose|j: int|
                            0 <= j < oclassic.len() && (#[trigger] oclassic[j])[0] == oscores[i][0];
                        assert(nclassic[j] == oclassic[j]);
                        assert(has_id(nclassic, nscores[i][0]));
                        assert(!has_id(ngeneric, nscores[i][0])) by {
                            if has_id(ngeneric, oscores[i][0]) {
                                let k = choose|k: int|
                                    0 <= k < ngeneric.len() && (#[trigger] ngeneric[k])[0]
                                        == oscores[i][0];
                                if k < ogeneric.len() {
                                    assert(ogeneric[k][0] == oscores[i][0]);
                                } else {
                                    assert(ngeneric[k] == ext);
                                    assert(oscores[i][0] == idv);
                                }
                            }
                        }
                    }
                } else {
                    assert(nscores[i] == base);
                    assert(base[4] == Val::Text(ScoreKind::Generic.name_spec()));
                    assert(ScoreKind::Classic.name_spec() != ScoreKind::Generic.name_spec()) by {
                        reveal_strlit("classic");
                        reveal_strlit("generic");
                        assert("classic"@[0] == 'c');
                        assert("generic"@[0] == 'g');
                    }
                }
            }
            assert forall|j: int| 0 <= j < ngeneric.len() implies base_has_kind(
                nscores,
                (#[trigger] ngeneric[j])[0],
                ScoreKind::Generic,
            ) by {
                if j < ogeneric.len() {
                    assert(ngeneric[j] == ogeneric[j]);
                    let i = choose|i: int|
                        0 <= i < oscores.len() && (#[trigger] oscores[i])[0] == ogeneric[j][0]
                            && oscores[i][4] == Val::Text(ScoreKind::Generic.name_spec());
                    assert(nscores[i] == oscores[i]);
                } else {
                    assert(ngeneric[j] == ext);
                    assert(nscores[nscores.len() - 1] == base);
                }
            }
            assert forall|j: int| 0 <= j < nclassic.len() implies base_has_kind(
                nscores,
                (#[trigger] nclassic[j])[0],
                ScoreKind::Classic,
            ) by {
                assert(nclassic[j] == oclassic[j]);
                let i = choose|i: int|
                    0 <= i < oscores.len() && (#[trigger] oscores[i])[0] == oclassic[j][0]
                        && oscores[i][4] == Val::Text(ScoreKind::Classic.name_spec());
                assert(nscores[i] == oscores[i]);
            }
            assert forall|i: int| 0 <= i < nscores.len() implies ((#[trigger] nscores[i])[0] is Int) by {
                if i < oscores.len() {
                    assert(nscores[i] == oscores[i]);
                } else {
                    assert(nscores[i] == base);
                }
            }
        },
    }
}

/// The shape of the extension tables' edges: the classic and generic
/// extension tables each reference the scores table through their shared
/// id column, and through nothing else.
pub open spec fn extension_edges_shape(db: Database) -> bool {
    &&& forall|e: int|
        0 <= e < db.fks@.len() && (#[trigger] db.fks@[e]).child_table == SCORES_CLASSIC ==> (
        db.fks@[e].parent_table == SCORES && db.fks@[e].child_col == 0 && db.fks@[e].parent_col
            == 0)
    &&& forall|e: int|
        0 <= e < db.fks@.len() && (#[trigger] db.fks@[e]).child_table == SCORES_GENERIC ==> (
        db.fks@[e].parent_table == SCORES && db.fks@[e].child_col == 0 && db.fks@[e].parent_col
            == 0)
    &&& exists|e: int|
        0 <= e < db.fks@.len() && (#[trigger] db.fks@[e]).child_table == SCORES_CLASSIC
    &&& exists|e: int|
        0 <= e < db.fks@.len() && (#[trigger] db.fks@[e]).child_table == SCORES_GENERIC
}

/// Creates the empty store for the declared catalog, with the shape facts
/// the score write path relies on established once and for all.
pub fn open_store(backend: crate::backend::DbBackend) -> (db: Database)
    ensures
        db_inv(db),
        db.enforce_fk == backend.spec_supports_foreign_keys(),
        db.tables@.len() == NUM_TABLES,
        crate::catalog::declared_tables(db.tables@),
        crate::catalog::declared_fks(db.fks@),
        db.tables@[SCORES as int].pk@ == seq![0usize],
        db.tables@[SCORES_CLASSIC as int].pk@ == seq![0usize],
        db.tables@[SCORES_GENERIC as int].pk@ == seq![0usize],
        extension_edges_shape(db),
        forall|t: int| 0 <= t < db.tables@.len() ==> db_rows(db)[t].len() == 0,
        score_extensions_consistent(db),
{
    let db = Database::new(backend);
    proof {
        assert forall|e: int|
            0 <= e < db.fks@.len() && (#[trigger] db.fks@[e]).child_table == SCORES_CLASSIC implies (
        db.fks@[e].parent_table == SCORES && db.fks@[e].child_col == 0 && db.fks@[e].parent_col
            == 0) by {
            assert(e == 0 || e == 1 || e == 2 || e == 3 || e == 4 || e == 5 || e == 6 || e == 7
                || e == 8 || e == 9 || e == 10 || e == 11 || e == 12 || e == 13 || e == 14 || e
                == 15 || e == 16 || e == 17 || e == 18 || e == 19 || e == 20 || e == 21 || e == 22
                || e == 23 || e == 24);
        }
        assert forall|e: int|
            0 <= e < db.fks@.len() && (#[trigger] db.fks@[e]).child_table == SCORES_GENERIC implies (
        db.fks@[e].parent_table == SCORES && db.fks@[e].child_col == 0 && db.fks@[e].parent_col
            == 0) by {
            assert(e == 0 || e == 1 || e == 2 || e == 3 || e == 4 || e == 5 || e == 6 || e == 7
                || e == 8 || e == 9 || e == 10 || e == 11 || e == 12 || e == 13 || e == 14 || e
                == 15 || e == 16 || e == 17 || e == 18 || e == 19 || e == 20 || e == 21 || e == 22
                || e == 23 || e == 24);
        }
        assert(db.fks@[17].child_table == SCORES_CLASSIC);
        assert(db.fks@[18].child_table == SCORES_GENERIC);
        lemma_empty_store_consistent(db);
    }
    db
}

/// Cascading deletes preserve the pairing invariant, as long as the
/// delete does not target an extension table directly: a score and its
/// extension row leave together, because the extension row is condemned
/// exactly when its score row is.
pub proof fn lemma_delete_preserves_consistency(
    o: Database,
    n: Database,
    t0: int,
    key: Seq<Val>,
)
    requires
        db_inv(o),
        o.tables@.len() == NUM_TABLES,
        o.tables@[SCORES as int].pk@ == seq![0usize],
        extension_edges_shape(o),
        score_extensions_consistent(o),
        0 <= t0 < o.tables@.len(),
        t0 != SCORES_CLASSIC as int,
        t0 != SCORES_GENERIC as int,
        db_rows(n).len() == db_rows(o).len(),
        forall|t2: int|
            0 <= t2 < db_rows(o).len() ==> #[trigger] db_rows(n)[t2] == retained(
                o,
                t0,
                key,
                t2,
                db_rows(o)[t2],
            ),
    ensures
        score_extensions_consistent(n),
{
    let oscores = db_rows(o)[SCORES as int];
    let oclassic = db_rows(o)[SCORES_CLASSIC as int];
    let ogeneric = db_rows(o)[SCORES_GENERIC as int];
    let nscores = db_rows(n)[SCORES as int];
    let nclassic = db_rows(n)[SCORES_CLASSIC as int];
    let ngeneric = db_rows(n)[SCORES_GENERIC as int];
    let td = o.tables@[SCORES as int];
    lemma_retained_culled(o, t0, key, SCORES as int, oscores);
    lemma_retained_culled(o, t0, key, SCORES_CLASSIC as int, oclassic);
    lemma_retained_culled(o, t0, key, SCORES_GENERIC as int, ogeneric);
    lemma_culled_upto_at(o, t0, key, SCORES_CLASSIC as int);
    lemma_culled_upto_at(o, t0, key, SCORES_GENERIC as int);
    assert(table_rows_wf(td, oscores));

    // A surviving extension row's score row survives with it, and a
    // surviving score row keeps its extension row.
    assert forall|i: int| 0 <= i < nscores.len() implies ((#[trigger] nscores[i])[0] is Int) by {
        assert(oscores.contains(nscores[i]));
        let i0 = choose|i0: int| 0 <= i0 < oscores.len() && oscores[i0] == nscores[i];
    }
    assert forall|i: int, k: ScoreKind, ext_t: int|
        #![trigger nscores[i], k.name_spec(), db_rows(n)[ext_t]]
        0 <= i < nscores.len() && (ext_t == SCORES_CLASSIC as int || ext_t == SCORES_GENERIC as int)
            && nscores[i][4] == Val::Text(k.name_spec()) && has_id(
            db_rows(o)[ext_t],
            nscores[i][0],
        ) implies has_id(db_rows(n)[ext_t], nscores[i][0]) by {
        let row = nscores[i];
        assert(oscores.contains(row) && !condemned(o, t0, key, SCORES as int, row));
        let i0 = choose|i0: int| 0 <= i0 < oscores.len() && oscores[i0] == row;
        let oext = db_rows(o)[ext_t];
        let j = choose|j: int| 0 <= j < oext.len() && (#[trigger] oext[j])[0] == row[0];
        lemma_retained_culled(o, t0, key, ext_t, oext);
        lemma_culled_upto_at(o, t0, key, ext_t);
        if condemned(o, t0, key, ext_t, oext[j]) {
            assert(is_doomed(o, t0, key, ext_t, culled_upto(o, t0, key, ext_t), oext[j]));
            if ext_t == t0 && pk_of(o.tables@[ext_t], oext[j]) == key {
                assert(false);
            } else {
                let (e, q) = choose|e: int, q: int|
                    0 <= e < o.fks@.len() && (o.fks@[e].child_table as int) == ext_t && 0 <= (
                    o.fks@[e].parent_table as int) < culled_upto(o, t0, key, ext_t).len() && !(
                    oext[j][o.fks@[e].child_col as int] is Null) && 0 <= q < culled_upto(
                        o,
                        t0,
                        key,
                        ext_t,
                    )[o.fks@[e].parent_table as int].len() && (#[trigger] culled_upto(
                        o,
                        t0,
                        key,
                        ext_t,
                    )[o.fks@[e].parent_table as int][q])[o.fks@[e].parent_col as int]
                        == oext[j][o.fks@[e].child_col as int];
                assert(o.fks@[e].parent_table == SCORES && o.fks@[e].child_col == 0
                    && o.fks@[e].parent_col == 0);
                let cs = culled(o, t0, key, SCORES as int, oscores);
                assert(culled_upto(o, t0, key, ext_t)[SCORES as int] == cs);
                assert(cs[q][0] == oext[j][0]);
                assert(oscores.contains(cs[q]) && condemned(o, t0, key, SCORES as int, cs[q]));
                let iq = choose|iq: int| 0 <= iq < oscores.len() && oscores[iq] == cs[q];
                assert(oscores[iq][0] == row[0]);
                if iq != i0 {
                    assert(pk_of(td, oscores[iq]) =~= seq![oscores[iq][0]]);
                    assert(pk_of(td, oscores[i0]) =~= seq![oscores[i0][0]]);
                    assert(pk_of(td, oscores[iq]) == pk_of(td, oscores[i0]));
                    if iq < i0 {
                        assert(false);
                    } else {
                        assert(false);
                    }
                }
                assert(cs[q] == row);
                assert(false);
            }
        }
        assert(retained(o, t0, key, ext_t, oext).contains(oext[j]));
        let j2 = choose|j2: int|
            0 <= j2 < retained(o, t0, key, ext_t, oext).len() && retained(o, t0, key, ext_t, oext)[j2]
                == oext[j];
        assert(db_rows(n)[ext_t][j2][0] == row[0]);
    }
    assert forall|i: int| 0 <= i < nscores.len() implies ((#[trigger] nscores[i])[4] == Val::Text(
        ScoreKind::Classic.name_spec(),
    ) ==> has_id(nclassic, nscores[i][0]) && !has_id(ngeneric, nscores[i][0])) by {
        let row = nscores[i];
        assert(oscores.contains(row));
        let i0 = choose|i0: int| 0 <= i0 < oscores.len() && oscores[i0] == row;
        if row[4] == Val::Text(ScoreKind::Classic.name_spec()) {
            assert(has_id(oclassic, row[0]));
            assert(!has_id(ogeneric, row[0]));
            if has_id(ngeneric, row[0]) {
                let j = choose|j: int| 0 <= j < ngeneric.len() && (#[trigger] ngeneric[j])[0] == row[0];
                assert(ogeneric.contains(ngeneric[j]));
                let j0 = choose|j0: int| 0 <= j0 < ogeneric.len() && ogeneric[j0] == ngeneric[j];
            }
        }
    }
    assert forall|i: int| 0 <= i < nscores.len() implies ((#[trigger] nscores[i])[4] == Val::Text(
        ScoreKind::Generic.name_spec(),
    ) ==> has_id(ngeneric, nscores[i][0]) && !has_id(nclassic, nscores[i][0])) by {
        let row = nscores[i];
        assert(oscores.contains(row));
        let i0 = choose|i0: int| 0 <= i0 < oscores.len() && oscores[i0] == row;
        if row[4] == Val::Text(ScoreKind::Generic.name_spec()) {
            assert(has_id(ogeneric, row[0]));
            assert(!has_id(oclassic, row[0]));
            if has_id(nclassic, row[0]) {
                let j = choose|j: int| 0 <= j < nclassic.len() && (#[trigger] nclassic[j])[0] == row[0];
                assert(oclassic.contains(nclassic[j]));
                let j0 = choose|j0: int| 0 <= j0 < oclassic.len() && oclassic[j0] == nclassic[j];
            }
        }
    }
    assert forall|j: int, k: ScoreKind, ext_t: int|
        #![trigger db_rows(n)[ext_t][j], k.name_spec()]
        0 <= j < db_rows(n)[ext_t].len() && (ext_t == SCORES_CLASSIC as int || ext_t
            == SCORES_GENERIC as int) && base_has_kind(
            oscores,
            db_rows(n)[ext_t][j][0],
            k,
        ) implies base_has_kind(nscores, db_rows(n)[ext_t][j][0], k) by {
        let oext = db_rows(o)[ext_t];
        lemma_retained_culled(o, t0, key, ext_t, oext);
        lemma_culled_upto_at(o, t0, key, ext_t);
        let row = db_rows(n)[ext_t][j];
        assert(oext.contains(row) && !condemned(o, t0, key, ext_t, row));
        let j0 = choose|j0: int| 0 <= j0 < oext.len() && oext[j0] == row;
        let i = choose|i: int|
            0 <= i < oscores.len() && (#[trigger] oscores[i])[0] == row[0] && oscores[i][4]
                == Val::Text(k.name_spec());
        if condemned(o, t0, key, SCORES as int, oscores[i]) {
            let cs = culled(o, t0, key, SCORES as int, oscores);
            assert(cs.contains(oscores[i]));
            let q = choose|q: int| 0 <= q < cs.len() && cs[q] == oscores[i];
            assert(culled_upto(o, t0, key, ext_t)[SCORES as int] == cs);
            let e0 = choose|e0: int|
                0 <= e0 < o.fks@.len() && (#[trigger] o.fks@[e0]).child_table == ext_t;
            assert(o.fks@[e0].parent_table == SCORES && o.fks@[e0].child_col == 0
                && o.fks@[e0].parent_col == 0);
            assert(oscores[i][0] is Int);
            assert(row[0] == oscores[i][0]);
            assert(!(row[o.fks@[e0].child_col as int] is Null));
            assert(culled_upto(o, t0, key, ext_t)[o.fks@[e0].parent_table as int][q][o.fks@[e0].parent_col as int]
                == row[o.fks@[e0].child_col as int]);
            assert(culled_upto(o, t0, key, ext_t).len() == ext_t);
            assert(is_doomed(o, t0, key, ext_t, culled_upto(o, t0, key, ext_t), row));
            assert(false);
        }
        assert(retained(o, t0, key, SCORES as int, oscores).contains(oscores[i]));
        let i2 = choose|i2: int|
            0 <= i2 < nscores.len() && retained(o, t0, key, SCORES as int, oscores)[i2]
                == oscores[i];
        assert(nscores[i2][0] == row[0] && nscores[i2][4] == Val::Text(k.name_spec()));
    }
    assert forall|j: int| 0 <= j < nclassic.len() implies base_has_kind(
        nscores,
        (#[trigger] nclassic[j])[0],
        ScoreKind::Classic,
    ) by {
        assert(oclassic.contains(nclassic[j]));
        let j0 = choose|j0: int| 0 <= j0 < oclassic.len() && oclassic[j0] == nclassic[j];
        assert(base_has_kind(oscores, nclassic[j][0], ScoreKind::Classic));
    }
    assert forall|j: int| 0 <= j < ngeneric.len() implies base_has_kind(
        nscores,
        (#[trigger] ngeneric[j])[0],
        ScoreKind::Generic,
    ) by {
        assert(ogeneric.contains(ngeneric[j]));
        let j0 = choose|j0: int| 0 <= j0 < ogeneric.len() && ogeneric[j0] == ngeneric[j];
        assert(base_has_kind(oscores, ngeneric[j][0], ScoreKind::Generic));
    }
}

} // verus!
