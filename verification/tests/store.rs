use peace_db::backend::DbBackend;
use peace_db::catalog::{FOLLOWERS, LEADERBOARD, SCORES, SCORES_CLASSIC, SCORES_GENERIC, USERS, USER_STATS};
use peace_db::enums::{GameMode, PpVersion, RankingType, ScoreGrade, ScoreKind, ScoreVersion};
use peace_db::records::{
    open_store, set_leaderboard, submit_score, upsert_user_pp, upsert_user_stats, LeaderboardModel,
    ScoreClassicModel, ScoreGenericModel, ScoreModel, ScorePayload, UserPpModel, UserStatsModel,
};
use peace_db::schema::{value_eq, Value};
use peace_db::store::DataError;

fn user_row(id: i64, name: &str, email: &str) -> Vec<Value> {
    vec![
        Value::Int(id),
        Value::Text(name.to_string()),
        Value::Text(format!("{}_safe", name)),
        Value::Null,
        Value::Null,
        Value::Text("password_hash".to_string()),
        Value::Text(email.to_string()),
        Value::Null,
        Value::Int(0),
        Value::Int(0),
    ]
}

fn follower_row(user_id: i64, follow_id: i64) -> Vec<Value> {
    vec![
        Value::Int(user_id),
        Value::Int(follow_id),
        Value::Null,
        Value::Int(0),
    ]
}

fn score(id: i64, user_id: i32, cksm: &str) -> ScoreModel {
    ScoreModel {
        id,
        map_hash: "d41d8cd98f00b204e9800998ecf8427e".to_string(),
        user_id,
        cksm: cksm.to_string(),
        kind: ScoreKind::Classic,
        playtime: 95,
        completed: true,
        invisible: false,
        verified_at: None,
        created_at: 1,
        updated_at: 1,
    }
}

fn classic(id: i64, score: i32) -> ScoreClassicModel {
    ScoreClassicModel {
        id,
        mode: GameMode::Standard,
        score_version: ScoreVersion::V1,
        score,
        accuracy: 9876,
        combo: 321,
        mods: 0,
        n300: 200,
        n100: 10,
        n50: 2,
        miss: 1,
        geki: 50,
        katu: 5,
        perfect: false,
        grade: ScoreGrade::S,
        client_flags: 0,
        client_version: "b20200201".to_string(),
    }
}

#[test]
fn duplicate_primary_key_is_rejected() {
    let mut db = open_store(DbBackend::Postgres);
    assert_eq!(db.insert(USERS, user_row(1, "alice", "a@example.com")), Ok(()));
    assert_eq!(
        db.insert(USERS, user_row(1, "someone", "other@example.com")),
        Err(DataError::DuplicateKey)
    );
    assert_eq!(db.row_count(USERS), 1);
}

#[test]
fn duplicate_composite_key_is_rejected() {
    let mut db = open_store(DbBackend::Postgres);
    assert_eq!(db.insert(USERS, user_row(1, "alice", "a@example.com")), Ok(()));
    assert_eq!(db.insert(USERS, user_row(2, "bob", "b@example.com")), Ok(()));
    assert_eq!(db.insert(FOLLOWERS, follower_row(1, 2)), Ok(()));
    assert_eq!(
        db.insert(FOLLOWERS, follower_row(1, 2)),
        Err(DataError::DuplicateKey)
    );
    assert_eq!(db.insert(FOLLOWERS, follower_row(2, 1)), Ok(()));
    assert_eq!(db.row_count(FOLLOWERS), 2);
}

#[test]
fn duplicate_unique_column_is_rejected() {
    let mut db = open_store(DbBackend::Postgres);
    assert_eq!(db.insert(USERS, user_row(1, "alice", "a@example.com")), Ok(()));
    assert_eq!(
        db.insert(USERS, user_row(2, "bob", "a@example.com")),
        Err(DataError::DuplicateUnique)
    );
}

#[test]
fn wrong_arity_and_missing_table_are_rejected() {
    let mut db = open_store(DbBackend::Postgres);
    assert_eq!(
        db.insert(USERS, vec![Value::Int(1)]),
        Err(DataError::WrongArity)
    );
    assert_eq!(db.insert(999, vec![Value::Int(1)]), Err(DataError::NoSuchTable));
}

#[test]
fn missing_parent_is_rejected_on_enforcing_backend() {
    let mut db = open_store(DbBackend::Postgres);
    let s = score(100, 1, "abc");
    let c = classic(100, 987654);
    assert_eq!(
        submit_score(&mut db, &s, &ScorePayload::Classic(c)),
        Err(DataError::MissingParent)
    );
    assert_eq!(db.row_count(SCORES), 0);
    assert_eq!(db.row_count(SCORES_CLASSIC), 0);
}

#[test]
fn dangling_reference_is_accepted_without_enforced_foreign_keys() {
    // On a backend that forbids enforced foreign keys the creation stage is
    // skipped, so a score referencing a missing user id is stored without
    // any rejection: cascade behaviour must be emulated by the application.
    let mut db = open_store(DbBackend::Sqlite);
    let s = score(100, 1, "abc");
    let c = classic(100, 987654);
    assert_eq!(submit_score(&mut db, &s, &ScorePayload::Classic(c)), Ok(()));
    assert_eq!(db.row_count(SCORES), 1);
    assert_eq!(db.row_count(SCORES_CLASSIC), 1);
}

#[test]
fn duplicate_checksum_is_rejected() {
    let mut db = open_store(DbBackend::Postgres);
    assert_eq!(db.insert(USERS, user_row(1, "alice", "a@example.com")), Ok(()));
    let s1 = score(100, 1, "abc");
    let s2 = score(101, 1, "abc");
    assert_eq!(
        submit_score(&mut db, &s1, &ScorePayload::Classic(classic(100, 1))),
        Ok(())
    );
    assert_eq!(
        submit_score(&mut db, &s2, &ScorePayload::Classic(classic(101, 2))),
        Err(DataError::DuplicateUnique)
    );
    assert_eq!(db.row_count(SCORES), 1);
    assert_eq!(db.row_count(SCORES_CLASSIC), 1);
}

#[test]
fn classic_score_owns_exactly_one_classic_extension_row() {
    let mut db = open_store(DbBackend::Postgres);
    assert_eq!(db.insert(USERS, user_row(1, "alice", "a@example.com")), Ok(()));
    let s = score(100, 1, "abc");
    assert_eq!(
        submit_score(&mut db, &s, &ScorePayload::Classic(classic(100, 987654))),
        Ok(())
    );
    assert_eq!(db.row_count(SCORES), 1);
    assert_eq!(db.row_count(SCORES_CLASSIC), 1);
    assert_eq!(db.row_count(SCORES_GENERIC), 0);
    let key = vec![Value::Int(100)];
    let ext = db.get(SCORES_CLASSIC, &key).expect("extension row");
    assert!(value_eq(&ext[0], &Value::Int(100)));
    assert!(db.get(SCORES, &key).is_some());
    // the same id cannot enter the extension table twice
    let s2 = score(100, 1, "def");
    assert_eq!(
        submit_score(&mut db, &s2, &ScorePayload::Classic(classic(100, 1))),
        Err(DataError::DuplicateKey)
    );
    assert_eq!(db.row_count(SCORES), 1);
    assert_eq!(db.row_count(SCORES_CLASSIC), 1);
}

#[test]
fn leaderboard_slot_is_replaced_not_duplicated() {
    let mut db = open_store(DbBackend::Sqlite);
    let first = LeaderboardModel {
        beatmap_id: 7,
        mode: GameMode::Standard,
        ranking_type: RankingType::ScoreV1,
        user_id: 1,
        score_id: 100,
    };
    let second = LeaderboardModel { user_id: 2, score_id: 200, ..first.clone() };
    assert_eq!(set_leaderboard(&mut db, &first), Ok(()));
    assert_eq!(db.row_count(LEADERBOARD), 1);
    assert_eq!(set_leaderboard(&mut db, &second), Ok(()));
    assert_eq!(db.row_count(LEADERBOARD), 1);
    let key = vec![
        Value::Int(7),
        Value::Text("Standard".to_string()),
        Value::Text("score_v1".to_string()),
    ];
    let row = db.get(LEADERBOARD, &key).expect("slot row");
    assert!(value_eq(&row[3], &Value::Int(2)));
    assert!(value_eq(&row[4], &Value::Int(200)));
    // a different triple gets its own slot
    let other = LeaderboardModel { ranking_type: RankingType::PpV1, ..first };
    assert_eq!(set_leaderboard(&mut db, &other), Ok(()));
    assert_eq!(db.row_count(LEADERBOARD), 2);
}

#[test]
fn user_stats_upsert_replaces_per_mode_row() {
    let mut db = open_store(DbBackend::Sqlite);
    let stats = UserStatsModel {
        user_id: 1,
        mode: GameMode::Standard,
        total_score: 1000,
        ranked_score: 900,
        playcount: 3,
        total_hits: 213,
        accuracy: 9876,
        max_combo: 321,
        total_seconds_played: 300,
        count300: 200,
        count100: 10,
        count50: 2,
        count_miss: 1,
        count_failed: 0,
        count_quit: 0,
        updated_at: 1,
    };
    assert_eq!(upsert_user_stats(&mut db, &stats), Ok(()));
    let updated = UserStatsModel { playcount: 4, total_score: 2000, ..stats.clone() };
    assert_eq!(upsert_user_stats(&mut db, &updated), Ok(()));
    assert_eq!(db.row_count(USER_STATS), 1);
    let taiko = UserStatsModel { mode: GameMode::Taiko, ..stats };
    assert_eq!(upsert_user_stats(&mut db, &taiko), Ok(()));
    assert_eq!(db.row_count(USER_STATS), 2);
}

#[test]
fn user_pp_versions_coexist() {
    let mut db = open_store(DbBackend::Sqlite);
    let v1 = UserPpModel {
        user_id: 1,
        mode: GameMode::Standard,
        pp_version: PpVersion::V1,
        pp: 123456,
        raw_pp: None,
    };
    let v2 = UserPpModel { pp_version: PpVersion::V2, pp: 150000, ..v1.clone() };
    assert_eq!(upsert_user_pp(&mut db, &v1), Ok(()));
    assert_eq!(upsert_user_pp(&mut db, &v2), Ok(()));
    assert_eq!(db.row_count(peace_db::catalog::USER_PP), 2);
    // re-scoring under the same version replaces, never duplicates
    let v1b = UserPpModel { pp: 130000, ..v1 };
    assert_eq!(upsert_user_pp(&mut db, &v1b), Ok(()));
    assert_eq!(db.row_count(peace_db::catalog::USER_PP), 2);
}

#[test]
fn deleting_a_user_cascades_through_scores() {
    // Full-capability backend: insert User(1), Score(100) with its classic
    // extension, a leaderboard slot pointing at both, then delete the user
    // and watch every dependent row disappear.
    let mut db = open_store(DbBackend::Postgres);
    assert_eq!(db.insert(USERS, user_row(1, "alice", "a@example.com")), Ok(()));
    assert_eq!(db.insert(USERS, user_row(2, "bob", "b@example.com")), Ok(()));
    let s = score(100, 1, "abc");
    assert_eq!(
        submit_score(&mut db, &s, &ScorePayload::Classic(classic(100, 987654))),
        Ok(())
    );
    let other = score(200, 2, "xyz");
    assert_eq!(
        submit_score(&mut db, &other, &ScorePayload::Classic(classic(200, 1111))),
        Ok(())
    );
    assert_eq!(peace_db::records::delete_user(&mut db, 1), Ok(()));
    let key = vec![Value::Int(100)];
    assert!(db.get(SCORES, &key).is_none());
    assert!(db.get(SCORES_CLASSIC, &key).is_none());
    assert!(db.get(USERS, &vec![Value::Int(1)]).is_none());
    // unrelated rows survive
    assert!(db.get(USERS, &vec![Value::Int(2)]).is_some());
    assert!(db.get(SCORES, &vec![Value::Int(200)]).is_some());
    assert!(db.get(SCORES_CLASSIC, &vec![Value::Int(200)]).is_some());
    assert_eq!(peace_db::records::delete_user(&mut db, 1), Err(DataError::NotFound));
}

#[test]
fn delete_missing_key_reports_not_found() {
    let mut db = open_store(DbBackend::Postgres);
    assert_eq!(
        db.delete(USERS, &vec![Value::Int(42)]),
        Err(DataError::NotFound)
    );
    assert_eq!(db.delete(999, &vec![Value::Int(42)]), Err(DataError::NoSuchTable));
}

#[test]
fn defaults_fill_unspecified_cells() {
    let db = open_store(DbBackend::Postgres);
    // privileges: id, name, description, priority (default 1000),
    // creator_id, created_at (default: current timestamp)
    let given = vec![
        Some(Value::Int(1)),
        Some(Value::Text("admin".to_string())),
        None,
        None,
        None,
        None,
    ];
    let row = peace_db::store::complete_row(&db.tables[1], &given, 1700000000).unwrap();
    assert!(value_eq(&row[2], &Value::Null)); // nullable, no default
    assert!(value_eq(&row[3], &Value::Int(1000))); // declared default
    assert!(value_eq(&row[4], &Value::Null));
    assert!(value_eq(&row[5], &Value::Int(1700000000))); // current timestamp
}

#[test]
fn defaults_cannot_replace_required_values() {
    let db = open_store(DbBackend::Postgres);
    // users.name is not nullable and has no default
    let mut given: Vec<Option<Value>> = vec![None; 10];
    given[0] = Some(Value::Int(1));
    assert!(matches!(
        peace_db::store::complete_row(&db.tables[0], &given, 0),
        Err(DataError::MissingValue)
    ));
    assert!(matches!(
        peace_db::store::complete_row(&db.tables[0], &vec![None], 0),
        Err(DataError::WrongArity)
    ));
}

#[test]
fn beatmap_rank_status_defaults_to_pending() {
    let db = open_store(DbBackend::Postgres);
    // beatmaps: fill only the required metadata, leave rank_status out
    let tables = &db.tables;
    let beatmaps = &tables[7];
    let mut given: Vec<Option<Value>> = Vec::new();
    for col in &beatmaps.columns {
        let _ = col;
        given.push(None);
    }
    given[0] = Some(Value::Int(75)); // bid
    given[1] = Some(Value::Int(1)); // sid
    given[2] = Some(Value::Text("c".repeat(32))); // md5
    for i in 3..10 {
        given[i] = Some(Value::Text("x".to_string()));
    }
    given[11] = Some(Value::Text("Standard".to_string())); // game_mode
    for i in 12..20 {
        given[i] = Some(Value::Int(0)); // difficulty numbers
    }
    let row = peace_db::store::complete_row(beatmaps, &given, 9).unwrap();
    assert!(value_eq(&row[10], &Value::Text("Pending".to_string())));
    assert!(value_eq(&row[30], &Value::Bool(false))); // immutable
    assert!(value_eq(&row[31], &Value::Int(9))); // last_update timestamp
}

#[test]
fn generic_score_lives_in_the_generic_extension_table() {
    let mut db = open_store(DbBackend::Postgres);
    assert_eq!(db.insert(USERS, user_row(1, "alice", "a@example.com")), Ok(()));
    let s = ScoreModel {
        kind: ScoreKind::Generic,
        ..score(300, 1, "ghi")
    };
    let payload = ScorePayload::Generic(ScoreGenericModel {
        id: 300,
        score: 4242,
        json: "{\"taps\":97}".to_string(),
    });
    assert_eq!(submit_score(&mut db, &s, &payload), Ok(()));
    assert_eq!(db.row_count(SCORES), 1);
    assert_eq!(db.row_count(SCORES_GENERIC), 1);
    assert_eq!(db.row_count(SCORES_CLASSIC), 0);
    let key = vec![Value::Int(300)];
    let base = db.get(SCORES, &key).expect("base row");
    assert!(value_eq(&base[4], &Value::Text("generic".to_string())));
    let ext = db.get(SCORES_GENERIC, &key).expect("generic extension row");
    assert!(value_eq(&ext[1], &Value::Int(4242)));
}
