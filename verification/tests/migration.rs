use peace_db::backend::DbBackend;
use peace_db::migration::{Migration, MigrationStage, SchemaOp, SchemaState};

fn snapshot(s: &SchemaState) -> (Vec<bool>, Vec<bool>, Vec<bool>, Vec<bool>) {
    (
        s.types.clone(),
        s.tables.clone(),
        s.fks.clone(),
        s.indexes.clone(),
    )
}

#[test]
fn up_then_down_then_up_is_identical() {
    for backend in [DbBackend::Postgres, DbBackend::Mysql, DbBackend::Sqlite] {
        let m = Migration::new(backend);
        let mut state = SchemaState::new(&m.catalog);
        let empty = snapshot(&state);
        assert!(m.up(&mut state).is_ok());
        let first = snapshot(&state);
        assert!(m.down(&mut state).is_ok());
        assert_eq!(snapshot(&state), empty);
        assert!(m.up(&mut state).is_ok());
        assert_eq!(snapshot(&state), first);
    }
}

#[test]
fn up_creates_everything_on_postgres() {
    let m = Migration::new(DbBackend::Postgres);
    let mut state = SchemaState::new(&m.catalog);
    assert!(m.up(&mut state).is_ok());
    assert!(state.types.iter().all(|&b| b));
    assert!(state.tables.iter().all(|&b| b));
    assert!(state.fks.iter().all(|&b| b));
    assert!(state.indexes.iter().all(|&b| b));
}

#[test]
fn plan_sizes_follow_backend_capabilities() {
    let pg = Migration::new(DbBackend::Postgres);
    assert_eq!(pg.up_ops().len(), 8 + 20 + 25 + 18);
    assert_eq!(pg.down_ops().len(), 25 + 18 + 20 + 8);
    let my = Migration::new(DbBackend::Mysql);
    assert_eq!(my.up_ops().len(), 20 + 25 + 18);
    let sq = Migration::new(DbBackend::Sqlite);
    assert_eq!(sq.up_ops().len(), 20 + 18);
    assert_eq!(sq.down_ops().len(), 18 + 20);
}

#[test]
fn sqlite_up_plan_has_no_foreign_keys_or_types() {
    let m = Migration::new(DbBackend::Sqlite);
    for op in m.up_ops() {
        match op {
            SchemaOp::CreateForeignKey(_) => panic!("foreign-key statement on sqlite"),
            SchemaOp::CreateType(_) => panic!("enum-type statement on sqlite"),
            _ => {}
        }
    }
    let mut state = SchemaState::new(&m.catalog);
    assert!(m.up(&mut state).is_ok());
    assert!(state.tables.iter().all(|&b| b));
    assert!(state.indexes.iter().all(|&b| b));
    assert!(state.fks.iter().all(|&b| !b));
    assert!(state.types.iter().all(|&b| !b));
}

#[test]
fn up_runs_batches_in_dependency_order() {
    let m = Migration::new(DbBackend::Postgres);
    let ops = m.up_ops();
    assert_eq!(ops[0], SchemaOp::CreateType(0));
    assert_eq!(ops[7], SchemaOp::CreateType(7));
    assert_eq!(ops[8], SchemaOp::CreateTable(0));
    assert_eq!(ops[27], SchemaOp::CreateTable(19));
    assert_eq!(ops[28], SchemaOp::CreateForeignKey(0));
    assert_eq!(ops[52], SchemaOp::CreateForeignKey(24));
    assert_eq!(ops[53], SchemaOp::CreateIndex(0));
    assert_eq!(ops[70], SchemaOp::CreateIndex(17));
}

#[test]
fn down_mirrors_up_with_batches_reversed() {
    let m = Migration::new(DbBackend::Postgres);
    let ops = m.down_ops();
    assert_eq!(ops[0], SchemaOp::DropForeignKey(24));
    assert_eq!(ops[24], SchemaOp::DropForeignKey(0));
    assert_eq!(ops[25], SchemaOp::DropIndex(17));
    assert_eq!(ops[42], SchemaOp::DropIndex(0));
    assert_eq!(ops[43], SchemaOp::DropTable(19));
    assert_eq!(ops[62], SchemaOp::DropTable(0));
    assert_eq!(ops[63], SchemaOp::DropType(7));
    assert_eq!(ops[70], SchemaOp::DropType(0));
}

#[test]
fn second_up_fails_in_first_stage_with_object_name() {
    let m = Migration::new(DbBackend::Postgres);
    let mut state = SchemaState::new(&m.catalog);
    assert!(m.up(&mut state).is_ok());
    let ops = m.up_ops();
    let err = m.run_ops(&mut state, &ops).unwrap_err();
    assert_eq!(err.stage, MigrationStage::Types);
    assert_eq!(err.object, "rank_status");
}

#[test]
fn second_up_on_sqlite_skips_tables_and_fails_at_indexes() {
    // Table creation is guarded with an if-not-exists clause, so the
    // second run sails through the table batch and fails only at the
    // first unguarded index statement.
    let m = Migration::new(DbBackend::Sqlite);
    let mut state = SchemaState::new(&m.catalog);
    assert!(m.up(&mut state).is_ok());
    let ops = m.up_ops();
    let err = m.run_ops(&mut state, &ops).unwrap_err();
    assert_eq!(err.stage, MigrationStage::Indexes);
    assert_eq!(err.object, "IDX_users_name_safe");
    assert!(state.tables.iter().all(|&b| b));
}

#[test]
fn re_creating_an_existing_table_succeeds_and_changes_nothing() {
    let m = Migration::new(DbBackend::Sqlite);
    let mut state = SchemaState::new(&m.catalog);
    assert!(m.up(&mut state).is_ok());
    let before = snapshot(&state);
    assert!(m.apply_op(&mut state, SchemaOp::CreateTable(0)).is_ok());
    assert_eq!(snapshot(&state), before);
}

#[test]
fn dropping_a_table_with_live_foreign_keys_is_refused() {
    let m = Migration::new(DbBackend::Postgres);
    let mut state = SchemaState::new(&m.catalog);
    assert!(m.up(&mut state).is_ok());
    let err = m
        .apply_op(&mut state, SchemaOp::DropTable(0))
        .unwrap_err();
    assert_eq!(err.stage, MigrationStage::Tables);
    assert_eq!(err.object, "users");
}

#[test]
fn catalog_names_are_stable() {
    let m = Migration::new(DbBackend::Postgres);
    let c = &m.catalog;
    assert_eq!(c.tables.len(), 20);
    assert_eq!(c.tables[0].name, "users");
    assert_eq!(c.tables[7].name, "beatmaps");
    assert_eq!(c.tables[13].name, "scores");
    assert_eq!(c.tables[16].name, "leaderboard");
    assert_eq!(c.tables[19].name, "user_stats");
    assert_eq!(c.fks.len(), 25);
    assert_eq!(c.fks[0].name, "FK_user_priv_user_id");
    assert_eq!(c.fks[24].name, "FK_user_stats_user_id");
    assert_eq!(c.indexes.len(), 18);
    assert_eq!(c.indexes[0].name, "IDX_users_name_safe");
    assert_eq!(c.indexes[17].name, "IDX_scores_user_id");
    assert_eq!(c.types.len(), 8);
    assert_eq!(c.types[0].name, "rank_status");
    assert_eq!(c.types[1].name, "game_mode");
    assert_eq!(c.types[1].values, vec!["Standard", "Taiko", "Fruits", "Mania"]);
}

#[test]
fn foreign_keys_always_point_backwards() {
    let m = Migration::new(DbBackend::Postgres);
    for fk in &m.catalog.fks {
        assert!(fk.parent_table < fk.child_table, "{} breaks declaration order", fk.name);
    }
}

#[test]
fn unique_indexes_are_exactly_the_declared_unique_lookups() {
    // Uniqueness at the index level exists only for the user name
    // variants, email, the privilege name, the beatmap content hash and
    // the score checksum; every other index is a plain lookup aid.
    let m = Migration::new(DbBackend::Postgres);
    let unique: Vec<&str> = m
        .catalog
        .indexes
        .iter()
        .filter(|ix| ix.unique)
        .map(|ix| ix.name)
        .collect();
    assert_eq!(
        unique,
        vec![
            "IDX_users_name_safe",
            "IDX_users_name_unicode_safe",
            "IDX_users_email",
            "IDX_privileges_name",
            "IDX_beatmaps_md5",
            "IDX_scores_cksm",
        ]
    );
    let chat_idx = m
        .catalog
        .indexes
        .iter()
        .find(|ix| ix.name == "IDX_chat_msg_channel_id")
        .expect("chat-message channel index");
    assert!(!chat_idx.unique);
}
