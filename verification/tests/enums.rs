use peace_db::enums::{
    ChannelHandleType, ChannelType, GameMode, PpVersion, RankStatus, RankingType, ScoreGrade,
    ScoreKind, ScoreVersion,
};

#[test]
fn game_mode_round_trip() {
    for m in [GameMode::Standard, GameMode::Taiko, GameMode::Fruits, GameMode::Mania] {
        assert_eq!(GameMode::from_name(m.name()), Some(m));
    }
    assert_eq!(GameMode::from_name("standard"), None);
    assert_eq!(GameMode::from_name(""), None);
}

#[test]
fn game_mode_names() {
    assert_eq!(GameMode::Standard.name(), "Standard");
    assert_eq!(GameMode::Taiko.name(), "Taiko");
    assert_eq!(GameMode::Fruits.name(), "Fruits");
    assert_eq!(GameMode::Mania.name(), "Mania");
}

#[test]
fn score_grade_round_trip() {
    for g in [
        ScoreGrade::A,
        ScoreGrade::B,
        ScoreGrade::C,
        ScoreGrade::D,
        ScoreGrade::S,
        ScoreGrade::SH,
        ScoreGrade::X,
        ScoreGrade::XH,
        ScoreGrade::F,
    ] {
        assert_eq!(ScoreGrade::from_name(g.name()), Some(g));
    }
    assert_eq!(ScoreGrade::from_name("E"), None);
}

#[test]
fn rank_status_round_trip() {
    for s in [
        RankStatus::Graveyard,
        RankStatus::Wip,
        RankStatus::Pending,
        RankStatus::Ranked,
        RankStatus::Approved,
        RankStatus::Qualified,
        RankStatus::Loved,
    ] {
        assert_eq!(RankStatus::from_name(s.name()), Some(s));
    }
}

#[test]
fn rank_status_levels() {
    assert_eq!(RankStatus::Graveyard.level(), -2);
    assert_eq!(RankStatus::Wip.level(), -1);
    assert_eq!(RankStatus::Pending.level(), 0);
    assert_eq!(RankStatus::Ranked.level(), 1);
    assert_eq!(RankStatus::Approved.level(), 2);
    assert_eq!(RankStatus::Qualified.level(), 3);
    assert_eq!(RankStatus::Loved.level(), 4);
    assert!(RankStatus::Graveyard.is_unranked());
    assert!(RankStatus::Wip.is_unranked());
    assert!(!RankStatus::Pending.is_unranked());
    assert!(!RankStatus::Loved.is_unranked());
}

#[test]
fn pp_version_round_trip() {
    for v in [PpVersion::V1, PpVersion::V2] {
        assert_eq!(PpVersion::from_name(v.name()), Some(v));
    }
    assert_eq!(PpVersion::V1.name(), "v1");
    assert_eq!(PpVersion::V2.name(), "v2");
}

#[test]
fn score_version_round_trip() {
    for v in [ScoreVersion::V1, ScoreVersion::V2] {
        assert_eq!(ScoreVersion::from_name(v.name()), Some(v));
    }
}

#[test]
fn ranking_type_round_trip() {
    for v in [
        RankingType::ScoreV1,
        RankingType::ScoreV2,
        RankingType::PpV1,
        RankingType::PpV2,
    ] {
        assert_eq!(RankingType::from_name(v.name()), Some(v));
    }
    assert_eq!(RankingType::ScoreV1.name(), "score_v1");
    assert_eq!(RankingType::PpV2.name(), "pp_v2");
}

#[test]
fn channel_type_round_trip() {
    for v in [
        ChannelType::Private,
        ChannelType::Public,
        ChannelType::Group,
        ChannelType::Multiplayer,
        ChannelType::Spectator,
    ] {
        assert_eq!(ChannelType::from_name(v.name()), Some(v));
    }
}

#[test]
fn channel_handle_type_round_trip() {
    for v in [
        ChannelHandleType::Join,
        ChannelHandleType::SendMessage,
        ChannelHandleType::KickUser,
        ChannelHandleType::MuteUser,
    ] {
        assert_eq!(ChannelHandleType::from_name(v.name()), Some(v));
    }
    assert_eq!(ChannelHandleType::SendMessage.name(), "send_message");
}

#[test]
fn score_kind_round_trip() {
    for v in [ScoreKind::Classic, ScoreKind::Generic] {
        assert_eq!(ScoreKind::from_name(v.name()), Some(v));
    }
    assert_eq!(ScoreKind::Classic.name(), "classic");
    assert_eq!(ScoreKind::Generic.name(), "generic");
}
