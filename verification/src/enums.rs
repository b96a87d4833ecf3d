//! Domain enumerations and their stable textual identifiers.
//!
//! Every enumeration is persisted on disk through its textual identifier,
//! never its ordinal, so reordering or appending values cannot corrupt
//! stored rows. `name` writes a value out and `from_name` reads one back;
//! the round-trip lemmas state that reading back a written identifier
//! always yields the original member, on every backend.

use vstd::prelude::*;

verus! {

/// Game mode of a beatmap or score.
#[derive(Clone, Copy, PartialEq, Eq, Structural, Debug)]
pub enum GameMode {
    Standard,
    Taiko,
    Fruits,
    Mania,
}

/// The member of [`GameMode`] whose textual identifier is `s`, if any.
pub open spec fn game_mode_of_name(s: Seq<char>) -> Option<GameMode> {
    if s == "Standard"@ {
        Some(GameMode::Standard)
    } else if s == "Taiko"@ {
        Some(GameMode::Taiko)
    } else if s == "Fruits"@ {
        Some(GameMode::Fruits)
    } else if s == "Mania"@ {
        Some(GameMode::Mania)
    } else {
        None
    }
}

impl GameMode {
    /// The stable textual identifier persisted on disk for this value.
    pub open spec fn name_spec(self) -> Seq<char> {
        match self {
            GameMode::Standard => "Standard"@,
            GameMode::Taiko => "Taiko"@,
            GameMode::Fruits => "Fruits"@,
            GameMode::Mania => "Mania"@,
        }
    }

    /// Writes the value out as its textual identifier.
    pub fn name(self) -> (r: &'static str)
        ensures
            r@ == self.name_spec(),
    {
        match self {
            GameMode::Standard => "Standard",
            GameMode::Taiko => "Taiko",
            GameMode::Fruits => "Fruits",
            GameMode::Mania => "Mania",
        }
    }

    /// Reads a value back from its textual identifier.
    pub fn from_name(s: &str) -> (r: Option<GameMode>)
        ensures
            r == game_mode_of_name(s@),
    {
        let t = String::from_str(s);
        if t == String::from_str("Standard") {
            Some(GameMode::Standard)
        } else if t == String::from_str("Taiko") {
            Some(GameMode::Taiko)
        } else if t == String::from_str("Fruits") {
            Some(GameMode::Fruits)
        } else if t == String::from_str("Mania") {
            Some(GameMode::Mania)
        } else {
            None
        }
    }
}

/// Writing a value via its textual identifier and reading it back
/// yields the original member.
pub proof fn lemma_game_mode_round_trip(v: GameMode)
    ensures
        game_mode_of_name(v.name_spec()) == Some(v),
{
    reveal_strlit("Standard");
    reveal_strlit("Taiko");
    reveal_strlit("Fruits");
    reveal_strlit("Mania");
    assert("Standard"@.len() == 8);
    assert("Taiko"@.len() == 5);
    assert("Fruits"@.len() == 6);
    assert("Mania"@.len() == 5);
    assert("Taiko"@[0] == 'T');
    assert("Mania"@[0] == 'M');
}

/// A successfully parsed identifier is the one the member writes out.
pub proof fn lemma_game_mode_parse_sound(s: Seq<char>, v: GameMode)
    requires
        game_mode_of_name(s) == Some(v),
    ensures
        v.name_spec() == s,
{
}

/// Letter grade awarded to a classic score.
#[derive(Clone, Copy, PartialEq, Eq, Structural, Debug)]
pub enum ScoreGrade {
    A,
    B,
    C,
    D,
    S,
    SH,
    X,
    XH,
    F,
}

/// The member of [`ScoreGrade`] whose textual identifier is `s`, if any.
pub open spec fn score_grade_of_name(s: Seq<char>) -> Option<ScoreGrade> {
    if s == "A"@ {
        Some(ScoreGrade::A)
    } else if s == "B"@ {
        Some(ScoreGrade::B)
    } else if s == "C"@ {
        Some(ScoreGrade::C)
    } else if s == "D"@ {
        Some(ScoreGrade::D)
    } else if s == "S"@ {
        Some(ScoreGrade::S)
    } else if s == "SH"@ {
        Some(ScoreGrade::SH)
    } else if s == "X"@ {
        Some(ScoreGrade::X)
    } else if s == "XH"@ {
        Some(ScoreGrade::XH)
    } else if s == "F"@ {
        Some(ScoreGrade::F)
    } else {
        None
    }
}

impl ScoreGrade {
    /// The stable textual identifier persisted on disk for this value.
    pub open spec fn name_spec(self) -> Seq<char> {
        match self {
            ScoreGrade::A => "A"@,
            ScoreGrade::B => "B"@,
            ScoreGrade::C => "C"@,
            ScoreGrade::D => "D"@,
            ScoreGrade::S => "S"@,
            ScoreGrade::SH => "SH"@,
            ScoreGrade::X => "X"@,
            ScoreGrade::XH => "XH"@,
            ScoreGrade::F => "F"@,
        }
    }

    /// Writes the value out as its textual identifier.
    pub fn name(self) -> (r: &'static str)
        ensures
            r@ == self.name_spec(),
    {
        match self {
            ScoreGrade::A => "A",
            ScoreGrade::B => "B",
            ScoreGrade::C => "C",
            ScoreGrade::D => "D",
            ScoreGrade::S => "S",
            ScoreGrade::SH => "SH",
            ScoreGrade::X => "X",
            ScoreGrade::XH => "XH",
            ScoreGrade::F => "F",
        }
    }

    /// Reads a value back from its textual identifier.
    pub fn from_name(s: &str) -> (r: Option<ScoreGrade>)
        ensures
            r == score_grade_of_name(s@),
    {
        let t = String::from_str(s);
        if t == String::from_str("A") {
            Some(ScoreGrade::A)
        } else if t == String::from_str("B") {
            Some(ScoreGrade::B)
        } else if t == String::from_str("C") {
            Some(ScoreGrade::C)
        } else if t == String::from_str("D") {
            Some(ScoreGrade::D)
        } else if t == String::from_str("S") {
            Some(ScoreGrade::S)
        } else if t == String::from_str("SH") {
            Some(ScoreGrade::SH)
        } else if t == String::from_str("X") {
            Some(ScoreGrade::X)
        } else if t == String::from_str("XH") {
            Some(ScoreGrade::XH)
        } else if t == String::from_str("F") {
            Some(ScoreGrade::F)
        } else {
            None
        }
    }
}

/// Writing a value via its textual identifier and reading it back
/// yields the original member.
pub proof fn lemma_score_grade_round_trip(v: ScoreGrade)
    ensures
        score_grade_of_name(v.name_spec()) == Some(v),
{
    reveal_strlit("A");
    reveal_strlit("B");
    reveal_strlit("C");
    reveal_strlit("D");
    reveal_strlit("S");
    reveal_strlit("SH");
    reveal_strlit("X");
    reveal_strlit("XH");
    reveal_strlit("F");
    assert("A"@.len() == 1);
    assert("B"@.len() == 1);
    assert("C"@.len() == 1);
    assert("D"@.len() == 1);
    assert("S"@.len() == 1);
    assert("SH"@.len() == 2);
    assert("X"@.len() == 1);
    assert("XH"@.len() == 2);
    assert("F"@.len() == 1);
    assert("A"@[0] == 'A');
    assert("B"@[0] == 'B');
    assert("C"@[0] == 'C');
    assert("D"@[0] == 'D');
    assert("S"@[0] == 'S');
    assert("X"@[0] == 'X');
    assert("F"@[0] == 'F');
    assert("SH"@[0] == 'S');
    assert("XH"@[0] == 'X');
}

/// A successfully parsed identifier is the one the member writes out.
pub proof fn lemma_score_grade_parse_sound(s: Seq<char>, v: ScoreGrade)
    requires
        score_grade_of_name(s) == Some(v),
    ensures
        v.name_spec() == s,
{
}

/// Ranking state of a beatmap.
#[derive(Clone, Copy, PartialEq, Eq, Structural, Debug)]
pub enum RankStatus {
    Graveyard,
    Wip,
    Pending,
    Ranked,
    Approved,
    Qualified,
    Loved,
}

/// The member of [`RankStatus`] whose textual identifier is `s`, if any.
pub open spec fn rank_status_of_name(s: Seq<char>) -> Option<RankStatus> {
    if s == "Graveyard"@ {
        Some(RankStatus::Graveyard)
    } else if s == "Wip"@ {
        Some(RankStatus::Wip)
    } else if s == "Pending"@ {
        Some(RankStatus::Pending)
    } else if s == "Ranked"@ {
        Some(RankStatus::Ranked)
    } else if s == "Approved"@ {
        Some(RankStatus::Approved)
    } else if s == "Qualified"@ {
        Some(RankStatus::Qualified)
    } else if s == "Loved"@ {
        Some(RankStatus::Loved)
    } else {
        None
    }
}

impl RankStatus {
    /// The stable textual identifier persisted on disk for this value.
    pub open spec fn name_spec(self) -> Seq<char> {
        match self {
            RankStatus::Graveyard => "Graveyard"@,
            RankStatus::Wip => "Wip"@,
            RankStatus::Pending => "Pending"@,
            RankStatus::Ranked => "Ranked"@,
            RankStatus::Approved => "Approved"@,
            RankStatus::Qualified => "Qualified"@,
            RankStatus::Loved => "Loved"@,
        }
    }

    /// Writes the value out as its textual identifier.
    pub fn name(self) -> (r: &'static str)
        ensures
            r@ == self.name_spec(),
    {
        match self {
            RankStatus::Graveyard => "Graveyard",
            RankStatus::Wip => "Wip",
            RankStatus::Pending => "Pending",
            RankStatus::Ranked => "Ranked",
            RankStatus::Approved => "Approved",
            RankStatus::Qualified => "Qualified",
            RankStatus::Loved => "Loved",
        }
    }

    /// Reads a value back from its textual identifier.
    pub fn from_name(s: &str) -> (r: Option<RankStatus>)
        ensures
            r == rank_status_of_name(s@),
    {
        let t = String::from_str(s);
        if t == String::from_str("Graveyard") {
            Some(RankStatus::Graveyard)
        } else if t == String::from_str("Wip") {
            Some(RankStatus::Wip)
        } else if t == String::from_str("Pending") {
            Some(RankStatus::Pending)
        } else if t == String::from_str("Ranked") {
            Some(RankStatus::Ranked)
        } else if t == String::from_str("Approved") {
            Some(RankStatus::Approved)
        } else if t == String::from_str("Qualified") {
            Some(RankStatus::Qualified)
        } else if t == String::from_str("Loved") {
            Some(RankStatus::Loved)
        } else {
            None
        }
    }
}

/// Writing a value via its textual identifier and reading it back
/// yields the original member.
pub proof fn lemma_rank_status_round_trip(v: RankStatus)
    ensures
        rank_status_of_name(v.name_spec()) == Some(v),
{
    reveal_strlit("Graveyard");
    reveal_strlit("Wip");
    reveal_strlit("Pending");
    reveal_strlit("Ranked");
    reveal_strlit("Approved");
    reveal_strlit("Qualified");
    reveal_strlit("Loved");
    assert("Graveyard"@.len() == 9);
    assert("Wip"@.len() == 3);
    assert("Pending"@.len() == 7);
    assert("Ranked"@.len() == 6);
    assert("Approved"@.len() == 8);
    assert("Qualified"@.len() == 9);
    assert("Loved"@.len() == 5);
    assert("Graveyard"@[0] == 'G');
    assert("Qualified"@[0] == 'Q');
}

/// A successfully parsed identifier is the one the member writes out.
pub proof fn lemma_rank_status_parse_sound(s: Seq<char>, v: RankStatus)
    requires
        rank_status_of_name(s) == Some(v),
    ensures
        v.name_spec() == s,
{
}

/// Version of the performance-points formula.
#[derive(Clone, Copy, PartialEq, Eq, Structural, Debug)]
pub enum PpVersion {
    V1,
    V2,
}

/// The member of [`PpVersion`] whose textual identifier is `s`, if any.
pub open spec fn pp_version_of_name(s: Seq<char>) -> Option<PpVersion> {
    if s == "v1"@ {
        Some(PpVersion::V1)
    } else if s == "v2"@ {
        Some(PpVersion::V2)
    } else {
        None
    }
}

impl PpVersion {
    /// The stable textual identifier persisted on disk for this value.
    pub open spec fn name_spec(self) -> Seq<char> {
        match self {
            PpVersion::V1 => "v1"@,
            PpVersion::V2 => "v2"@,
        }
    }

    /// Writes the value out as its textual identifier.
    pub fn name(self) -> (r: &'static str)
        ensures
            r@ == self.name_spec(),
    {
        match self {
            PpVersion::V1 => "v1",
            PpVersion::V2 => "v2",
        }
    }

    /// Reads a value back from its textual identifier.
    pub fn from_name(s: &str) -> (r: Option<PpVersion>)
        ensures
            r == pp_version_of_name(s@),
    {
        let t = String::from_str(s);
        if t == String::from_str("v1") {
            Some(PpVersion::V1)
        } else if t == String::from_str("v2") {
            Some(PpVersion::V2)
        } else {
            None
        }
    }
}

/// Writing a value via its textual identifier and reading it back
/// yields the original member.
pub proof fn lemma_pp_version_round_trip(v: PpVersion)
    ensures
        pp_version_of_name(v.name_spec()) == Some(v),
{
    reveal_strlit("v1");
    reveal_strlit("v2");
    assert("v1"@.len() == 2);
    assert("v2"@.len() == 2);
    assert("v1"@[1] == '1');
    assert("v2"@[1] == '2');
}

/// A successfully parsed identifier is the one the member writes out.
pub proof fn lemma_pp_version_parse_sound(s: Seq<char>, v: PpVersion)
    requires
        pp_version_of_name(s) == Some(v),
    ensures
        v.name_spec() == s,
{
}

/// Version of the raw-score formula.
#[derive(Clone, Copy, PartialEq, Eq, Structural, Debug)]
pub enum ScoreVersion {
    V1,
    V2,
}

/// The member of [`ScoreVersion`] whose textual identifier is `s`, if any.
pub open spec fn score_version_of_name(s: Seq<char>) -> Option<ScoreVersion> {
    if s == "v1"@ {
        Some(ScoreVersion::V1)
    } else if s == "v2"@ {
        Some(ScoreVersion::V2)
    } else {
        None
    }
}

impl ScoreVersion {
    /// The stable textual identifier persisted on disk for this value.
    pub open spec fn name_spec(self) -> Seq<char> {
        match self {
            ScoreVersion::V1 => "v1"@,
            ScoreVersion::V2 => "v2"@,
        }
    }

    /// Writes the value out as its textual identifier.
    pub fn name(self) -> (r: &'static str)
        ensures
            r@ == self.name_spec(),
    {
        match self {
            ScoreVersion::V1 => "v1",
            ScoreVersion::V2 => "v2",
        }
    }

    /// Reads a value back from its textual identifier.
    pub fn from_name(s: &str) -> (r: Option<ScoreVersion>)
        ensures
            r == score_version_of_name(s@),
    {
        let t = String::from_str(s);
        if t == String::from_str("v1") {
            Some(ScoreVersion::V1)
        } else if t == String::from_str("v2") {
            Some(ScoreVersion::V2)
        } else {
            None
        }
    }
}

/// Writing a value via its textual identifier and reading it back
/// yields the original member.
pub proof fn lemma_score_version_round_trip(v: ScoreVersion)
    ensures
        score_version_of_name(v.name_spec()) == Some(v),
{
    reveal_strlit("v1");
    reveal_strlit("v2");
    assert("v1"@.len() == 2);
    assert("v2"@.len() == 2);
    assert("v1"@[1] == '1');
    assert("v2"@[1] == '2');
}

/// A successfully parsed identifier is the one the member writes out.
pub proof fn lemma_score_version_parse_sound(s: Seq<char>, v: ScoreVersion)
    requires
        score_version_of_name(s) == Some(v),
    ensures
        v.name_spec() == s,
{
}

/// Metric that orders a leaderboard slot.
#[derive(Clone, Copy, PartialEq, Eq, Structural, Debug)]
pub enum RankingType {
    ScoreV1,
    ScoreV2,
    PpV1,
    PpV2,
}

/// The member of [`RankingType`] whose textual identifier is `s`, if any.
pub open spec fn ranking_type_of_name(s: Seq<char>) -> Option<RankingType> {
    if s == "score_v1"@ {
        Some(RankingType::ScoreV1)
    } else if s == "score_v2"@ {
        Some(RankingType::ScoreV2)
    } else if s == "pp_v1"@ {
        Some(RankingType::PpV1)
    } else if s == "pp_v2"@ {
        Some(RankingType::PpV2)
    } else {
        None
    }
}

impl RankingType {
    /// The stable textual identifier persisted on disk for this value.
    pub open spec fn name_spec(self) -> Seq<char> {
        match self {
            RankingType::ScoreV1 => "score_v1"@,
            RankingType::ScoreV2 => "score_v2"@,
            RankingType::PpV1 => "pp_v1"@,
            RankingType::PpV2 => "pp_v2"@,
        }
    }

    /// Writes the value out as its textual identifier.
    pub fn name(self) -> (r: &'static str)
        ensures
            r@ == self.name_spec(),
    {
        match self {
            RankingType::ScoreV1 => "score_v1",
            RankingType::ScoreV2 => "score_v2",
            RankingType::PpV1 => "pp_v1",
            RankingType::PpV2 => "pp_v2",
        }
    }

    /// Reads a value back from its textual identifier.
    pub fn from_name(s: &str) -> (r: Option<RankingType>)
        ensures
            r == ranking_type_of_name(s@),
    {
        let t = String::from_str(s);
        if t == String::from_str("score_v1") {
            Some(RankingType::ScoreV1)
        } else if t == String::from_str("score_v2") {
            Some(RankingType::ScoreV2)
        } else if t == String::from_str("pp_v1") {
            Some(RankingType::PpV1)
        } else if t == String::from_str("pp_v2") {
            Some(RankingType::PpV2)
        } else {
            None
        }
    }
}

/// Writing a value via its textual identifier and reading it back
/// yields the original member.
pub proof fn lemma_ranking_type_round_trip(v: RankingType)
    ensures
        ranking_type_of_name(v.name_spec()) == Some(v),
{
    reveal_strlit("score_v1");
    reveal_strlit("score_v2");
    reveal_strlit("pp_v1");
    reveal_strlit("pp_v2");
    assert("score_v1"@.len() == 8);
    assert("score_v2"@.len() == 8);
    assert("pp_v1"@.len() == 5);
    assert("pp_v2"@.len() == 5);
    assert("score_v1"@[7] == '1');
    assert("score_v2"@[7] == '2');
    assert("pp_v1"@[4] == '1');
    assert("pp_v2"@[4] == '2');
}

/// A successfully parsed identifier is the one the member writes out.
pub proof fn lemma_ranking_type_parse_sound(s: Seq<char>, v: RankingType)
    requires
        ranking_type_of_name(s) == Some(v),
    ensures
        v.name_spec() == s,
{
}

/// Kind of a chat channel.
#[derive(Clone, Copy, PartialEq, Eq, Structural, Debug)]
pub enum ChannelType {
    Private,
    Public,
    Group,
    Multiplayer,
    Spectator,
}

/// The member of [`ChannelType`] whose textual identifier is `s`, if any.
pub open spec fn channel_type_of_name(s: Seq<char>) -> Option<ChannelType> {
    if s == "private"@ {
        Some(ChannelType::Private)
    } else if s == "public"@ {
        Some(ChannelType::Public)
    } else if s == "group"@ {
        Some(ChannelType::Group)
    } else if s == "multiplayer"@ {
        Some(ChannelType::Multiplayer)
    } else if s == "spectator"@ {
        Some(ChannelType::Spectator)
    } else {
        None
    }
}

impl ChannelType {
    /// The stable textual identifier persisted on disk for this value.
    pub open spec fn name_spec(self) -> Seq<char> {
        match self {
            ChannelType::Private => "private"@,
            ChannelType::Public => "public"@,
            ChannelType::Group => "group"@,
            ChannelType::Multiplayer => "multiplayer"@,
            ChannelType::Spectator => "spectator"@,
        }
    }

    /// Writes the value out as its textual identifier.
    pub fn name(self) -> (r: &'static str)
        ensures
            r@ == self.name_spec(),
    {
        match self {
            ChannelType::Private => "private",
            ChannelType::Public => "public",
            ChannelType::Group => "group",
            ChannelType::Multiplayer => "multiplayer",
            ChannelType::Spectator => "spectator",
        }
    }

    /// Reads a value back from its textual identifier.
    pub fn from_name(s: &str) -> (r: Option<ChannelType>)
        ensures
            r == channel_type_of_name(s@),
    {
        let t = String::from_str(s);
        if t == String::from_str("private") {
            Some(ChannelType::Private)
        } else if t == String::from_str("public") {
            Some(ChannelType::Public)
        } else if t == String::from_str("group") {
            Some(ChannelType::Group)
        } else if t == String::from_str("multiplayer") {
            Some(ChannelType::Multiplayer)
        } else if t == String::from_str("spectator") {
            Some(ChannelType::Spectator)
        } else {
            None
        }
    }
}

/// Writing a value via its textual identifier and reading it back
/// yields the original member.
pub proof fn lemma_channel_type_round_trip(v: ChannelType)
    ensures
        channel_type_of_name(v.name_spec()) == Some(v),
{
    reveal_strlit("private");
    reveal_strlit("public");
    reveal_strlit("group");
    reveal_strlit("multiplayer");
    reveal_strlit("spectator");
    assert("private"@.len() == 7);
    assert("public"@.len() == 6);
    assert("group"@.len() == 5);
    assert("multiplayer"@.len() == 11);
    assert("spectator"@.len() == 9);
}

/// A successfully parsed identifier is the one the member writes out.
pub proof fn lemma_channel_type_parse_sound(s: Seq<char>, v: ChannelType)
    requires
        channel_type_of_name(s) == Some(v),
    ensures
        v.name_spec() == s,
{
}

/// Channel action guarded by a privilege.
#[derive(Clone, Copy, PartialEq, Eq, Structural, Debug)]
pub enum ChannelHandleType {
    Join,
    SendMessage,
    KickUser,
    MuteUser,
}

/// The member of [`ChannelHandleType`] whose textual identifier is `s`, if any.
pub open spec fn channel_handle_type_of_name(s: Seq<char>) -> Option<ChannelHandleType> {
    if s == "join"@ {
        Some(ChannelHandleType::Join)
    } else if s == "send_message"@ {
        Some(ChannelHandleType::SendMessage)
    } else if s == "kick_user"@ {
        Some(ChannelHandleType::KickUser)
    } else if s == "mute_user"@ {
        Some(ChannelHandleType::MuteUser)
    } else {
        None
    }
}

impl ChannelHandleType {
    /// The stable textual identifier persisted on disk for this value.
    pub open spec fn name_spec(self) -> Seq<char> {
        match self {
            ChannelHandleType::Join => "join"@,
            ChannelHandleType::SendMessage => "send_message"@,
            ChannelHandleType::KickUser => "kick_user"@,
            ChannelHandleType::MuteUser => "mute_user"@,
        }
    }

    /// Writes the value out as its textual identifier.
    pub fn name(self) -> (r: &'static str)
        ensures
            r@ == self.name_spec(),
    {
        match self {
            ChannelHandleType::Join => "join",
            ChannelHandleType::SendMessage => "send_message",
            ChannelHandleType::KickUser => "kick_user",
            ChannelHandleType::MuteUser => "mute_user",
        }
    }

    /// Reads a value back from its textual identifier.
    pub fn from_name(s: &str) -> (r: Option<ChannelHandleType>)
        ensures
            r == channel_handle_type_of_name(s@),
    {
        let t = String::from_str(s);
        if t == String::from_str("join") {
            Some(ChannelHandleType::Join)
        } else if t == String::from_str("send_message") {
            Some(ChannelHandleType::SendMessage)
        } else if t == String::from_str("kick_user") {
            Some(ChannelHandleType::KickUser)
        } else if t == String::from_str("mute_user") {
            Some(ChannelHandleType::MuteUser)
        } else {
            None
        }
    }
}

/// Writing a value via its textual identifier and reading it back
/// yields the original member.
pub proof fn lemma_channel_handle_type_round_trip(v: ChannelHandleType)
    ensures
        channel_handle_type_of_name(v.name_spec()) == Some(v),
{
    reveal_strlit("join");
    reveal_strlit("send_message");
    reveal_strlit("kick_user");
    reveal_strlit("mute_user");
    assert("join"@.len() == 4);
    assert("send_message"@.len() == 12);
    assert("kick_user"@.len() == 9);
    assert("mute_user"@.len() == 9);
    assert("kick_user"@[0] == 'k');
    assert("mute_user"@[0] == 'm');
}

/// A successfully parsed identifier is the one the member writes out.
pub proof fn lemma_channel_handle_type_parse_sound(s: Seq<char>, v: ChannelHandleType)
    requires
        channel_handle_type_of_name(s) == Some(v),
    ensures
        v.name_spec() == s,
{
}

/// Discriminator naming which extension table owns a score row.
#[derive(Clone, Copy, PartialEq, Eq, Structural, Debug)]
pub enum ScoreKind {
    Classic,
    Generic,
}

/// The member of [`ScoreKind`] whose textual identifier is `s`, if any.
pub open spec fn score_kind_of_name(s: Seq<char>) -> Option<ScoreKind> {
    if s == "classic"@ {
        Some(ScoreKind::Classic)
    } else if s == "generic"@ {
        Some(ScoreKind::Generic)
    } else {
        None
    }
}

impl ScoreKind {
    /// The stable textual identifier persisted on disk for this value.
    pub open spec fn name_spec(self) -> Seq<char> {
        match self {
            ScoreKind::Classic => "classic"@,
            ScoreKind::Generic => "generic"@,
        }
    }

    /// Writes the value out as its textual identifier.
    pub fn name(self) -> (r: &'static str)
        ensures
            r@ == self.name_spec(),
    {
        match self {
            ScoreKind::Classic => "classic",
            ScoreKind::Generic => "generic",
        }
    }

    /// Reads a value back from its textual identifier.
    pub fn from_name(s: &str) -> (r: Option<ScoreKind>)
        ensures
            r == score_kind_of_name(s@),
    {
        let t = String::from_str(s);
        if t == String::from_str("classic") {
            Some(ScoreKind::Classic)
        } else if t == String::from_str("generic") {
            Some(ScoreKind::Generic)
        } else {
            None
        }
    }
}

/// Writing a value via its textual identifier and reading it back
/// yields the original member.
pub proof fn lemma_score_kind_round_trip(v: ScoreKind)
    ensures
        score_kind_of_name(v.name_spec()) == Some(v),
{
    reveal_strlit("classic");
    reveal_strlit("generic");
    assert("classic"@.len() == 7);
    assert("generic"@.len() == 7);
    assert("classic"@[0] == 'c');
    assert("generic"@[0] == 'g');
}

/// A successfully parsed identifier is the one the member writes out.
pub proof fn lemma_score_kind_parse_sound(s: Seq<char>, v: ScoreKind)
    requires
        score_kind_of_name(s) == Some(v),
    ensures
        v.name_spec() == s,
{
}

impl RankStatus {
    /// Position of the status in the ranking order; statuses below
    /// `Pending` are negative and signal an unranked state.
    pub open spec fn spec_level(self) -> int {
        match self {
            RankStatus::Graveyard => -2,
            RankStatus::Wip => -1,
            RankStatus::Pending => 0,
            RankStatus::Ranked => 1,
            RankStatus::Approved => 2,
            RankStatus::Qualified => 3,
            RankStatus::Loved => 4,
        }
    }

    /// The status's position in the ranking order.
    pub fn level(self) -> (r: i32)
        ensures
            r as int == self.spec_level(),
    {
        match self {
            RankStatus::Graveyard => -2,
            RankStatus::Wip => -1,
            RankStatus::Pending => 0,
            RankStatus::Ranked => 1,
            RankStatus::Approved => 2,
            RankStatus::Qualified => 3,
            RankStatus::Loved => 4,
        }
    }

    /// Whether the status is one of the unranked states below `Pending`.
    pub fn is_unranked(self) -> (r: bool)
        ensures
            r == (self.spec_level() < 0),
    {
        self.level() < 0
    }
}

} // verus!
