//! One module per table, each giving its definition, foreign keys and
//! indexes, in the declared catalog order (parents before children).

pub mod users;
pub mod privileges;
pub mod user_privileges;
pub mod bancho_client_hardware_records;
pub mod favourite_beatmaps;
pub mod followers;
pub mod user_settings;
pub mod beatmaps;
pub mod beatmap_ratings;
pub mod channels;
pub mod channel_users;
pub mod channel_privileges;
pub mod chat_messages;
pub mod scores;
pub mod scores_classic;
pub mod scores_generic;
pub mod leaderboard;
pub mod score_pp;
pub mod user_pp;
pub mod user_stats;
