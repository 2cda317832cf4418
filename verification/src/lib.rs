pub mod commands;
pub mod error;
pub mod guild_xp;
pub mod leaderboard;
pub mod message_create;
pub mod progress;
pub mod random;
pub mod rows;
pub mod text;
pub mod time;

pub use commands::Commands;
pub use error::Error;
pub use leaderboard::row_as_desc;
pub use progress::level_up_xp;
pub use rows::{FullLevelRow, LeaderboardRow, LevelsRow, RankRow, XpRow};
