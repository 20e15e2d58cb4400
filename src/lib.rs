pub mod interaction;
pub mod laws;
pub mod logger;
pub mod model;
pub mod report;

pub use logger::{AppLogger, LogLevel};
pub use model::{ChannelId, ChannelKey, GuildId, Model, UserId};
