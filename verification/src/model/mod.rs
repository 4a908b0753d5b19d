pub mod ids;
pub mod markdown;
pub mod mock;
pub mod sqlite;
