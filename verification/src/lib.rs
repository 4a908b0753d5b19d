pub mod app;
pub mod config;
pub mod controller;
pub mod error;
pub mod i18n;
pub mod model;
pub mod state;

pub use model::markdown::{Markdown, MarkdownMetadata};
pub use model::sqlite::{PostInfo, SqliteOperations};
pub use state::{AppState, ConfigState, EnvState};
