pub mod lifecycle;
pub mod note;
pub mod search;
pub mod settings;
pub mod settings_change;
pub mod storage;
pub mod text;
