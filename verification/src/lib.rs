//! Verified core of Kalk: text handling, selection, history and form logic.

pub mod encoding;
pub mod forms;
pub mod history;
pub mod i18n;
pub mod import;
pub mod keys;
pub mod model;
pub mod nav;
pub mod number;
pub mod order;
pub mod semesters;
pub mod status;
pub mod text;
