//! Layout results and the input-event and text-option logic of the toolkit's demos.

pub mod layout;
pub mod event_log;
pub mod text_options;
