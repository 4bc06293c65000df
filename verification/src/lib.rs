//! Session state engine of a terminal chat client: the text-input editor, the
//! model catalog, the conversation log and the controller that routes key
//! presses and streamed response fragments to them.

pub mod conversation_log;
pub mod list_motion;
pub mod message;
pub mod model_catalog;
pub mod session;
pub mod text_editor;
