//! The protocol core of a browser group-chat client: the wire codec, the
//! roster and message state of the chat screen, and the login form.

pub mod chat;
pub mod codec;
pub mod json;
pub mod login;
pub mod profile;
pub mod text;
