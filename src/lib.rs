//! A chat bot answering webhook calls of a messaging platform, with a small
//! store of jokes that users can extend.
pub mod bot;
pub mod http;
pub mod info;
pub mod jokes;
pub mod messages;
pub mod text;
