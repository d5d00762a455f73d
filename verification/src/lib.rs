//! A minimal terminal chat: the state of a conversation, how key presses
//! change it, and what is drawn on the screen after each change.
//!
//! The crate holds no input or output. A driver reads terminal events, hands
//! them to [`app::App`], and carries out the drawing operations it gets back.

pub mod app;
pub mod canvas;
pub mod chat_loop;
pub mod event;
pub mod message;
pub mod model;
pub mod screen;
pub mod session;
pub mod text;
