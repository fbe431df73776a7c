//! A chat-style terminal screen reduced to its logic: a single-line editor,
//! an append-only log, the scroll offsets that keep the cursor and the newest
//! log lines in view, the partition of the terminal into panels, and the
//! state machine that dispatches key presses.
//!
//! Nothing here touches a terminal. A driver reads events, hands them to
//! [`session::State::handle`], asks [`screen::ui`] what to draw, and paints it.

pub mod editor;
pub mod layout;
pub mod log_store;
pub mod screen;
pub mod session;
pub mod text;
pub mod viewport;
