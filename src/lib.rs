//! A todo list: its entries, the messages a user interface sends it, and the
//! reducer that applies them.
pub mod entry;
pub mod msg;
pub mod state;
pub mod laws;
