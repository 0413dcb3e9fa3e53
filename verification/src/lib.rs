//! The decisions of a SPICE client, verified: which channels a connection
//! takes up and where it keeps them, what the display channel reports, what
//! each window event sends, and the data that the renderer hands the GPU.

pub mod canvas;
pub mod channel;
pub mod connection;
pub mod cursor_channel;
pub mod display_channel;
pub mod input_channel;
pub mod main_channel;
pub mod mouse_channel;
pub mod scancodes;
pub mod session;
pub mod signal;
pub mod window;
