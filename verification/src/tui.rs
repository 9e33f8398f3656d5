//! Keyboard-driven editing state of the terminal console: the server editor,
//! the settings view and the world-slot view. Each state turns a key press
//! into its next state and, where the key asks for one, an intent that the
//! console then carries out against the agent.

pub mod input;
pub mod server_editor;
pub mod settings;
pub mod worlds;
pub mod transport;
pub mod screens;
pub mod session;
