//! Navigation, scrolling, keybinding and editing logic of a branching chat client.

pub mod editor;
pub mod layout;
pub mod text;
pub mod dialogue;
pub mod heights;
pub mod scrolling;
pub mod focus_resolver;
pub mod mode;
pub mod keys;
pub mod keybindings;
pub mod actions;
pub mod theme;
pub mod config;
pub mod input;
pub mod highlighting;
pub mod caches;
pub mod state;
pub mod test_data;
pub mod dialogue_service;
pub mod selection;
pub mod reducer;
pub mod normal_mode_handler;
pub mod edit_mode_handler;
pub mod normal_view;
pub mod edit_view;
pub mod status;
pub mod screen;
pub mod message_renderer;
pub mod shared;
pub mod laws;
