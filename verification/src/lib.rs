//! An adapter between a compositor's input and render loop and an
//! immediate-mode user interface toolkit.

pub mod context;
pub mod event;
pub mod frame;
pub mod geometry;
pub mod keysyms;
pub mod model;
pub mod registry;
pub mod state;
pub mod types;

pub use crate::frame::EguiFrame;
pub use crate::registry::{next_id, IdRegistry};
pub use crate::state::EguiState;
pub use crate::types::{convert_button, convert_key, convert_modifiers};
