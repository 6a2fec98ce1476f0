//! Core of a single-page task-list editor: an ordered todo store, a
//! single-selection edit session, and the pure transition function that
//! dispatches user-intent messages onto the state. The UI runtime around it
//! only renders the projected page and performs the one deferred side effect
//! (focus placement) that the transition function requests.

mod ids;
pub mod laws;
pub mod render;
pub mod state;
pub mod store;
pub mod text;
