//! Inventory and sales records of a small shop, with the rules of its web
//! service and its maintenance console.
pub mod clock;
pub mod model;
pub mod inventory;
pub mod laws;
pub mod text;
pub mod console;
pub mod upload;
pub mod session;
pub mod listing;
pub mod session_laws;
