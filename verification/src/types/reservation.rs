//! Reservations: making one, listing them, and reading one's state.

pub mod list;
pub mod new;
pub mod status;
