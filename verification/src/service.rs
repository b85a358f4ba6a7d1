//! The rules of the service that watches the schedule: the client that acts
//! for one account, and the decisions of its two background tasks.

pub mod answers;
pub mod client;
pub mod workers;
