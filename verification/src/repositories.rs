//! The stores: what they hold and how they answer.

pub mod career;
pub mod user;
