//! Careers: where a user has worked.

pub mod create_career;
pub mod entity;
pub mod find_by_user_id;
