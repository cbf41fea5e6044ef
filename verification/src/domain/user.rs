//! Users: validated values, the stored record, and what can be asked of the
//! store about one user.

pub mod create_user;
pub mod entity;
pub mod fetch_one_user;
pub mod update_user;
