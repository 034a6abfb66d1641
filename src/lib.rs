//! Per-plant daily care records, the merge that updates them, and the
//! dashboard counts derived from them, together with the plain data types of
//! the plant-tracking service built around them.

pub mod status;
pub mod plant;
pub mod dashboard;
pub mod text;
pub mod ids;
pub mod repo;
pub mod auth;
pub mod password;
