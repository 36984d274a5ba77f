//! The session log: where it is kept and how its records are framed.
pub mod secure_log;
