//! The rule sets of the three fields that the service validates.

pub mod email;
pub mod name;
pub mod password;
