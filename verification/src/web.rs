//! The gateway: registration, login and the resolution of the current user.

pub mod authentication;
pub mod dto;
pub mod extractors;
pub mod response;
