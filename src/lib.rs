//! Session and authentication engine of an internal identity provider:
//! password verification, session issue and renewal, token resolution with
//! expiry, and the two request stages that guard protected routes.
pub mod domain;
pub mod dto;
pub mod errors;
pub mod identity;
