//! Windows flavour of the platform services.
pub mod lcu_auth;
pub mod startup;
