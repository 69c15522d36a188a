//! The services that every recipe can use.

pub mod mail;
pub mod traefik;
