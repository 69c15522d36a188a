//! The services of the recipe.

pub mod mail;
