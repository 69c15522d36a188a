//! The resolved environment of the recipe.

use vstd::prelude::*;

verus! {

/// The database user inside the database container.
pub const DB_USER: &'static str = "docker";

/// The password of the database user.
pub const DB_PASS: &'static str = "docker";

/// The name of the database.
pub const DB_NAME: &'static str = "docker";

/// The environment as it was resolved for one invocation. Planning goes on
/// only when there is one; the bytes are those of the environment file.
#[derive(Debug, Clone, PartialEq, Eq)]
pub struct M2Env {
    pub content: Vec<u8>,
}

impl M2Env {
    /// The bytes of the environment file.
    pub fn content(&self) -> (bytes: &Vec<u8>)
        ensures
            bytes == self.content,
    {
        &self.content
    }
}

} // verus!
