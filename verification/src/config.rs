//! The settings that persist between runs.

use vstd::prelude::*;

verus! {

/// The persisted settings.
#[derive(Debug)]
pub struct Config {
    /// The command that starts the editor.
    pub editor: String,
}

impl Default for Config {
    /// The settings of a first run: the editor is `vim`.
    fn default() -> (config: Self)
        ensures
            config.editor@ == "vim"@,
    {
        Config { editor: String::from_str("vim") }
    }
}

} // verus!
