//! Where the log goes and how much it says, from the settings
//! `SNIPPETS_APP_LOG_LEVEL` and `SNIPPETS_APP_LOG_PATH`.

use vstd::prelude::*;

verus! {

/// The filter and the file of the log.
#[derive(Debug)]
pub struct LogSettings {
    /// The filter directive, such as `info`.
    pub level: String,
    /// The path of the log file.
    pub path: String,
}

/// The default filter directive.
pub open spec fn default_level() -> Seq<char> {
    seq!['i', 'n', 'f', 'o']
}

/// The default path of the log file.
pub open spec fn default_log_path() -> Seq<char> {
    "snippets-app.log"@
}

impl LogSettings {
    /// The settings from the values given for the level and the path, each
    /// replaced by its default when it is missing: level `info`, file
    /// `snippets-app.log`.
    pub fn from_values(level: Option<String>, path: Option<String>) -> (s: Self)
        ensures
            s.level@ == match level {
                Some(l) => l@,
                None => default_level(),
            },
            s.path@ == match path {
                Some(p) => p@,
                None => default_log_path(),
            },
    {
        let level = match level {
            Some(l) => l,
            None => {
                proof {
                    reveal_strlit("info");
                }
                "info".to_owned()
            },
        };
        let path = match path {
            Some(p) => p,
            None => "snippets-app.log".to_owned(),
        };
        LogSettings { level, path }
    }
}

} // verus!
