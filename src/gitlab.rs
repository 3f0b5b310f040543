//! The configuration kept at a fixed place in the user's home directory.

use vstd::prelude::*;
pub use crate::config::GitlabConfig;

verus! {

/// The configuration file's path below the home directory `home`.
pub open spec fn config_path_view(home: Seq<char>) -> Seq<char> {
    home + "/.gitlab-cli/config.json"@
}

/// The path of the configuration file below the home directory `home`.
pub fn config_file_path(home: &str) -> (r: String)
    ensures
        r@ == config_path_view(home@),
{
    let mut r = home.to_string();
    r.append("/.gitlab-cli/config.json");
    r
}

/// The configuration that stands in for a missing file: the empty one.
pub fn create_config() -> (r: GitlabConfig)
    ensures
        r.url@ == Seq::<char>::empty(),
        r.token@ == Seq::<char>::empty(),
{
    GitlabConfig::new()
}

} // verus!
