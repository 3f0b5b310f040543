//! The access configuration: the server's base URL and the access token.

use vstd::prelude::*;

verus! {

/// Where the server is and how to authenticate to it.
pub struct GitlabConfig {
    pub url: String,
    pub token: String,
}

impl GitlabConfig {
    /// The empty configuration: no URL, no token.
    pub fn new() -> (r: GitlabConfig)
        ensures
            r.url@ == Seq::<char>::empty(),
            r.token@ == Seq::<char>::empty(),
    {
        GitlabConfig { url: String::new(), token: String::new() }
    }
}

/// Keeps the configuration in the file at `save_file`.
pub struct Configator<'a> {
    save_file: &'a str,
}

impl<'a> Configator<'a> {
    /// The path of the file that holds the configuration.
    pub closed spec fn file_view(&self) -> Seq<char> {
        self.save_file@
    }

    /// A configurator for the file at `save_file`.
    pub fn new(save_file: &'a str) -> (r: Configator<'a>)
        ensures
            r.file_view() == save_file@,
    {
        Configator { save_file }
    }

    /// The path of the file that holds the configuration.
    pub fn save_file(&self) -> (r: &'a str)
        ensures
            r@ == self.file_view(),
    {
        self.save_file
    }

    /// The configuration that stands in for a missing file, and is then
    /// saved: the empty one.
    pub fn create_config(&self) -> (r: GitlabConfig)
        ensures
            r.url@ == Seq::<char>::empty(),
            r.token@ == Seq::<char>::empty(),
    {
        GitlabConfig::new()
    }
}

} // verus!
