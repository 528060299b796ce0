//! A builder that assembles a configuration, filling defaults for
//! whatever the caller leaves unset.

use vstd::prelude::*;

verus! {

/// The assembled configuration.
pub struct Config {
    pub name: String,
    pub version: String,
    pub debug: bool,
}

/// Collects optional settings; `build` fills in the defaults.
pub struct ConfigBuilder {
    name: Option<String>,
    version: Option<String>,
    debug: bool,
}

impl ConfigBuilder {
    /// The name set so far, if any.
    pub closed spec fn spec_name(&self) -> Option<Seq<char>> {
        match self.name {
            Some(s) => Some(s@),
            None => None,
        }
    }

    /// The version set so far, if any.
    pub closed spec fn spec_version(&self) -> Option<Seq<char>> {
        match self.version {
            Some(s) => Some(s@),
            None => None,
        }
    }

    /// The debug flag set so far.
    pub closed spec fn spec_debug(&self) -> bool {
        self.debug
    }

    /// A builder with nothing set: no name, no version, debug off.
    pub fn new() -> (b: Self)
        ensures
            b.spec_name() is None,
            b.spec_version() is None,
            !b.spec_debug(),
    {
        ConfigBuilder { name: None, version: None, debug: false }
    }

    /// Sets the name.
    pub fn name(self, name: &str) -> (b: Self)
        ensures
            b.spec_name() == Some(name@),
            b.spec_version() == self.spec_version(),
            b.spec_debug() == self.spec_debug(),
    {
        ConfigBuilder { name: Some(name.to_owned()), ..self }
    }

    /// Sets the version.
    pub fn version(self, version: &str) -> (b: Self)
        ensures
            b.spec_version() == Some(version@),
            b.spec_name() == self.spec_name(),
            b.spec_debug() == self.spec_debug(),
    {
        ConfigBuilder { version: Some(version.to_owned()), ..self }
    }

    /// Sets the debug flag.
    pub fn debug(self, debug: bool) -> (b: Self)
        ensures
            b.spec_debug() == debug,
            b.spec_name() == self.spec_name(),
            b.spec_version() == self.spec_version(),
    {
        ConfigBuilder { debug, ..self }
    }

    /// Assembles the configuration: an unset name becomes "Unnamed" and
    /// an unset version becomes "0.0.0".
    pub fn build(self) -> (c: Config)
        ensures
            c.name@ == match self.spec_name() {
                Some(n) => n,
                None => "Unnamed"@,
            },
            c.version@ == match self.spec_version() {
                Some(v) => v,
                None => "0.0.0"@,
            },
            c.debug == self.spec_debug(),
    {
        let name = match self.name {
            Some(n) => n,
            None => String::from_str("Unnamed"),
        };
        let version = match self.version {
            Some(v) => v,
            None => String::from_str("0.0.0"),
        };
        Config { name, version, debug: self.debug }
    }
}

} // verus!
