//! Scaffold of the doom-emacs-pkm productivity plugin: a named, versioned
//! plugin value and its initializer.

use vstd::prelude::*;
use vstd::string::*;

verus! {

/// The line a plugin announces when it is initialized:
/// `Initializing <name> plugin v<version>`.
pub open spec fn init_line(name: Seq<char>, version: Seq<char>) -> Seq<char> {
    "Initializing "@ + name + " plugin v"@ + version
}

/// Failure of plugin initialization. No path produces it yet; it keeps room
/// in the initializer's result for plugins that can fail.
#[derive(Debug)]
pub struct InitError;

/// The plugin: a name and a version, both fixed when it is constructed.
pub struct Doom {
    name: String,
    version: String,
}

impl Doom {
    /// The plugin's name.
    pub closed spec fn name_view(&self) -> Seq<char> {
        self.name@
    }

    /// The plugin's version.
    pub closed spec fn version_view(&self) -> Seq<char> {
        self.version@
    }

    /// Both name and version are non-empty.
    pub open spec fn wf(&self) -> bool {
        self.name_view().len() > 0 && self.version_view().len() > 0
    }

    /// A plugin named `doom-emacs-pkm` at version `0.1.0`.
    pub fn new() -> (r: Self)
        ensures
            r.name_view() == "doom-emacs-pkm"@,
            r.version_view() == "0.1.0"@,
            r.wf(),
    {
        proof {
            reveal_strlit("doom-emacs-pkm");
            reveal_strlit("0.1.0");
        }
        Doom { name: "doom-emacs-pkm".to_string(), version: "0.1.0".to_string() }
    }

    /// The name the plugin was constructed with.
    pub fn name(&self) -> (r: &str)
        ensures
            r@ == self.name_view(),
    {
        self.name.as_str()
    }

    /// The version the plugin was constructed with.
    pub fn version(&self) -> (r: &str)
        ensures
            r@ == self.version_view(),
    {
        self.version.as_str()
    }

    /// Initializes the plugin. It always succeeds, and hands back the line to
    /// be written to the console, which names the plugin and its version.
    pub fn initialize(&self) -> (r: Result<String, InitError>)
        ensures
            r matches Ok(line) && line@ == init_line(self.name_view(), self.version_view()),
    {
        let mut line = "Initializing ".to_string();
        line.append(self.name.as_str());
        line.append(" plugin v");
        line.append(self.version.as_str());
        Ok(line)
    }
}

} // verus!
