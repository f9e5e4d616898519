//! The checking session: resolves the convention a path must follow and
//! matches the path's base name against it.

use vstd::prelude::*;
use crate::config::Config;
use crate::config::spec_resolve;
use crate::matcher;
use crate::matcher::convention_of_tag;
use crate::matcher::spec_matches;

verus! {

/// Command-line options: the directory whose tree is to be checked.
pub struct CliOption {
    /// Path of the directory to check, in textual form.
    pub path: String,
}

/// The facts of a filesystem path that a check reads: its base name (stem)
/// and its extension, plus the path's textual form for diagnostics. `stem`
/// is `None` where no base name could be derived from the path, and the
/// extension of a path without one is the empty string.
pub struct FilePath {
    pub display: String,
    pub stem: Option<String>,
    pub extension: String,
}

impl FilePath {
    /// A path is well formed when a non-empty base name could be derived.
    pub open spec fn wf(&self) -> bool {
        self.stem matches Some(s) && s@.len() > 0
    }
}

/// A failed check. An unknown convention tag is fatal for the whole run
/// (the configuration itself is invalid); a malformed path is fatal for
/// that file alone. Both carry the offending path for diagnostics.
#[derive(Debug, PartialEq, Eq)]
pub enum CheckError {
    UnknownConvention { path: String, convention: String },
    MalformedPath { path: String },
}

/// A checking session: the chosen target directory and the configuration,
/// both immutable after construction.
pub struct Ficon {
    pub option: CliOption,
    pub config: Config,
}

impl Ficon {
    /// Builds a session from already-parsed options and configuration.
    pub fn new(option: CliOption, config: Config) -> (f: Ficon)
        ensures
            f.option == option,
            f.config == config,
    {
        Ficon { option, config }
    }

    /// The directory this session checks.
    pub fn target_dir(&self) -> (r: &String)
        ensures
            r == self.option.path,
    {
        &self.option.path
    }

    /// The convention tag that this session's configuration assigns to `path`.
    pub open spec fn spec_convention_for(&self, path: FilePath) -> Seq<char> {
        spec_resolve(self.config.overrides@, path.extension@, self.config.default_convention@)
    }

    /// Checks one file: resolves the convention for the path's extension,
    /// then matches the path's base name against it. Succeeds exactly on a
    /// well-formed path whose resolved convention tag is a known one; the
    /// error otherwise names the offending path, and the unknown tag.
    pub fn check(&self, path: &FilePath) -> (r: Result<bool, CheckError>)
        ensures
            ({
                let tag = self.spec_convention_for(*path);
                &&& (r is Ok <==> path.wf() && convention_of_tag(tag) is Some)
                &&& path.wf() && convention_of_tag(tag) is Some ==> r == Ok::<
                    bool,
                    CheckError,
                >(spec_matches(convention_of_tag(tag)->Some_0, path.stem->Some_0@))
                &&& !path.wf() ==> (r matches Err(CheckError::MalformedPath { path: p }) && p@
                    == path.display@)
                &&& path.wf() && convention_of_tag(tag) is None ==> (r matches Err(
                    CheckError::UnknownConvention { path: p, convention: cv },
                ) && p@ == path.display@ && cv@ == tag)
            }),
    {
        let stem: &String = match &path.stem {
            Some(s) => s,
            None => {
                return Err(CheckError::MalformedPath { path: path.display.clone() });
            },
        };
        if stem.as_str().is_empty() {
            return Err(CheckError::MalformedPath { path: path.display.clone() });
        }
        let tag: &String = self.config.convention_for(path.extension.as_str());
        match matcher::matches(tag.as_str(), stem.as_str()) {
            Ok(verdict) => Ok(verdict),
            Err(e) => Err(
                CheckError::UnknownConvention { path: path.display.clone(), convention: e.convention },
            ),
        }
    }
}

} // verus!
