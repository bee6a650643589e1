//! The launcher's configuration: which version of the binary to look for,
//! and in which directory. The caller reads the two variables once, at
//! startup, and hands in what it found.

use vstd::prelude::*;
use vstd::string::*;
use crate::text::ends_in;

verus! {

/// The environment variable that overrides the version.
pub const VERSION_VARIABLE: &'static str = "PACKAGE_NONODO_VERSION";

/// The environment variable that overrides the directory of the binaries.
pub const PATH_VARIABLE: &'static str = "PACKAGE_NONODO_PATH";

/// The version looked for when none is given.
pub const DEFAULT_VERSION: &'static str = "0.1.0";

/// The directory, below the launcher's installation, searched when none is
/// given.
pub const DEFAULT_SUBDIRECTORY: &'static str = "bin";

/// The error with which `dotenvy` answers a lookup that failed. Nothing is
/// known of what it holds.
#[verifier::external_type_specification]
#[verifier::external_body]
pub struct ExDotenvyError(dotenvy::Error);

/// What a launch needs to know before it looks at the host.
#[derive(Debug, Clone, PartialEq, Eq)]
pub struct Config {
    /// The version text that the binary's file name holds. Any text is taken.
    pub version: String,
    /// The directory searched for the binary.
    pub base_dir: String,
}

/// A [`Config`] with its texts as sequences of characters.
pub ghost struct ConfigView {
    pub version: Seq<char>,
    pub base_dir: Seq<char>,
}

impl View for Config {
    type V = ConfigView;

    open spec fn view(&self) -> ConfigView {
        ConfigView { version: self.version@, base_dir: self.base_dir@ }
    }
}

/// `name` as an entry of the directory `base`: a `/` is put between them
/// unless `base` is empty or ends in one already.
pub open spec fn joined_path(base: Seq<char>, name: Seq<char>) -> Seq<char> {
    if base.len() == 0 {
        name
    } else if base.last() == '/' {
        base + name
    } else {
        base.push('/') + name
    }
}

/// The configuration that two optional overrides and the launcher's
/// installation directory give: an override wins where it is present.
pub open spec fn config_of(
    version: Option<Seq<char>>,
    base_dir: Option<Seq<char>>,
    install_dir: Seq<char>,
) -> ConfigView {
    ConfigView {
        version: match version {
            Some(v) => v,
            None => DEFAULT_VERSION@,
        },
        base_dir: match base_dir {
            Some(d) => d,
            None => joined_path(install_dir, DEFAULT_SUBDIRECTORY@),
        },
    }
}

/// The view of an optional text.
pub open spec fn text_of(value: Option<String>) -> Option<Seq<char>> {
    match value {
        Some(s) => Some(s@),
        None => None,
    }
}

/// Joins a directory and an entry's name.
pub fn join_path(base: &str, name: &str) -> (path: String)
    ensures
        path@ == joined_path(base@, name@),
{
    let mut path = base.to_owned();
    if base.unicode_len() > 0 && !ends_in(base, '/') {
        proof {
            reveal_strlit("/");
            assert("/"@ =~= seq!['/']);
            assert(base@ + seq!['/'] =~= base@.push('/'));
        }
        path.append("/");
    }
    path.append(name);
    path
}

/// Builds the configuration from the two overrides, each present or absent,
/// and the directory in which the launcher is installed. No override is
/// examined: any text is a version, any text a directory.
pub fn config_from_overrides(
    version: Option<String>,
    base_dir: Option<String>,
    install_dir: &str,
) -> (config: Config)
    ensures
        config@ == config_of(text_of(version), text_of(base_dir), install_dir@),
{
    let version = match version {
        Some(v) => v,
        None => DEFAULT_VERSION.to_owned(),
    };
    let base_dir = match base_dir {
        Some(d) => d,
        None => join_path(install_dir, DEFAULT_SUBDIRECTORY),
    };
    Config { version, base_dir }
}

/// What the outcome of a lookup means for an override: a value that was
/// read is the override; every failure to read one leaves it absent.
pub open spec fn override_of(outcome: Result<String, dotenvy::Error>) -> Option<Seq<char>> {
    match outcome {
        Ok(value) => Some(value@),
        Err(_) => None,
    }
}

/// Turns the outcome of a lookup with `dotenvy::var`, which the caller
/// makes, into an override, for every outcome: the text that was read,
/// unchanged, or nothing where the lookup failed, whatever the failure was.
pub fn override_from(outcome: Result<String, dotenvy::Error>) -> (value: Option<String>)
    ensures
        text_of(value) == override_of(outcome),
{
    match outcome {
        Ok(value) => Some(value),
        Err(_) => None,
    }
}

} // verus!
