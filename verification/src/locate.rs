//! Where the binary of a platform lies, and whether it can be used.

use vstd::prelude::*;
use vstd::string::*;
use crate::config::{join_path, joined_path, Config, ConfigView};
use crate::error::{LaunchError, LaunchErrorView};
use crate::platform::{
    is_supported,
    is_supported_platform,
    is_windows_key,
    is_windows_platform,
};

verus! {

/// What the file system says of the path at which the binary is expected.
#[derive(Debug, Clone, Copy, PartialEq, Eq, Structural)]
pub enum FileProbe {
    /// Nothing lies at the path.
    Missing,
    /// The path exists, but the current user cannot read or execute it.
    Inaccessible,
    /// The path exists and can be executed.
    Ready,
}

/// The name of the binary's file: `nonodo-v{version}-{key}`, with `.exe`
/// behind it for a Windows key and for no other.
pub open spec fn binary_filename_of(version: Seq<char>, key: Seq<char>) -> Seq<char> {
    let stem = "nonodo-v"@ + version + "-"@ + key;
    if is_windows_key(key) {
        stem + ".exe"@
    } else {
        stem
    }
}

/// The path of the binary for `key` under a configuration.
pub open spec fn binary_location_of(config: ConfigView, key: Seq<char>) -> Seq<char> {
    joined_path(config.base_dir, binary_filename_of(config.version, key))
}

/// What two checks of a path amount to: a path that does not exist is
/// missing, whatever the second check said.
pub open spec fn probe_of(exists: bool, accessible: bool) -> FileProbe {
    if !exists {
        FileProbe::Missing
    } else if !accessible {
        FileProbe::Inaccessible
    } else {
        FileProbe::Ready
    }
}

/// The outcome of validating `path` against what was found there.
pub open spec fn validated(path: Seq<char>, probe: FileProbe) -> Result<
    Seq<char>,
    LaunchErrorView,
> {
    match probe {
        FileProbe::Ready => Ok(path),
        FileProbe::Missing => Err(LaunchErrorView::BinaryNotFound { path }),
        FileProbe::Inaccessible => Err(LaunchErrorView::BinaryNotAccessible { path }),
    }
}

/// Where the binary for `key` is expected, or the refusal of a key that has
/// no binary.
pub open spec fn located(config: ConfigView, key: Seq<char>) -> Result<Seq<char>, LaunchErrorView> {
    if is_supported(key) {
        Ok(binary_location_of(config, key))
    } else {
        Err(LaunchErrorView::UnsupportedPlatform { key })
    }
}

/// A path or an error, with the texts as sequences of characters.
pub open spec fn outcome_of(outcome: Result<String, LaunchError>) -> Result<
    Seq<char>,
    LaunchErrorView,
> {
    match outcome {
        Ok(path) => Ok(path@),
        Err(e) => Err(e@),
    }
}

impl FileProbe {
    /// Sums up two checks of a path: does it exist, and can it be used.
    pub fn from_checks(exists: bool, accessible: bool) -> (probe: FileProbe)
        ensures
            probe == probe_of(exists, accessible),
    {
        if !exists {
            FileProbe::Missing
        } else if !accessible {
            FileProbe::Inaccessible
        } else {
            FileProbe::Ready
        }
    }
}

/// Builds the file name of the binary for a version and a platform key.
pub fn binary_filename(version: &str, key: &str) -> (name: String)
    ensures
        name@ == binary_filename_of(version@, key@),
{
    let mut name = "nonodo-v".to_owned();
    name.append(version);
    name.append("-");
    name.append(key);
    if is_windows_platform(key) {
        name.append(".exe");
    }
    name
}

/// Computes where the binary for `key` is expected. This looks at no file:
/// a key without a binary is refused here, before any path exists to check.
pub fn candidate_location(config: &Config, key: &str) -> (found: Result<String, LaunchError>)
    ensures
        outcome_of(found) == located(config@, key@),
{
    if is_supported_platform(key) {
        let name = binary_filename(config.version.as_str(), key);
        Ok(join_path(config.base_dir.as_str(), name.as_str()))
    } else {
        Err(LaunchError::UnsupportedPlatform { key: key.to_owned() })
    }
}

/// Accepts or refuses a path by what the file system said of it: only a
/// ready file is handed back; a missing or inaccessible one is an error that
/// names the path.
pub fn validate_location(path: String, probe: FileProbe) -> (checked: Result<String, LaunchError>)
    ensures
        outcome_of(checked) == validated(path@, probe),
{
    match probe {
        FileProbe::Ready => Ok(path),
        FileProbe::Missing => Err(LaunchError::BinaryNotFound { path }),
        FileProbe::Inaccessible => Err(LaunchError::BinaryNotAccessible { path }),
    }
}

/// The file name of a supported key is `nonodo-v`, the version, a hyphen
/// and the key, with `.exe` behind them if and only if the key begins with
/// `windows`; so among those names the ones that end in `.exe` are the
/// Windows ones, whatever the version.
pub proof fn lemma_exe_suffix_marks_windows(version: Seq<char>, key: Seq<char>)
    requires
        is_supported(key),
    ensures
        binary_filename_of(version, key) == "nonodo-v"@ + version + "-"@ + key + (if "windows"@.is_prefix_of(
            key,
        ) {
            ".exe"@
        } else {
            Seq::<char>::empty()
        }),
        ".exe"@.is_suffix_of(binary_filename_of(version, key)) <==> "windows"@.is_prefix_of(key),
{
    let stem = "nonodo-v"@ + version + "-"@ + key;
    let name = binary_filename_of(version, key);
    reveal_strlit(".exe");
    if is_windows_key(key) {
        assert(name.subrange(name.len() - ".exe"@.len(), name.len() as int) =~= ".exe"@);
    } else {
        assert(stem + Seq::<char>::empty() =~= stem);
        reveal_strlit("darwin-amd64");
        reveal_strlit("darwin-arm64");
        reveal_strlit("linux-amd64");
        reveal_strlit("linux-arm64");
        reveal_strlit("windows-amd64");
        assert(key.last() == '4');
        assert(name.last() == key.last());
        if ".exe"@.is_suffix_of(name) {
            assert(name.subrange(name.len() - 4, name.len() as int)[3] == 'e');
        }
    }
}

/// A key without a binary is refused before any path is built, with the
/// error that names the key.
pub proof fn lemma_unsupported_key_is_refused(config: ConfigView, key: Seq<char>)
    requires
        !is_supported(key),
    ensures
        located(config, key) == Err::<Seq<char>, LaunchErrorView>(
            LaunchErrorView::UnsupportedPlatform { key },
        ),
{
}

/// For a supported key, a file that is missing at the binary's location is
/// reported as not found, with that location.
pub proof fn lemma_missing_binary_is_not_found(config: ConfigView, key: Seq<char>)
    requires
        is_supported(key),
    ensures
        located(config, key) is Ok,
        validated(located(config, key)->Ok_0, FileProbe::Missing) == Err::<
            Seq<char>,
            LaunchErrorView,
        >(LaunchErrorView::BinaryNotFound { path: binary_location_of(config, key) }),
{
}

} // verus!
