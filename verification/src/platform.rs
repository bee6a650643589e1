//! Platform keys: the host's operating system and architecture, normalised
//! and written as `{os}-{arch}`, and the keys a binary exists for.

use vstd::prelude::*;
use vstd::string::*;
use crate::text::{has_prefix, lowercase, lowered, same_text, texts_of};

verus! {

/// Whether a lower-case operating system name denotes Windows: `win32`, or
/// any name that begins with `windows`.
pub open spec fn names_windows(lower: Seq<char>) -> bool {
    lower == "win32"@ || "windows"@.is_prefix_of(lower)
}

/// The name under which a system is known to itself, for the name that
/// Rust's standard library gives it: Apple's system is `macos` there and
/// `darwin` everywhere else. Every other name is the same in both.
pub open spec fn system_name_of(target_os: Seq<char>) -> Seq<char> {
    if target_os == "macos"@ {
        "darwin"@
    } else {
        target_os
    }
}

/// The operating system part of a key: `windows` for every Windows name,
/// otherwise the raw name in lower case.
pub open spec fn normalized_os(raw: Seq<char>) -> Seq<char> {
    if names_windows(lowered(raw)) {
        "windows"@
    } else {
        lowered(raw)
    }
}

/// The architecture part of a key: `amd64` for `x64` and `x86_64`, `arm64`
/// for `aarch64` and `arm64`, otherwise the raw name unchanged.
pub open spec fn normalized_arch(raw: Seq<char>) -> Seq<char> {
    if raw == "x64"@ || raw == "x86_64"@ {
        "amd64"@
    } else if raw == "aarch64"@ || raw == "arm64"@ {
        "arm64"@
    } else {
        raw
    }
}

/// The key of a host, from the raw names its runtime reports.
pub open spec fn platform_key_of(raw_os: Seq<char>, raw_arch: Seq<char>) -> Seq<char> {
    normalized_os(raw_os) + "-"@ + normalized_arch(raw_arch)
}

/// The keys a binary is built for, in the order in which they are reported.
pub open spec fn supported_keys() -> Seq<Seq<char>> {
    seq!["darwin-amd64"@, "darwin-arm64"@, "linux-amd64"@, "linux-arm64"@, "windows-amd64"@]
}

pub open spec fn is_supported(key: Seq<char>) -> bool {
    supported_keys().contains(key)
}

/// Whether a key belongs to Windows, where executables carry a suffix.
pub open spec fn is_windows_key(key: Seq<char>) -> bool {
    "windows"@.is_prefix_of(key)
}

/// Gives the raw operating system name of a host that is known only by the
/// name the standard library has for it. A host that names itself, as
/// `uname` does, needs no such step.
pub fn system_name(target_os: &str) -> (raw: String)
    ensures
        raw@ == system_name_of(target_os@),
{
    if same_text(target_os, "macos") {
        "darwin".to_owned()
    } else {
        target_os.to_owned()
    }
}

pub fn normalize_os(raw: &str) -> (os: String)
    ensures
        os@ == normalized_os(raw@),
{
    let lower = lowercase(raw);
    if same_text(lower.as_str(), "win32") || has_prefix(lower.as_str(), "windows") {
        "windows".to_owned()
    } else {
        lower
    }
}

pub fn normalize_arch(raw: &str) -> (arch: String)
    ensures
        arch@ == normalized_arch(raw@),
{
    if same_text(raw, "x64") || same_text(raw, "x86_64") {
        "amd64".to_owned()
    } else if same_text(raw, "aarch64") || same_text(raw, "arm64") {
        "arm64".to_owned()
    } else {
        raw.to_owned()
    }
}

/// Computes the platform key of a host from its raw names. Every pair of
/// names has a key; whether a binary exists for it is a separate question.
pub fn platform_key(raw_os: &str, raw_arch: &str) -> (key: String)
    ensures
        key@ == platform_key_of(raw_os@, raw_arch@),
{
    let mut key = normalize_os(raw_os);
    key.append("-");
    key.append(normalize_arch(raw_arch).as_str());
    key
}

pub fn is_supported_platform(key: &str) -> (r: bool)
    ensures
        r == is_supported(key@),
{
    let r = same_text(key, "darwin-amd64") || same_text(key, "darwin-arm64") || same_text(
        key,
        "linux-amd64",
    ) || same_text(key, "linux-arm64") || same_text(key, "windows-amd64");
    proof {
        let keys = supported_keys();
        if r {
            assert(keys[0] == "darwin-amd64"@ && keys[1] == "darwin-arm64"@ && keys[2]
                == "linux-amd64"@ && keys[3] == "linux-arm64"@ && keys[4] == "windows-amd64"@);
            assert(exists|i: int| 0 <= i < keys.len() && keys[i] == key@);
        }
    }
    r
}

/// The supported keys, as owned texts.
pub fn supported_platforms() -> (keys: Vec<String>)
    ensures
        texts_of(keys@) == supported_keys(),
{
    let mut keys: Vec<String> = Vec::new();
    keys.push("darwin-amd64".to_owned());
    keys.push("darwin-arm64".to_owned());
    keys.push("linux-amd64".to_owned());
    keys.push("linux-arm64".to_owned());
    keys.push("windows-amd64".to_owned());
    assert(texts_of(keys@) =~= supported_keys());
    keys
}

pub fn is_windows_platform(key: &str) -> (r: bool)
    ensures
        r == is_windows_key(key@),
{
    has_prefix(key, "windows")
}

/// Whether a binary is built for a host with these normalised names.
pub open spec fn has_binary(os: Seq<char>, arch: Seq<char>) -> bool {
    ||| (os == "darwin"@ || os == "linux"@) && (arch == "amd64"@ || arch == "arm64"@)
    ||| os == "windows"@ && arch == "amd64"@
}

/// Among the supported keys, `windows-amd64` is the Windows key and no other
/// is one.
pub proof fn lemma_windows_among_supported(key: Seq<char>)
    requires
        is_supported(key),
    ensures
        is_windows_key(key) <==> key == "windows-amd64"@,
{
    reveal_strlit("darwin-amd64");
    reveal_strlit("darwin-arm64");
    reveal_strlit("linux-amd64");
    reveal_strlit("linux-arm64");
    reveal_strlit("windows-amd64");
    reveal_strlit("windows");
    let w = "windows"@;
    if key == "windows-amd64"@ {
        assert(key.subrange(0, w.len() as int) =~= w);
    } else {
        if is_windows_key(key) {
            assert(key[0] == w[0]);
        }
    }
}

/// A host's key is supported exactly where a binary is built for its
/// normalised names: Darwin and Linux on both architectures, Windows on
/// `amd64`.
pub proof fn lemma_supported_hosts(raw_os: Seq<char>, raw_arch: Seq<char>)
    ensures
        is_supported(platform_key_of(raw_os, raw_arch)) <==> has_binary(
            normalized_os(raw_os),
            normalized_arch(raw_arch),
        ),
{
    let os = normalized_os(raw_os);
    let arch = normalized_arch(raw_arch);
    let key = platform_key_of(raw_os, raw_arch);
    reveal_strlit("darwin-amd64");
    reveal_strlit("darwin-arm64");
    reveal_strlit("linux-amd64");
    reveal_strlit("linux-arm64");
    reveal_strlit("windows-amd64");
    reveal_strlit("darwin");
    reveal_strlit("linux");
    reveal_strlit("windows");
    reveal_strlit("amd64");
    reveal_strlit("arm64");
    reveal_strlit("-");
    assert(key[os.len() as int] == '-');
    assert(key.subrange(0, os.len() as int) =~= os);
    assert(key.subrange(os.len() as int + 1, key.len() as int) =~= arch);
    if has_binary(os, arch) {
        assert(("darwin"@ + "-"@ + "amd64"@) =~= "darwin-amd64"@);
        assert(("darwin"@ + "-"@ + "arm64"@) =~= "darwin-arm64"@);
        assert(("linux"@ + "-"@ + "amd64"@) =~= "linux-amd64"@);
        assert(("linux"@ + "-"@ + "arm64"@) =~= "linux-arm64"@);
        assert(("windows"@ + "-"@ + "amd64"@) =~= "windows-amd64"@);
        let keys = supported_keys();
        assert(keys[0] == "darwin-amd64"@ && keys[1] == "darwin-arm64"@ && keys[2]
            == "linux-amd64"@ && keys[3] == "linux-arm64"@ && keys[4] == "windows-amd64"@);
        assert(exists|i: int| 0 <= i < keys.len() && keys[i] == key);
    }
    if is_supported(key) {
        if key == "darwin-amd64"@ || key == "darwin-arm64"@ {
            assert(os.len() == 6) by {
                assert(forall|i: int| 0 <= i < key.len() && key[i] == '-' ==> i == 6);
            }
            assert(os =~= "darwin"@);
        } else if key == "linux-amd64"@ || key == "linux-arm64"@ {
            assert(os.len() == 5) by {
                assert(forall|i: int| 0 <= i < key.len() && key[i] == '-' ==> i == 5);
            }
            assert(os =~= "linux"@);
        } else {
            assert(key == "windows-amd64"@);
            assert(os.len() == 7) by {
                assert(forall|i: int| 0 <= i < key.len() && key[i] == '-' ==> i == 7);
            }
            assert(os =~= "windows"@);
        }
        assert(arch =~= "amd64"@ || arch =~= "arm64"@);
    }
}

} // verus!
