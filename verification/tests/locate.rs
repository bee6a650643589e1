use nonodo_launcher::config::{
    config_from_overrides, join_path, override_from, Config, DEFAULT_VERSION, PATH_VARIABLE,
    VERSION_VARIABLE,
};
use nonodo_launcher::error::{LaunchError, FAILURE_EXIT_CODE};
use nonodo_launcher::locate::{binary_filename, candidate_location, validate_location, FileProbe};

fn config(version: &str, base_dir: &str) -> Config {
    Config { version: version.to_string(), base_dir: base_dir.to_string() }
}

#[test]
fn file_names_of_the_five_keys() {
    assert_eq!(binary_filename("2.0.0", "darwin-amd64"), "nonodo-v2.0.0-darwin-amd64");
    assert_eq!(binary_filename("2.0.0", "darwin-arm64"), "nonodo-v2.0.0-darwin-arm64");
    assert_eq!(binary_filename("2.0.0", "linux-amd64"), "nonodo-v2.0.0-linux-amd64");
    assert_eq!(binary_filename("2.0.0", "linux-arm64"), "nonodo-v2.0.0-linux-arm64");
    assert_eq!(binary_filename("2.0.0", "windows-amd64"), "nonodo-v2.0.0-windows-amd64.exe");
}

#[test]
fn any_text_is_a_version() {
    assert_eq!(binary_filename("", "linux-amd64"), "nonodo-v-linux-amd64");
    assert_eq!(binary_filename("1.2.3-rc.1", "linux-arm64"), "nonodo-v1.2.3-rc.1-linux-arm64");
    assert_eq!(binary_filename("windows", "darwin-arm64"), "nonodo-vwindows-darwin-arm64");
}

#[test]
fn joining_paths() {
    assert_eq!(join_path("/tmp/bins", "nonodo"), "/tmp/bins/nonodo");
    assert_eq!(join_path("/tmp/bins/", "nonodo"), "/tmp/bins/nonodo");
    assert_eq!(join_path("", "nonodo"), "nonodo");
    assert_eq!(join_path("/", "nonodo"), "/nonodo");
    assert_eq!(join_path("bins", "nonodo"), "bins/nonodo");
}

#[test]
fn defaults_without_overrides() {
    let c = config_from_overrides(None, None, "/opt/launcher");
    assert_eq!(c.version, "0.1.0");
    assert_eq!(c.version, DEFAULT_VERSION);
    assert_eq!(c.base_dir, "/opt/launcher/bin");
}

#[test]
fn overrides_win() {
    let c = config_from_overrides(
        Some("2.0.0".to_string()),
        Some("/tmp/bins".to_string()),
        "/opt/launcher",
    );
    assert_eq!(c, config("2.0.0", "/tmp/bins"));
    let c = config_from_overrides(Some("".to_string()), None, "/opt/launcher");
    assert_eq!(c, config("", "/opt/launcher/bin"));
    let c = config_from_overrides(None, Some("relative/dir".to_string()), "/opt/launcher");
    assert_eq!(c, config("0.1.0", "relative/dir"));
}

#[test]
fn names_of_the_variables() {
    assert_eq!(VERSION_VARIABLE, "PACKAGE_NONODO_VERSION");
    assert_eq!(PATH_VARIABLE, "PACKAGE_NONODO_PATH");
}

#[test]
fn a_value_that_was_read_is_the_override() {
    assert_eq!(override_from(Ok("2.0.0".to_string())), Some("2.0.0".to_string()));
    assert_eq!(override_from(Ok(String::new())), Some(String::new()));
}

#[test]
fn a_failed_lookup_leaves_the_override_absent() {
    let failure = dotenvy::Error::LineParse("A B".to_string(), 1);
    assert_eq!(override_from(Err(failure)), None);
}

#[test]
fn overrides_as_they_were_looked_up() {
    let failure = dotenvy::Error::LineParse("A B".to_string(), 1);
    let c = config_from_overrides(
        override_from(Ok("2.0.0".to_string())),
        override_from(Err(failure)),
        "/opt/launcher",
    );
    assert_eq!(c, config("2.0.0", "/opt/launcher/bin"));
}

#[test]
fn location_of_a_supported_key() {
    let c = config("2.0.0", "/tmp/bins");
    assert_eq!(
        candidate_location(&c, "linux-amd64"),
        Ok("/tmp/bins/nonodo-v2.0.0-linux-amd64".to_string())
    );
    assert_eq!(
        candidate_location(&c, "windows-amd64"),
        Ok("/tmp/bins/nonodo-v2.0.0-windows-amd64.exe".to_string())
    );
}

#[test]
fn unsupported_key_is_refused() {
    let c = config("2.0.0", "/tmp/bins");
    assert_eq!(
        candidate_location(&c, "freebsd-amd64"),
        Err(LaunchError::UnsupportedPlatform { key: "freebsd-amd64".to_string() })
    );
    assert_eq!(
        candidate_location(&c, "windows-arm64"),
        Err(LaunchError::UnsupportedPlatform { key: "windows-arm64".to_string() })
    );
}

#[test]
fn missing_file_is_not_found() {
    let path = "/tmp/bins/nonodo-v2.0.0-linux-amd64".to_string();
    assert_eq!(
        validate_location(path.clone(), FileProbe::Missing),
        Err(LaunchError::BinaryNotFound { path })
    );
}

#[test]
fn unusable_file_is_not_accessible() {
    let path = "/tmp/bins/nonodo-v2.0.0-linux-amd64".to_string();
    assert_eq!(
        validate_location(path.clone(), FileProbe::Inaccessible),
        Err(LaunchError::BinaryNotAccessible { path })
    );
}

#[test]
fn ready_file_is_handed_back() {
    let path = "/tmp/bins/nonodo-v2.0.0-linux-amd64".to_string();
    assert_eq!(validate_location(path.clone(), FileProbe::Ready), Ok(path));
}

#[test]
fn probe_from_two_checks() {
    assert_eq!(FileProbe::from_checks(false, false), FileProbe::Missing);
    assert_eq!(FileProbe::from_checks(false, true), FileProbe::Missing);
    assert_eq!(FileProbe::from_checks(true, false), FileProbe::Inaccessible);
    assert_eq!(FileProbe::from_checks(true, true), FileProbe::Ready);
}

#[test]
fn diagnostics() {
    assert_eq!(
        LaunchError::UnsupportedPlatform { key: "freebsd-amd64".to_string() }.message(),
        "Incompatible platform. Nonodo supports: darwin-amd64, darwin-arm64, linux-amd64, linux-arm64, windows-amd64"
    );
    assert_eq!(
        LaunchError::BinaryNotFound { path: "/tmp/bins/nonodo".to_string() }.message(),
        "No nonodo binary found: /tmp/bins/nonodo"
    );
    assert_eq!(
        LaunchError::BinaryNotAccessible { path: "/tmp/bins/nonodo".to_string() }.message(),
        "No access: /tmp/bins/nonodo"
    );
    assert_eq!(
        LaunchError::ChildSpawnFailure { reason: "permission denied".to_string() }.message(),
        "Could not start nonodo: permission denied"
    );
    assert_eq!(
        LaunchError::ChildWaitFailure { reason: "interrupted".to_string() }.message(),
        "Could not wait for nonodo: interrupted"
    );
}

#[test]
fn unsupported_diagnostic_lists_every_key() {
    let text = LaunchError::UnsupportedPlatform { key: "plan9-386".to_string() }.message();
    for key in nonodo_launcher::platform::supported_platforms() {
        assert!(text.contains(&key));
    }
}

#[test]
fn copies_of_errors() {
    let e = LaunchError::BinaryNotFound { path: "/x".to_string() };
    assert_eq!(e.duplicate(), e);
    let e = LaunchError::ChildWaitFailure { reason: "r".to_string() };
    assert_eq!(e.duplicate(), e);
    assert_eq!(FAILURE_EXIT_CODE, 1);
}
