use nonodo_launcher::platform::{
    is_supported_platform, is_windows_platform, normalize_arch, normalize_os, platform_key,
    supported_platforms, system_name,
};
use nonodo_launcher::text::{ends_in, has_prefix, join_texts, lowercase, same_text, to_lower_char};

#[test]
fn arch_aliases_of_amd64() {
    assert_eq!(normalize_arch("x64"), "amd64");
    assert_eq!(normalize_arch("x86_64"), "amd64");
}

#[test]
fn arch_aliases_of_arm64() {
    assert_eq!(normalize_arch("arm64"), "arm64");
    assert_eq!(normalize_arch("aarch64"), "arm64");
}

#[test]
fn other_arch_names_pass_unchanged() {
    assert_eq!(normalize_arch("riscv64"), "riscv64");
    assert_eq!(normalize_arch("amd64"), "amd64");
    assert_eq!(normalize_arch("X64"), "X64");
    assert_eq!(normalize_arch(""), "");
}

#[test]
fn win32_is_windows() {
    assert_eq!(normalize_os("win32"), "windows");
}

#[test]
fn windows_names_are_windows() {
    assert_eq!(normalize_os("windows"), "windows");
    assert_eq!(normalize_os("Windows_NT"), "windows");
    assert_eq!(normalize_os("WIN32"), "windows");
}

#[test]
fn other_os_names_pass_in_lower_case() {
    assert_eq!(normalize_os("linux"), "linux");
    assert_eq!(normalize_os("Linux"), "linux");
    assert_eq!(normalize_os("Darwin"), "darwin");
    assert_eq!(normalize_os("FreeBSD"), "freebsd");
    assert_eq!(normalize_os("win"), "win");
    assert_eq!(normalize_os(""), "");
}

#[test]
fn keys_of_the_supported_hosts() {
    assert_eq!(platform_key("darwin", "x64"), "darwin-amd64");
    assert_eq!(platform_key("darwin", "arm64"), "darwin-arm64");
    assert_eq!(platform_key("linux", "x86_64"), "linux-amd64");
    assert_eq!(platform_key("linux", "aarch64"), "linux-arm64");
    assert_eq!(platform_key("win32", "x64"), "windows-amd64");
}

#[test]
fn every_host_has_a_key() {
    assert_eq!(platform_key("FreeBSD", "x86_64"), "freebsd-amd64");
    assert_eq!(platform_key("linux", "mips"), "linux-mips");
    assert_eq!(platform_key("", ""), "-");
}

#[test]
fn the_five_supported_keys() {
    assert_eq!(
        supported_platforms(),
        vec!["darwin-amd64", "darwin-arm64", "linux-amd64", "linux-arm64", "windows-amd64"]
    );
    for key in supported_platforms() {
        assert!(is_supported_platform(&key));
    }
}

#[test]
fn keys_without_a_binary() {
    assert!(!is_supported_platform("freebsd-amd64"));
    assert!(!is_supported_platform("windows-arm64"));
    assert!(!is_supported_platform("linux"));
    assert!(!is_supported_platform("linux-amd64.exe"));
    assert!(!is_supported_platform("Linux-amd64"));
    assert!(!is_supported_platform(""));
}

#[test]
fn windows_keys() {
    assert!(is_windows_platform("windows-amd64"));
    assert!(is_windows_platform("windows"));
    assert!(!is_windows_platform("linux-amd64"));
    assert!(!is_windows_platform("darwin-arm64"));
    assert!(!is_windows_platform("window"));
}

#[test]
fn lower_case_of_ascii_only() {
    assert_eq!(lowercase("LiNuX"), "linux");
    assert_eq!(lowercase("AZaz09-_"), "azaz09-_");
    assert_eq!(lowercase("ÄÖ"), "ÄÖ");
    assert_eq!(lowercase(""), "");
    assert_eq!(to_lower_char('A'), 'a');
    assert_eq!(to_lower_char('Z'), 'z');
    assert_eq!(to_lower_char('@'), '@');
    assert_eq!(to_lower_char('['), '[');
    assert_eq!(to_lower_char('q'), 'q');
}

#[test]
fn text_comparisons() {
    assert!(same_text("abc", "abc"));
    assert!(!same_text("abc", "abd"));
    assert!(!same_text("abc", "ab"));
    assert!(has_prefix("windows-amd64", "windows"));
    assert!(has_prefix("abc", ""));
    assert!(!has_prefix("win", "windows"));
    assert!(has_prefix("héllo", "hé"));
    assert!(ends_in("/tmp/", '/'));
    assert!(!ends_in("/tmp", '/'));
    assert!(!ends_in("", '/'));
}

#[test]
fn joining_texts() {
    let parts = vec!["a".to_string(), "bc".to_string(), "d".to_string()];
    assert_eq!(join_texts(&parts, ", "), "a, bc, d");
    assert_eq!(join_texts(&vec!["only".to_string()], ", "), "only");
    assert_eq!(join_texts(&Vec::new(), ", "), "");
}

#[test]
fn normalizing_twice_changes_nothing() {
    for raw in ["win32", "Windows_NT", "Linux", "darwin", "FreeBSD", "", "WINDOWS"] {
        let once = normalize_os(raw);
        assert_eq!(normalize_os(&once), once);
    }
    for raw in ["x64", "x86_64", "aarch64", "arm64", "amd64", "riscv64", ""] {
        let once = normalize_arch(raw);
        assert_eq!(normalize_arch(&once), once);
    }
}

#[test]
fn the_standard_library_calls_darwin_macos() {
    assert_eq!(system_name("macos"), "darwin");
    assert_eq!(system_name("linux"), "linux");
    assert_eq!(system_name("windows"), "windows");
    assert_eq!(system_name("freebsd"), "freebsd");
    assert_eq!(system_name("MacOS"), "MacOS");
    assert_eq!(system_name(""), "");
    assert_eq!(platform_key(&system_name("macos"), "aarch64"), "darwin-arm64");
    assert_eq!(platform_key(&system_name("macos"), "x86_64"), "darwin-amd64");
}

#[test]
fn macos_itself_is_no_key_part_with_a_binary() {
    assert_eq!(normalize_os("macos"), "macos");
    assert!(!is_supported_platform(&platform_key("macos", "aarch64")));
}
