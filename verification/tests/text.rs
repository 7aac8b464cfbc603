use staten::errors::{Error, Toolchain};
use staten::numfmt::{i64_to_string, u64_to_string};
use staten::scalar::Scalar;
use staten::strutil::{first_line, parent_dir, str_contains, str_eq, trim_str};

#[test]
fn test_u64_to_string() {
    assert_eq!(u64_to_string(0), "0");
    assert_eq!(u64_to_string(7), "7");
    assert_eq!(u64_to_string(42), "42");
    assert_eq!(u64_to_string(1000), "1000");
    assert_eq!(u64_to_string(u64::MAX), "18446744073709551615");
}

#[test]
fn test_i64_to_string() {
    assert_eq!(i64_to_string(0), "0");
    assert_eq!(i64_to_string(42), "42");
    assert_eq!(i64_to_string(-17), "-17");
    assert_eq!(i64_to_string(i64::MAX), "9223372036854775807");
    assert_eq!(i64_to_string(i64::MIN), "-9223372036854775808");
}

#[test]
fn test_scalar_to_text() {
    assert_eq!(Scalar::Text("hello".to_string()).to_text(), "hello");
    assert_eq!(Scalar::Int(42).to_text(), "42");
    assert_eq!(Scalar::Num("3.5".to_string()).to_text(), "3.5");
    assert_eq!(Scalar::Bool(true).to_text(), "true");
    assert_eq!(Scalar::Bool(false).to_text(), "false");
}

#[test]
fn test_str_eq() {
    assert!(str_eq("", ""));
    assert!(str_eq("abc", "abc"));
    assert!(!str_eq("abc", "abd"));
    assert!(!str_eq("abc", "abcd"));
}

#[test]
fn test_str_contains() {
    assert!(str_contains("", ""));
    assert!(str_contains("abc", ""));
    assert!(str_contains("abcdef", "cde"));
    assert!(str_contains("abcdef", "abc"));
    assert!(str_contains("abcdef", "def"));
    assert!(!str_contains("abcdef", "acb"));
    assert!(!str_contains("ab", "abc"));
}

#[test]
fn test_trim_str() {
    assert_eq!(trim_str(""), "");
    assert_eq!(trim_str("   "), "");
    assert_eq!(trim_str("  x  "), "x");
    assert_eq!(trim_str("\t/usr/bin/uv\r\n"), "/usr/bin/uv");
    assert_eq!(trim_str("inner space s"), "inner space s");
}

#[test]
fn test_first_line() {
    assert_eq!(first_line(""), "");
    assert_eq!(first_line("one"), "one");
    assert_eq!(first_line("one\ntwo"), "one");
    assert_eq!(first_line("one\r\ntwo"), "one");
    assert_eq!(first_line("\nrest"), "");
}

#[test]
fn test_parent_dir() {
    assert_eq!(parent_dir("/a/b/c"), Some("/a/b".to_string()));
    assert_eq!(parent_dir("C:\\nvm\\v20.9.0\\node.exe"), Some("C:\\nvm\\v20.9.0".to_string()));
    assert_eq!(parent_dir("plain"), None);
}

#[test]
fn test_error_messages() {
    assert_eq!(
        Error::ToolNotFound("uvx".to_string()).message(),
        "tool not found: uvx"
    );
    assert_eq!(
        Error::InstallFailed("exit 1".to_string()).message(),
        "installation failed: exit 1"
    );
    assert_eq!(
        Error::PathResolutionFailed("no npx".to_string()).message(),
        "path resolution failed: no npx"
    );
    assert_eq!(
        Error::InstallVerificationFailed(Toolchain::PackageTool).message(),
        "installation verification failed: package tool not detected"
    );
    assert_eq!(
        Error::InstallVerificationFailed(Toolchain::VersionManager).message(),
        "installation verification failed: version manager not detected"
    );
    assert_eq!(
        Error::InstallVerificationFailed(Toolchain::Runtime).message(),
        "installation verification failed: pinned runtime not detected"
    );
    assert_eq!(Error::UnsupportedPlatform.message(), "unsupported platform");
    assert_eq!(
        Error::ConfigIOError("denied".to_string()).message(),
        "config I/O error: denied"
    );
    assert_eq!(Error::AppNotFound.message(), "app not found in registry");
    assert_eq!(Error::NotInstalled.message(), "app is not installed");
    assert_eq!(Error::SetupFailed.message(), "environment setup failed");
}
