use staten::errors::Error;
use staten::platform::{
    choose_windows_shim_path, node_exe_candidates, node_install_shell_command,
    node_path_is_from_nvm, node_paths_shell_command, node_version_list_command,
    npx_shim_path_under, nvm_install_shell_command, nvm_root_windows, nvm_version_shell_command,
    nvm_windows_installer_url, parse_node_paths_output, parse_where_output, parse_which_output,
    require_supported_platform, select_first_existing, shim_script_unix, shim_script_windows,
    strip_v_prefix, test_node_paths, test_nvm_version, test_shim_path, test_uvx_path,
    uv_install_powershell_command, uv_install_shell_command, uvx_candidate_paths, windows_npx_path,
    Platform,
};

#[test]
fn test_canned_test_mode_values() {
    assert_eq!(test_uvx_path(), "/test/.local/bin/uvx");
    assert_eq!(test_shim_path(), "/test/.local/share/staten/bin/npx-staten");
    let (node, npx) = test_node_paths();
    assert_eq!(node, "/test/.nvm/versions/node/v20.9.0/bin/node");
    assert_eq!(npx, "/test/.nvm/versions/node/v20.9.0/bin/npx");
    assert_eq!(test_nvm_version(), "0.40.1");
}

#[test]
fn test_shim_paths_per_platform() {
    assert_eq!(
        npx_shim_path_under(Platform::MacOs, "/Users/dev"),
        "/Users/dev/.local/share/staten/bin/npx-staten"
    );
    assert_eq!(
        npx_shim_path_under(Platform::Windows, "C:\\Users\\dev\\AppData\\Local"),
        "C:\\Users\\dev\\AppData\\Local\\staten\\bin\\npx-staten.cmd"
    );
}

#[test]
fn test_choose_windows_shim_path() {
    let local = || "C:\\l\\npx-staten.cmd".to_string();
    assert_eq!(choose_windows_shim_path(local(), true, Some("D:\\x\r\nmore")), local());
    assert_eq!(
        choose_windows_shim_path(local(), false, Some("D:\\elsewhere\\npx-staten.cmd\r\nsecond")),
        "D:\\elsewhere\\npx-staten.cmd"
    );
    assert_eq!(choose_windows_shim_path(local(), false, Some("   \r\n")), local());
    assert_eq!(choose_windows_shim_path(local(), false, None), local());
}

#[test]
fn test_uvx_candidate_paths() {
    let mac = uvx_candidate_paths(Platform::MacOs, "/Users/dev");
    assert_eq!(
        mac,
        vec![
            "/Users/dev/.local/bin/uvx",
            "/Users/dev/.cargo/bin/uvx",
            "/usr/local/bin/uvx",
            "/opt/homebrew/bin/uvx",
            "/usr/bin/uvx",
        ]
    );
    let win = uvx_candidate_paths(Platform::Windows, "C:\\Users\\dev");
    assert_eq!(
        win,
        vec![
            "C:\\Users\\dev\\.cargo\\bin\\uvx.exe",
            "C:\\Program Files\\uv\\uvx.exe",
            "C:\\uv\\uvx.exe",
        ]
    );
    assert!(uvx_candidate_paths(Platform::Other, "/home/dev").is_empty());
}

#[test]
fn test_select_first_existing() {
    let paths = vec!["a".to_string(), "b".to_string(), "c".to_string()];
    assert_eq!(
        select_first_existing(&paths, &vec![false, true, true]),
        Some("b".to_string())
    );
    assert_eq!(select_first_existing(&paths, &vec![false, false, false]), None);
}

#[test]
fn test_parse_lookup_outputs() {
    assert_eq!(parse_which_output("  /usr/bin/uv\n"), "/usr/bin/uv");
    assert_eq!(
        parse_where_output("C:\\uv\\uvx.exe\r\nC:\\other\\uvx.exe\r\n"),
        Some("C:\\uv\\uvx.exe".to_string())
    );
    assert_eq!(parse_where_output("\r\n"), None);
    assert_eq!(parse_where_output(""), None);
}

#[test]
fn test_nvm_root_windows() {
    assert_eq!(
        nvm_root_windows(Some("D:\\nvm".to_string()), Some("C:\\Users\\dev")),
        Some("D:\\nvm".to_string())
    );
    assert_eq!(
        nvm_root_windows(None, Some("C:\\Users\\dev")),
        Some("C:\\Users\\dev\\AppData\\Roaming\\nvm".to_string())
    );
    assert_eq!(nvm_root_windows(None, None), None);
}

#[test]
fn test_strip_v_prefix() {
    assert_eq!(strip_v_prefix("v20.9.0"), "20.9.0");
    assert_eq!(strip_v_prefix("20.9.0"), "20.9.0");
    assert_eq!(strip_v_prefix(""), "");
}

#[test]
fn test_node_exe_candidates() {
    assert_eq!(
        node_exe_candidates("C:\\nvm", "20.9.0"),
        vec!["C:\\nvm\\20.9.0\\node.exe", "C:\\nvm\\v20.9.0\\node.exe"]
    );
    assert_eq!(windows_npx_path("C:\\nvm\\v20.9.0"), "C:\\nvm\\v20.9.0\\npx.cmd");
}

#[test]
fn test_parse_node_paths_output() {
    let ok = parse_node_paths_output("/n/bin/node\n/n/bin/npx\n").unwrap();
    assert_eq!(ok.0, "/n/bin/node");
    assert_eq!(ok.1, "/n/bin/npx");

    assert!(matches!(
        parse_node_paths_output(""),
        Err(Error::PathResolutionFailed(_))
    ));
    assert!(matches!(
        parse_node_paths_output("/n/bin/node\n"),
        Err(Error::PathResolutionFailed(_))
    ));
}

#[test]
fn test_node_path_validation() {
    assert!(node_path_is_from_nvm("/Users/dev/.nvm/versions/node/v20.9.0/bin/node"));
    assert!(!node_path_is_from_nvm("/usr/local/bin/node"));
}

#[test]
fn test_shim_script_contents() {
    let unix = shim_script_unix("/n/bin/node", "/n/bin/npx");
    assert_eq!(
        unix,
        "#!/bin/sh\n# NPX shim for Staten\n\nNODE=\"/n/bin/node\"\nNPX=\"/n/bin/npx\"\n\nexport PATH=\"$(dirname \"$NODE\"):$PATH\"\n\nexec \"$NPX\" \"$@\"\n"
    );
    let win = shim_script_windows("C:\\n", "C:\\n\\node.exe", "C:\\n\\npx.cmd");
    assert_eq!(
        win,
        "@echo off\n:: NPX shim for Staten on Windows\n\nset NODE_PATH=C:\\n\nset NODE=C:\\n\\node.exe\nset NPX=C:\\n\\npx.cmd\nset PATH=%NODE_PATH%;%PATH%\n\n\"%NPX%\" %*\n"
    );
}

#[test]
fn test_shell_commands_pin_the_version() {
    assert_eq!(
        node_paths_shell_command("v20.9.0"),
        "export NVM_DIR=\"$HOME/.nvm\"\n[ -s \"$NVM_DIR/nvm.sh\" ] && \\. \"$NVM_DIR/nvm.sh\"\nnvm use v20.9.0 > /dev/null 2>&1\nwhich node\nwhich npx\n"
    );
    assert_eq!(
        node_version_list_command("v20.9.0"),
        "export NVM_DIR=\"$HOME/.nvm\"\n[ -s \"$NVM_DIR/nvm.sh\" ] && \\. \"$NVM_DIR/nvm.sh\"\nnvm list | grep -w \"v20.9.0\" || true\n"
    );
    assert_eq!(
        node_install_shell_command("v20.9.0"),
        "export NVM_DIR=\"$HOME/.nvm\"\n[ -s \"$NVM_DIR/nvm.sh\" ] && \\. \"$NVM_DIR/nvm.sh\"\nnvm install v20.9.0 --no-progress\n"
    );
    assert!(nvm_version_shell_command().ends_with("nvm --version\n"));
    assert!(nvm_install_shell_command().contains("nvm-sh/nvm/v0.40.1/install.sh"));
    assert!(uv_install_shell_command().contains("astral.sh/uv/install.sh"));
    assert!(uv_install_powershell_command().contains("astral.sh/uv/install.ps1"));
    assert!(nvm_windows_installer_url().contains("1.1.11/nvm-setup.exe"));
}

#[test]
fn test_unsupported_platform_is_refused() {
    assert!(require_supported_platform(Platform::MacOs).is_ok());
    assert!(require_supported_platform(Platform::Windows).is_ok());
    assert!(matches!(
        require_supported_platform(Platform::Other),
        Err(Error::UnsupportedPlatform)
    ));
}

#[test]
fn test_pinned_node_version() {
    assert_eq!(staten::pinned_node_version(), "v20.9.0");
}
